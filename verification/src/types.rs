//! The values that the service returns and accepts. They are handed to the
//! caller as they were read; the client keeps none of them.
//!
//! Points in time are held as text, and tables of named entries as lists of
//! pairs of name and value.

use crate::error::PixelDrainError;
use crate::links::{file_link, link_to_file};
use crate::text::{blank, is_blank};
use vstd::prelude::*;
use vstd::string::*;

verus! {

/// Every name of a table of named entries stands in it once.
pub open spec fn names_stand_once<V>(table: Seq<(String, V)>) -> bool {
    forall|i: int, j: int|
        0 <= i < j < table.len() ==> (#[trigger] table[i]).0@ != (#[trigger] table[j]).0@
}

/// An optional table of named entries in which every name stands once.
pub open spec fn is_table<V>(table: Option<Vec<(String, V)>>) -> bool {
    table matches Some(entries) ==> names_stand_once(entries@)
}

/// Answer to an upload.
#[derive(Clone, Debug, PartialEq, Eq)]
pub struct UploadResponse {
    pub id: String,
}

impl UploadResponse {
    /// The link under which the uploaded file is shown.
    pub fn get_file_url(&self) -> (url: String)
        ensures
            url@ == file_link(self.id@),
    {
        link_to_file(self.id.as_str())
    }
}

/// What the service knows of a file.
#[derive(Clone, Debug, PartialEq, Eq)]
pub struct FileInfo {
    pub id: String,
    pub name: String,
    pub size: u64,
    pub views: u64,
    pub bandwidth_used: u64,
    pub bandwidth_used_paid: u64,
    pub downloads: u64,
    pub date_upload: String,
    pub date_last_view: String,
    pub mime_type: String,
    pub thumbnail_href: String,
    pub hash_sha256: String,
    pub delete_after_date: String,
    pub delete_after_downloads: u64,
    pub availability: String,
    pub availability_message: String,
    pub abuse_type: String,
    pub abuse_reporter_name: String,
    pub can_edit: bool,
    pub can_download: bool,
    pub show_ads: bool,
    pub allow_video_player: bool,
    pub download_speed_limit: u64,
}

/// The plan that an account is on.
#[derive(Clone, Debug, PartialEq, Eq)]
pub struct SubscriptionType {
    pub id: String,
    pub name: String,
    pub kind: String,
    pub file_size_limit: u64,
    pub file_expiry_days: u64,
    /// Bytes of storage; `-1` where it is not limited.
    pub storage_space: i64,
    pub price_per_tb_storage: u64,
    pub price_per_tb_bandwidth: u64,
    pub monthly_transfer_cap: u64,
    pub file_viewer_branding: bool,
    pub filesystem_access: bool,
    pub filesystem_storage_limit: u64,
}

/// The account that a credential belongs to.
#[derive(Clone, Debug, PartialEq, Eq)]
pub struct UserInfo {
    pub username: String,
    pub email: String,
    pub email_verified: bool,
    pub otp_enabled: bool,
    pub subscription: SubscriptionType,
    pub storage_space_used: u64,
    pub filesystem_storage_used: u64,
    pub file_count: i32,
    pub is_admin: bool,
    pub balance_micro_eur: i64,
    pub hotlinking_enabled: bool,
    pub monthly_transfer_cap: u64,
    pub monthly_transfer_used: u64,
    pub file_viewer_branding: Option<Vec<(String, String)>>,
    pub file_embed_domains: String,
    pub skip_file_viewer: bool,
    pub affiliate_user_name: String,
    pub checkout_country: String,
    pub checkout_name: String,
    pub checkout_provider: String,
    pub status_code: Option<i32>,
    pub success: Option<bool>,
    pub value: Option<String>,
    pub message: Option<String>,
}

impl UserInfo {
    /// The branding is a table: no name stands in it twice.
    pub open spec fn wf(&self) -> bool {
        is_table(self.file_viewer_branding)
    }
}

/// The files of an account.
#[derive(Clone, Debug, PartialEq, Eq)]
pub struct UserFilesResponse {
    pub files: Vec<FileInfo>,
}

/// The limits that the service applies to the caller at present.
#[derive(Clone, Copy, Debug, PartialEq, Eq, Structural)]
pub struct RateLimits {
    pub server_overload: bool,
    pub speed_limit: i32,
    pub download_limit: i32,
    pub download_limit_used: i32,
    pub transfer_limit: i32,
    pub transfer_limit_used: i32,
}

impl RateLimits {
    /// Whether the server is fit to take an upload: it is unless it reports
    /// itself overloaded.
    pub fn server_available(&self) -> (b: bool)
        ensures
            b == !self.server_overload,
    {
        !self.server_overload
    }
}

/// Throughput of the service's parts.
#[derive(Clone, Copy, Debug, PartialEq, Eq, Structural)]
pub struct ClusterSpeed {
    pub server_tx: i64,
    pub server_rx: i64,
    pub cache_tx: i64,
    pub cache_rx: i64,
    pub storage_tx: i64,
    pub storage_rx: i64,
}

/// A list as it appears among the lists of an account.
#[derive(Clone, Debug, PartialEq, Eq)]
pub struct ListInfo {
    pub id: String,
    pub title: String,
    pub date_created: String,
    pub file_count: i64,
    /// The files of the list as the service sent them, if it sent any.
    pub files: Option<String>,
    pub can_edit: bool,
}

/// A file as it appears in a list.
#[derive(Clone, Debug, PartialEq, Eq)]
pub struct ApiListFile {
    pub detail_href: String,
    pub description: String,
    pub file_info: FileInfo,
}

/// A list with its files.
#[derive(Clone, Debug, PartialEq, Eq)]
pub struct DetailedListInfo {
    pub id: String,
    pub title: String,
    pub files: Vec<ApiListFile>,
    pub date_created: String,
    pub date_updated: Option<String>,
    pub can_edit: bool,
    pub can_delete: bool,
    pub file_count: i32,
}

impl DetailedListInfo {
    /// The list without its files, as it appears among the lists of an
    /// account.
    pub fn summary(self) -> (info: ListInfo)
        ensures
            info.id == self.id,
            info.title == self.title,
            info.date_created == self.date_created,
            info.file_count == self.file_count as i64,
            info.files is None,
            info.can_edit == self.can_edit,
    {
        ListInfo {
            id: self.id,
            title: self.title,
            date_created: self.date_created,
            file_count: self.file_count as i64,
            files: None,
            can_edit: self.can_edit,
        }
    }
}

/// A file to put on a list.
#[derive(Clone, Debug, PartialEq, Eq)]
pub struct ListFile {
    pub id: String,
    pub description: String,
}

/// What creating or updating a list sends.
#[derive(Clone, Debug, PartialEq, Eq)]
pub struct CreateListRequest {
    pub title: String,
    pub files: Vec<ListFile>,
}

/// Answer to the creation of a list.
#[derive(Clone, Debug, PartialEq, Eq)]
pub struct ListCreationResponse {
    pub id: String,
}

/// The lists of an account.
#[derive(Clone, Debug, PartialEq, Eq)]
pub struct UserListsResponse {
    pub lists: Vec<ListInfo>,
}

impl UserListsResponse {
    /// Reads the answer to the request for the lists of an account. A body
    /// that holds nothing but white space stands for no lists. Any other body
    /// must have been read as an object with the member `lists`: what was read
    /// is handed on, and a body that could not be read so is refused with the
    /// reader's message.
    pub fn from_body(body: &str, parsed: Result<UserListsResponse, String>) -> (r: Result<
        UserListsResponse,
        PixelDrainError,
    >)
        ensures
            blank(body@) ==> (r matches Ok(found) && found.lists@.len() == 0),
            !blank(body@) ==> match parsed {
                Ok(lists) => r == Ok::<UserListsResponse, PixelDrainError>(lists),
                Err(message) => r == Err::<UserListsResponse, PixelDrainError>(
                    PixelDrainError::Serde(message),
                ),
            },
    {
        if is_blank(body) {
            return Ok(UserListsResponse { lists: Vec::new() });
        }
        match parsed {
            Ok(lists) => Ok(lists),
            Err(message) => Err(PixelDrainError::Serde(message)),
        }
    }
}

/// The site key for the captcha.
#[derive(Clone, Debug, PartialEq, Eq)]
pub struct RecaptchaInfo {
    pub site_key: String,
}

/// A session of an account.
#[derive(Clone, Debug, PartialEq, Eq)]
pub struct UserSession {
    pub auth_key: String,
    pub creation_ip: String,
    pub user_agent: String,
    pub app_name: String,
    pub creation_time: String,
    pub last_used_time: String,
}

/// An entry of an account's activity log.
#[derive(Clone, Debug, PartialEq, Eq)]
pub struct UserActivity {
    pub time: String,
    pub event: String,
    pub file_id: String,
    pub file_name: String,
    pub file_removal_reason: String,
}

/// An entry of an account's transactions.
#[derive(Clone, Debug, PartialEq, Eq)]
pub struct UserTransaction {
    pub time: String,
    pub new_balance: i64,
    pub deposit_amount: i64,
    pub subscription_charge: i64,
    pub storage_charge: i64,
    pub storage_used: i32,
    pub bandwidth_charge: i64,
    pub bandwidth_used: i32,
    pub affiliate_amount: i64,
    pub affiliate_count: i32,
}

/// What a party may do with a node of a filesystem.
#[derive(Clone, Copy, Debug, PartialEq, Eq, Structural)]
pub struct Permissions {
    pub owner: bool,
    pub read: bool,
    pub write: bool,
    pub delete: bool,
}

/// A node of a filesystem.
#[derive(Clone, Debug, PartialEq, Eq)]
pub struct FilesystemNode {
    pub kind: String,
    pub path: String,
    pub name: String,
    pub created: String,
    pub modified: String,
    pub mode_string: String,
    pub mode_octal: String,
    pub created_by: String,
    pub abuse_type: Option<String>,
    pub abuse_report_time: Option<String>,
    pub file_size: i32,
    pub file_type: String,
    pub sha256_sum: String,
    pub id: Option<String>,
    pub properties: Option<Vec<(String, String)>>,
    pub logging_enabled_at: String,
    pub link_permissions: Option<Permissions>,
    pub user_permissions: Option<Vec<(String, Permissions)>>,
    pub password_permissions: Option<Vec<(String, Permissions)>>,
    pub custom_domain_name: Option<String>,
}

impl FilesystemNode {
    /// Properties and permissions are tables: no name stands in one twice.
    pub open spec fn wf(&self) -> bool {
        &&& is_table(self.properties)
        &&& is_table(self.user_permissions)
        &&& is_table(self.password_permissions)
    }
}

/// Circumstances of a request for a path.
#[derive(Clone, Copy, Debug, PartialEq, Eq, Structural)]
pub struct FilesystemContext {
    pub premium_transfer: bool,
}

/// A path of a filesystem with what lies under it.
#[derive(Clone, Debug, PartialEq, Eq)]
pub struct FilesystemPath {
    pub path: Vec<FilesystemNode>,
    pub base_index: i32,
    pub children: Vec<FilesystemNode>,
    pub permissions: Permissions,
    pub context: FilesystemContext,
}

/// `lists` without the lists whose identifier is `id`, the others in their
/// order.
pub open spec fn without_list(lists: Seq<ListInfo>, id: Seq<char>) -> Seq<ListInfo>
    decreases lists.len(),
{
    if lists.len() == 0 {
        Seq::<ListInfo>::empty()
    } else if lists.last().id@ == id {
        without_list(lists.drop_last(), id)
    } else {
        without_list(lists.drop_last(), id).push(lists.last())
    }
}

/// Takes the lists with the identifier `id` out of `lists`, as is done once
/// the service has deleted the list.
pub fn remove_list(lists: &mut Vec<ListInfo>, id: &str)
    ensures
        final(lists)@ == without_list(old(lists)@, id@),
{
    let wanted: String = String::from_str(id);
    let ghost before: Seq<ListInfo> = lists@;
    let ghost mut done: int = 0;
    let mut i: usize = 0;
    while i < lists.len()
        invariant
            wanted@ == id@,
            0 <= done <= before.len(),
            i <= lists@.len(),
            i == without_list(before.subrange(0, done), id@).len(),
            lists@ == without_list(before.subrange(0, done), id@) + before.subrange(
                done,
                before.len() as int,
            ),
        decreases lists@.len() - i,
    {
        proof {
            let next = before.subrange(0, done + 1);
            assert(next.drop_last() == before.subrange(0, done));
        }
        if lists[i].id == wanted {
            let _ = lists.remove(i);
            proof {
                done = done + 1;
                assert(lists@ == without_list(before.subrange(0, done), id@) + before.subrange(
                    done,
                    before.len() as int,
                ));
            }
        } else {
            i = i + 1;
            proof {
                done = done + 1;
                assert(lists@ == without_list(before.subrange(0, done), id@) + before.subrange(
                    done,
                    before.len() as int,
                ));
            }
        }
    }
    proof {
        assert(before.subrange(0, done) == before);
    }
}

/// Puts `updated` in the place of the first of `lists` whose identifier is
/// `id`, as is done once the service has changed the list. Where no list has
/// that identifier nothing changes.
pub fn replace_list(lists: &mut Vec<ListInfo>, id: &str, updated: ListInfo)
    ensures
        (exists|i: int|
            0 <= i < old(lists)@.len() && old(lists)@[i].id@ == id@ && (forall|k: int|
                0 <= k < i ==> old(lists)@[k].id@ != id@) && final(lists)@ == old(lists)@.update(
                i,
                updated,
            )) || ((forall|k: int| 0 <= k < old(lists)@.len() ==> old(lists)@[k].id@ != id@)
            && final(lists)@ == old(lists)@),
{
    let wanted: String = String::from_str(id);
    let mut i: usize = 0;
    while i < lists.len()
        invariant
            wanted@ == id@,
            lists@ == old(lists)@,
            i <= lists@.len(),
            forall|k: int| 0 <= k < i ==> old(lists)@[k].id@ != id@,
        decreases lists@.len() - i,
    {
        if lists[i].id == wanted {
            lists.set(i, updated);
            return ;
        }
        i = i + 1;
    }
}

} // verus!
