//! The client: one request for every named operation of the service.
//!
//! A client says what is to be sent, to which address and with which
//! headers, and refuses an operation before anything is sent where its
//! preconditions are not met. Sending, and reading what comes back, is the
//! caller's part.

use crate::config::PixelDrainConfig;
use crate::error::{PixelDrainError, TransportFailure};
use crate::links::{
    escape_slashes, extraction_of, file_id_of_link, percent_encode,
    percent_encoded, slashes_escaped,
};
use crate::text::{decimal, decimal_text};
use crate::transport::{
    authorization_of, build_request, endpoint_address, opt_text, ApiRequest, Method,
};
use crate::types::RateLimits;
use vstd::prelude::*;
use vstd::string::*;

verus! {

/// A client of the service. Its configuration is fixed when it is made.
pub struct PixelDrainClient {
    config: PixelDrainConfig,
}

/// A request whose body is a form with one field.
#[derive(Clone, Debug, PartialEq, Eq)]
pub struct FormRequest {
    pub request: ApiRequest,
    pub field: String,
    pub value: String,
}

/// `req` is the request for `method` on `endpoint` under `config`, with the
/// content type `content_type`.
pub open spec fn planned(
    req: ApiRequest,
    config: PixelDrainConfig,
    method: Method,
    endpoint: Seq<char>,
    content_type: Option<Seq<char>>,
) -> bool {
    &&& req.method == method
    &&& req.url@ == endpoint_address(endpoint)
    &&& opt_text(req.authorization) == authorization_of(config)
    &&& opt_text(req.real_ip) == opt_text(config.real_ip)
    &&& opt_text(req.user_agent) == opt_text(config.real_agent)
    &&& opt_text(req.content_type) == content_type
}

/// Message of the error for a credential that cannot be encoded.
pub open spec fn credential_too_long() -> Seq<char> {
    "credential is too long to encode"@
}

/// The content type of a body in JSON.
pub open spec fn json_content_type() -> Seq<char> {
    "application/json"@
}

impl PixelDrainClient {
    #[verifier::type_invariant]
    spec fn inv(self) -> bool {
        self.config.wf()
    }

    /// The configuration that the client was made from.
    pub closed spec fn spec_config(&self) -> PixelDrainConfig {
        self.config
    }

    /// Makes a client from `config`. A credential that is too long to be
    /// encoded is refused as a failure of the transport that is not
    /// retryable; every other configuration is accepted.
    pub fn new(config: PixelDrainConfig) -> (r: Result<PixelDrainClient, PixelDrainError>)
        ensures
            config.wf() ==> (r matches Ok(client) && client.spec_config() == config),
            !config.wf() ==> (r matches Err(PixelDrainError::Reqwest(failure)) && !failure.timeout
                && !failure.connect && !failure.request && failure.message@
                == credential_too_long()),
    {
        if config.is_well_formed() {
            Ok(PixelDrainClient { config })
        } else {
            Err(
                PixelDrainError::Reqwest(
                    TransportFailure {
                        timeout: false,
                        connect: false,
                        request: false,
                        message: String::from_str("credential is too long to encode"),
                    },
                ),
            )
        }
    }

    /// The configuration that the client was made from.
    pub fn config(&self) -> (c: &PixelDrainConfig)
        ensures
            *c == self.spec_config(),
            c.wf(),
    {
        proof {
            use_type_invariant(self);
        }
        &self.config
    }

    /// Whether a credential is configured.
    pub fn has_api_key(&self) -> (b: bool)
        ensures
            b == self.spec_config().api_key.is_some(),
    {
        self.config.api_key.is_some()
    }

    fn request_for(&self, method: Method, endpoint: &str) -> (req: ApiRequest)
        ensures
            planned(req, self.spec_config(), method, endpoint@, None),
    {
        proof {
            use_type_invariant(self);
        }
        build_request(&self.config, method, endpoint)
    }

    fn json_request_for(&self, method: Method, endpoint: &str) -> (req: ApiRequest)
        ensures
            planned(req, self.spec_config(), method, endpoint@, Some(json_content_type())),
    {
        let mut req: ApiRequest = self.request_for(method, endpoint);
        req.content_type = Some(String::from_str("application/json"));
        req
    }

    /// The request that uploads a file as a multipart form with the field
    /// `file`. It is refused if the file at `path` does not exist, and
    /// otherwise if no credential is configured.
    pub fn upload_file(&self, path: &str, exists: bool) -> (r: Result<ApiRequest, PixelDrainError>)
        ensures
            !exists ==> (r matches Err(PixelDrainError::FileNotFound(p)) && p@ == path@),
            exists && self.spec_config().api_key is None ==> r == Err::<
                ApiRequest,
                PixelDrainError,
            >(PixelDrainError::MissingApiKey),
            exists && self.spec_config().api_key is Some ==> (r matches Ok(req) && planned(
                req,
                self.spec_config(),
                Method::Post,
                "file"@,
                None,
            )),
    {
        if !exists {
            return Err(PixelDrainError::FileNotFound(String::from_str(path)));
        }
        if self.config.api_key.is_none() {
            return Err(PixelDrainError::MissingApiKey);
        }
        Ok(self.request_for(Method::Post, "file"))
    }

    /// The request that uploads a file under the name `custom_filename`, with
    /// the file's bytes as its body. It is refused if the file at `path` does
    /// not exist, and otherwise if no credential is configured.
    pub fn upload_file_put(&self, path: &str, exists: bool, custom_filename: &str) -> (r: Result<
        ApiRequest,
        PixelDrainError,
    >)
        ensures
            !exists ==> (r matches Err(PixelDrainError::FileNotFound(p)) && p@ == path@),
            exists && self.spec_config().api_key is None ==> r == Err::<
                ApiRequest,
                PixelDrainError,
            >(PixelDrainError::MissingApiKey),
            exists && self.spec_config().api_key is Some ==> (r matches Ok(req) && planned(
                req,
                self.spec_config(),
                Method::Put,
                "file/"@ + custom_filename@,
                None,
            )),
    {
        if !exists {
            return Err(PixelDrainError::FileNotFound(String::from_str(path)));
        }
        if self.config.api_key.is_none() {
            return Err(PixelDrainError::MissingApiKey);
        }
        let endpoint: String = String::from_str("file/").concat(custom_filename);
        Ok(self.request_for(Method::Put, endpoint.as_str()))
    }

    /// The request that uploads a stream under the name `filename`, which is
    /// percent-encoded into the address. It is refused if no credential is
    /// configured.
    pub fn upload_stream_put(&self, filename: &str) -> (r: Result<ApiRequest, PixelDrainError>)
        ensures
            self.spec_config().api_key is None ==> r == Err::<ApiRequest, PixelDrainError>(
                PixelDrainError::MissingApiKey,
            ),
            self.spec_config().api_key is Some ==> (r matches Ok(req) && planned(
                req,
                self.spec_config(),
                Method::Put,
                "file/"@ + percent_encoded(filename.spec_bytes()),
                None,
            )),
    {
        if self.config.api_key.is_none() {
            return Err(PixelDrainError::MissingApiKey);
        }
        let name: String = percent_encode(filename);
        let endpoint: String = String::from_str("file/").concat(name.as_str());
        Ok(self.request_for(Method::Put, endpoint.as_str()))
    }

    /// The request that downloads the file `file_id`.
    pub fn download_file(&self, file_id: &str) -> (req: ApiRequest)
        ensures
            planned(req, self.spec_config(), Method::Get, "file/"@ + file_id@, None),
    {
        let endpoint: String = String::from_str("file/").concat(file_id);
        self.request_for(Method::Get, endpoint.as_str())
    }

    /// The request that downloads a thumbnail of the file `file_id` in the
    /// given size.
    pub fn download_thumbnail(&self, file_id: &str, width: u32, height: u32) -> (req: ApiRequest)
        ensures
            planned(
                req,
                self.spec_config(),
                Method::Get,
                "file/"@ + file_id@ + "/thumbnail?width="@ + decimal_text(width as nat)
                    + "&height="@ + decimal_text(height as nat),
                None,
            ),
    {
        let w: String = decimal(width as u64);
        let h: String = decimal(height as u64);
        let endpoint: String = String::from_str("file/").concat(file_id).concat(
            "/thumbnail?width=",
        ).concat(w.as_str()).concat("&height=").concat(h.as_str());
        self.request_for(Method::Get, endpoint.as_str())
    }

    /// The request for what the service knows of the file `file_id`.
    pub fn get_file_info(&self, file_id: &str) -> (req: ApiRequest)
        ensures
            planned(req, self.spec_config(), Method::Get, "file/"@ + file_id@ + "/info"@, None),
    {
        let endpoint: String = String::from_str("file/").concat(file_id).concat("/info");
        self.request_for(Method::Get, endpoint.as_str())
    }

    /// The request for the files of the account.
    pub fn get_user_files(&self) -> (req: ApiRequest)
        ensures
            planned(req, self.spec_config(), Method::Get, "user/files"@, None),
    {
        self.request_for(Method::Get, "user/files")
    }

    /// The request that deletes the file `file_id`. It is refused if no
    /// credential is configured.
    pub fn delete_file(&self, file_id: &str) -> (r: Result<ApiRequest, PixelDrainError>)
        ensures
            self.spec_config().api_key is None ==> r == Err::<ApiRequest, PixelDrainError>(
                PixelDrainError::MissingApiKey,
            ),
            self.spec_config().api_key is Some ==> (r matches Ok(req) && planned(
                req,
                self.spec_config(),
                Method::Delete,
                "file/"@ + file_id@,
                None,
            )),
    {
        if self.config.api_key.is_none() {
            return Err(PixelDrainError::MissingApiKey);
        }
        let endpoint: String = String::from_str("file/").concat(file_id);
        Ok(self.request_for(Method::Delete, endpoint.as_str()))
    }

    /// The request for the limits that apply at present.
    pub fn get_rate_limits(&self) -> (req: ApiRequest)
        ensures
            planned(req, self.spec_config(), Method::Get, "misc/rate_limits"@, None),
    {
        self.request_for(Method::Get, "misc/rate_limits")
    }

    /// The request for the throughput of the service.
    pub fn get_cluster_speed(&self) -> (req: ApiRequest)
        ensures
            planned(req, self.spec_config(), Method::Get, "misc/cluster_speed"@, None),
    {
        self.request_for(Method::Get, "misc/cluster_speed")
    }

    /// Whether the server is fit to take an upload, given the answer to the
    /// request for its limits: it is unless it reports itself overloaded. A
    /// failed request is handed on.
    pub fn check_server_status(limits: Result<RateLimits, PixelDrainError>) -> (r: Result<
        bool,
        PixelDrainError,
    >)
        ensures
            match limits {
                Ok(l) => r == Ok::<bool, PixelDrainError>(!l.server_overload),
                Err(e) => r == Err::<bool, PixelDrainError>(e),
            },
    {
        match limits {
            Ok(l) => Ok(l.server_available()),
            Err(e) => Err(e),
        }
    }

    /// Takes the identifier of a file out of a link of one of the forms
    /// `https://pixeldrain.com/u/{id}` and `https://pixeldrain.com/api/file/{id}`.
    pub fn extract_file_id(url: &str) -> (r: Result<String, PixelDrainError>)
        ensures
            extraction_of(url@, r),
    {
        file_id_of_link(url)
    }

    /// The request for the lists of the account.
    pub fn get_user_lists(&self) -> (req: ApiRequest)
        ensures
            planned(req, self.spec_config(), Method::Get, "user/lists"@, None),
    {
        self.request_for(Method::Get, "user/lists")
    }

    /// The request for the list `list_id` with its files.
    pub fn get_list(&self, list_id: &str) -> (req: ApiRequest)
        ensures
            planned(req, self.spec_config(), Method::Get, "list/"@ + list_id@, None),
    {
        let endpoint: String = String::from_str("list/").concat(list_id);
        self.request_for(Method::Get, endpoint.as_str())
    }

    /// The request that creates a list; its body is the list in JSON.
    pub fn create_list(&self) -> (req: ApiRequest)
        ensures
            planned(req, self.spec_config(), Method::Post, "list"@, Some(json_content_type())),
    {
        self.json_request_for(Method::Post, "list")
    }

    /// The request that replaces title and files of the list `list_id`; its
    /// body is the list in JSON.
    pub fn update_list(&self, list_id: &str) -> (req: ApiRequest)
        ensures
            planned(
                req,
                self.spec_config(),
                Method::Put,
                "list/"@ + list_id@,
                Some(json_content_type()),
            ),
    {
        let endpoint: String = String::from_str("list/").concat(list_id);
        self.json_request_for(Method::Put, endpoint.as_str())
    }

    /// The request that deletes the list `list_id`.
    pub fn delete_list(&self, list_id: &str) -> (req: ApiRequest)
        ensures
            planned(req, self.spec_config(), Method::Delete, "list/"@ + list_id@, None),
    {
        let endpoint: String = String::from_str("list/").concat(list_id);
        self.request_for(Method::Delete, endpoint.as_str())
    }

    /// The request that counts a view of the file `file_id`, with the view
    /// token as the form field `token`.
    pub fn post_file_view(&self, file_id: &str, view_token: &str) -> (form: FormRequest)
        ensures
            planned(
                form.request,
                self.spec_config(),
                Method::Post,
                "file/"@ + file_id@ + "/view"@,
                None,
            ),
            form.field@ == "token"@,
            form.value@ == view_token@,
    {
        let endpoint: String = String::from_str("file/").concat(file_id).concat("/view");
        FormRequest {
            request: self.request_for(Method::Post, endpoint.as_str()),
            field: String::from_str("token"),
            value: String::from_str(view_token),
        }
    }

    /// The request for the site key of the captcha.
    pub fn get_misc_recaptcha(&self) -> (req: ApiRequest)
        ensures
            planned(req, self.spec_config(), Method::Get, "misc/recaptcha"@, None),
    {
        self.request_for(Method::Get, "misc/recaptcha")
    }

    /// The request for the price of Siacoin.
    pub fn get_sia_price(&self) -> (req: ApiRequest)
        ensures
            planned(req, self.spec_config(), Method::Get, "misc/sia_price"@, None),
    {
        self.request_for(Method::Get, "misc/sia_price")
    }

    /// The request for the account that the credential belongs to. It is
    /// refused if no credential is configured, so that nothing is sent.
    pub fn get_user(&self) -> (r: Result<ApiRequest, PixelDrainError>)
        ensures
            self.spec_config().api_key is None ==> r == Err::<ApiRequest, PixelDrainError>(
                PixelDrainError::MissingApiKey,
            ),
            self.spec_config().api_key is Some ==> (r matches Ok(req) && planned(
                req,
                self.spec_config(),
                Method::Get,
                "user"@,
                None,
            )),
    {
        if self.config.api_key.is_none() {
            return Err(PixelDrainError::MissingApiKey);
        }
        Ok(self.request_for(Method::Get, "user"))
    }

    /// The request that opens a session for the application `app_name`, named
    /// in the form field `app_name`.
    pub fn post_user_session(&self, app_name: &str) -> (form: FormRequest)
        ensures
            planned(form.request, self.spec_config(), Method::Post, "user/session"@, None),
            form.field@ == "app_name"@,
            form.value@ == app_name@,
    {
        FormRequest {
            request: self.request_for(Method::Post, "user/session"),
            field: String::from_str("app_name"),
            value: String::from_str(app_name),
        }
    }

    /// The request for the sessions of the account.
    pub fn get_user_sessions(&self) -> (req: ApiRequest)
        ensures
            planned(req, self.spec_config(), Method::Get, "user/session"@, None),
    {
        self.request_for(Method::Get, "user/session")
    }

    /// The request that ends the session with the key `session_key`.
    pub fn delete_user_session(&self, session_key: &str) -> (req: ApiRequest)
        ensures
            planned(
                req,
                self.spec_config(),
                Method::Delete,
                "user/session/"@ + session_key@,
                None,
            ),
    {
        let endpoint: String = String::from_str("user/session/").concat(session_key);
        self.request_for(Method::Delete, endpoint.as_str())
    }

    /// The request for the activity log of the account.
    pub fn get_user_activity(&self) -> (req: ApiRequest)
        ensures
            planned(req, self.spec_config(), Method::Get, "user/activity"@, None),
    {
        self.request_for(Method::Get, "user/activity")
    }

    /// The request for the transactions of the account.
    pub fn get_user_transactions(&self) -> (req: ApiRequest)
        ensures
            planned(req, self.spec_config(), Method::Get, "user/transactions"@, None),
    {
        self.request_for(Method::Get, "user/transactions")
    }

    /// The request for the filesystems of the account.
    pub fn get_filesystems(&self) -> (req: ApiRequest)
        ensures
            planned(req, self.spec_config(), Method::Get, "filesystem"@, None),
    {
        self.request_for(Method::Get, "filesystem")
    }

    /// The request for the node at `path` of a filesystem. Every slash of the
    /// path is written as `%2F`.
    pub fn get_filesystem_path(&self, path: &str) -> (req: ApiRequest)
        ensures
            planned(
                req,
                self.spec_config(),
                Method::Get,
                "filesystem/"@ + slashes_escaped(path@) + "?stat"@,
                None,
            ),
    {
        let escaped: String = escape_slashes(path);
        let endpoint: String = String::from_str("filesystem/").concat(escaped.as_str()).concat(
            "?stat",
        );
        self.request_for(Method::Get, endpoint.as_str())
    }
}

} // verus!
