//! Configuration of a client.

use vstd::prelude::*;
use vstd::string::*;
use vstd::utf8::encode_utf8;

verus! {

/// Seconds after which a request is given up when nothing else is configured.
pub const DEFAULT_TIMEOUT_SECS: u64 = 3600;

/// What a client is built from. Once a client exists its configuration does
/// not change.
#[derive(Clone, Debug, PartialEq, Eq)]
pub struct PixelDrainConfig {
    /// The credential, if any.
    pub api_key: Option<String>,
    /// Seconds after which a request is given up, if limited.
    pub timeout: Option<u64>,
    /// User agent of the connection, in place of the default one.
    pub user_agent: Option<String>,
    /// Address to forward as that of the real client.
    pub real_ip: Option<String>,
    /// User agent to forward as that of the real client.
    pub real_agent: Option<String>,
    /// Whether to log requests and retries.
    pub debug: bool,
}

/// The text that is encoded for HTTP Basic authentication with an empty user
/// name: a colon, then the credential.
pub open spec fn credential_text(api_key: Seq<char>) -> Seq<char> {
    ":"@ + api_key
}

/// The length of the Base64 form of `len` bytes fits a machine word: four
/// characters for every three bytes, and four more for a remainder.
pub open spec fn encodable_len(len: nat) -> bool {
    &&& (len / 3) * 4 <= usize::MAX
    &&& len % 3 > 0 ==> (len / 3) * 4 + 4 <= usize::MAX
}

/// The credential is short enough to be encoded.
pub open spec fn credential_fits(api_key: Seq<char>) -> bool {
    encodable_len(encode_utf8(credential_text(api_key)).len())
}

impl Default for PixelDrainConfig {
    fn default() -> (c: PixelDrainConfig)
        ensures
            c.api_key is None,
            c.timeout == Some(DEFAULT_TIMEOUT_SECS),
            c.user_agent is None,
            c.real_ip is None,
            c.real_agent is None,
            c.debug,
    {
        PixelDrainConfig {
            api_key: None,
            timeout: Some(DEFAULT_TIMEOUT_SECS),
            user_agent: None,
            real_ip: None,
            real_agent: None,
            debug: true,
        }
    }
}

impl PixelDrainConfig {
    /// The configured credential, if it is short enough to be encoded.
    pub open spec fn wf(&self) -> bool {
        self.api_key matches Some(key) ==> credential_fits(key@)
    }

    /// The same configuration with `api_key` as its credential.
    pub fn with_api_key(self, api_key: String) -> (c: PixelDrainConfig)
        ensures
            c.api_key == Some(api_key),
            c.timeout == self.timeout,
            c.user_agent == self.user_agent,
            c.real_ip == self.real_ip,
            c.real_agent == self.real_agent,
            c.debug == self.debug,
    {
        let mut c = self;
        c.api_key = Some(api_key);
        c
    }

    /// The colon-prefixed text of `api_key` that Basic authentication encodes.
    pub fn credential(api_key: &str) -> (text: String)
        ensures
            text@ == credential_text(api_key@),
    {
        String::from_str(":").concat(api_key)
    }

    /// Whether the configured credential, if any, can be encoded.
    pub fn is_well_formed(&self) -> (b: bool)
        ensures
            b == self.wf(),
    {
        match &self.api_key {
            Some(key) => {
                let text: String = PixelDrainConfig::credential(key.as_str());
                let bytes: &[u8] = text.as_str().as_bytes();
                let len: usize = bytes.len();
                let groups: usize = len / 3;
                groups <= usize::MAX / 4 && (len % 3 == 0 || groups * 4 <= usize::MAX - 4)
            },
            None => true,
        }
    }
}

/// The credential that is in force: the stored one if it is not empty, else
/// the one from the environment if there is one and it is not empty.
pub open spec fn resolved_key(stored: Seq<char>, from_environment: Option<Seq<char>>) -> Option<
    Seq<char>,
> {
    if stored.len() > 0 {
        Some(stored)
    } else {
        match from_environment {
            Some(env) => if env.len() > 0 {
                Some(env)
            } else {
                None
            },
            None => None,
        }
    }
}

/// The text of an optional string slice.
pub open spec fn text_of(s: Option<&str>) -> Option<Seq<char>> {
    match s {
        Some(t) => Some(t@),
        None => None,
    }
}

/// Picks the credential to use: a stored credential takes precedence over one
/// from the environment, and an empty one counts as absent.
pub fn resolve_api_key(stored: &str, from_environment: Option<&str>) -> (key: Option<String>)
    ensures
        match key {
            Some(k) => resolved_key(stored@, text_of(from_environment)) == Some(k@),
            None => resolved_key(stored@, text_of(from_environment)) is None,
        },
{
    if !stored.is_empty() {
        return Some(String::from_str(stored));
    }
    match from_environment {
        Some(env) => {
            if !env.is_empty() {
                Some(String::from_str(env))
            } else {
                None
            }
        },
        None => None,
    }
}

} // verus!
