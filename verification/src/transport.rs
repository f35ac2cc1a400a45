//! Requests against the API root and the split of responses into results and
//! errors.

use crate::config::{credential_fits, credential_text, encodable_len, PixelDrainConfig};
use crate::error::{ApiError, PixelDrainError, FIRST_ERROR_STATUS};
use crate::text::{chars_of, tail_from};
use base64::Engine;
use vstd::prelude::*;
use vstd::string::*;
use vstd::utf8::encode_utf8;

verus! {

/// Address of the service.
pub const BASE_URL: &'static str = "https://pixeldrain.com";

/// Root of the service's API.
pub const API_URL: &'static str = "https://pixeldrain.com/api";

/// User agent of a connection for which none is configured.
pub const DEFAULT_USER_AGENT: &'static str =
    "Mozilla/5.0 (X11; Linux x86_64) AppleWebKit/537.36 (KHTML, like Gecko) Chrome/79.0.3945.117 Safari/537.36";

/// The HTTP methods that the client uses.
#[derive(Clone, Copy, Debug, PartialEq, Eq, Structural)]
pub enum Method {
    Get,
    Post,
    Put,
    Delete,
}

/// A request that is ready to be given a body and sent.
#[derive(Clone, Debug, PartialEq, Eq)]
pub struct ApiRequest {
    /// The HTTP method.
    pub method: Method,
    /// The full address.
    pub url: String,
    /// Value of the `Authorization` header, if the request is authenticated.
    pub authorization: Option<String>,
    /// Value of the `X-Real-IP` header, if an address is forwarded.
    pub real_ip: Option<String>,
    /// Value of the `User-Agent` header, if one is forwarded.
    pub user_agent: Option<String>,
    /// Value of the `Content-Type` header, if the body needs one.
    pub content_type: Option<String>,
}

/// The structured body of a failed response, as far as it could be read:
/// an object with the optional members `value` and `message`.
#[derive(Clone, Debug, PartialEq, Eq)]
pub struct ErrorBody {
    pub value: Option<String>,
    pub message: Option<String>,
}

/// The character that stands for a value below 64 in the standard Base64
/// alphabet: the upper-case letters, the lower-case letters, the digits, `+`
/// and `/`.
pub open spec fn base64_digit(v: int) -> char {
    if v < 26 {
        ((0x41 + v) as u8) as char
    } else if v < 52 {
        ((0x61 + v - 26) as u8) as char
    } else if v < 62 {
        ((0x30 + v - 52) as u8) as char
    } else if v == 62 {
        '+'
    } else {
        '/'
    }
}

/// The Base64 text, in the standard alphabet and with padding, of a sequence
/// of bytes: every three bytes give four characters of six bits each, and a
/// remainder of one or two bytes gives two or three characters and is filled
/// up to four with `=`.
pub open spec fn base64_standard(input: Seq<u8>) -> Seq<char>
    decreases input.len(),
{
    if input.len() == 0 {
        Seq::<char>::empty()
    } else if input.len() == 1 {
        let a = input[0] as int;
        seq![base64_digit(a / 4), base64_digit((a % 4) * 16), '=', '=']
    } else if input.len() == 2 {
        let a = input[0] as int;
        let b = input[1] as int;
        seq![
            base64_digit(a / 4),
            base64_digit((a % 4) * 16 + b / 16),
            base64_digit((b % 16) * 4),
            '=',
        ]
    } else {
        let a = input[0] as int;
        let b = input[1] as int;
        let c = input[2] as int;
        seq![
            base64_digit(a / 4),
            base64_digit((a % 4) * 16 + b / 16),
            base64_digit((b % 16) * 4 + c / 64),
            base64_digit(c % 64),
        ] + base64_standard(input.skip(3))
    }
}

/// Encodes the UTF-8 bytes of `input` with
/// `base64::engine::general_purpose::STANDARD.encode`, which gives their
/// Base64 text in the standard alphabet with padding. The bound on the input
/// keeps the encoder's computation of the output's length within a machine
/// word, where it would otherwise panic.
#[verifier::external_body]
fn encode_base64(input: &str) -> (out: String)
    requires
        encodable_len(input.spec_bytes().len()),
    ensures
        out@ == base64_standard(input.spec_bytes()),
{
    base64::engine::general_purpose::STANDARD.encode(input)
}

/// The text of an optional string.
pub open spec fn opt_text(s: Option<String>) -> Option<Seq<char>> {
    match s {
        Some(t) => Some(t@),
        None => None,
    }
}

/// `s` without the slashes it begins with.
pub open spec fn without_leading_slashes(s: Seq<char>) -> Seq<char>
    decreases s.len(),
{
    if s.len() > 0 && s[0] == '/' {
        without_leading_slashes(s.drop_first())
    } else {
        s
    }
}

/// The address of an endpoint: the API root, a slash, and the endpoint's path
/// without any slashes at its start.
pub open spec fn endpoint_address(endpoint: Seq<char>) -> Seq<char> {
    API_URL@ + "/"@ + without_leading_slashes(endpoint)
}

/// The value of the `Authorization` header for a credential: the Basic scheme
/// with an empty user name and the credential as password.
pub open spec fn authorization_value(api_key: Seq<char>) -> Seq<char> {
    "Basic "@ + base64_standard(encode_utf8(credential_text(api_key)))
}

/// The `Authorization` header that a configuration calls for.
pub open spec fn authorization_of(config: PixelDrainConfig) -> Option<Seq<char>> {
    match config.api_key {
        Some(key) => Some(authorization_value(key@)),
        None => None,
    }
}

/// Removes the slashes at the start of `s`.
pub fn trim_leading_slashes(s: &str) -> (t: String)
    ensures
        t@ == without_leading_slashes(s@),
{
    let chars: Vec<char> = chars_of(s);
    let mut i: usize = 0;
    assert(s@.subrange(0, s@.len() as int) == s@);
    while i < chars.len() && chars[i] == '/'
        invariant
            chars@ == s@,
            i <= chars.len(),
            without_leading_slashes(s@) == without_leading_slashes(
                s@.subrange(i as int, s@.len() as int),
            ),
        decreases chars.len() - i,
    {
        proof {
            let rest = s@.subrange(i as int, s@.len() as int);
            assert(rest.drop_first() == s@.subrange(i + 1, s@.len() as int));
        }
        i = i + 1;
    }
    tail_from(s, i)
}

/// The full address of an endpoint below the API root.
pub fn endpoint_url(endpoint: &str) -> (url: String)
    ensures
        url@ == endpoint_address(endpoint@),
{
    let path: String = trim_leading_slashes(endpoint);
    String::from_str(API_URL).concat("/").concat(path.as_str())
}

/// The value of the `Authorization` header for `api_key`.
pub fn basic_authorization(api_key: &str) -> (value: String)
    requires
        credential_fits(api_key@),
    ensures
        value@ == authorization_value(api_key@),
{
    let text: String = PixelDrainConfig::credential(api_key);
    let encoded: String = encode_base64(text.as_str());
    String::from_str("Basic ").concat(encoded.as_str())
}

/// Builds the request for `method` on `endpoint`: addressed below the API
/// root, authenticated if a credential is configured, and with the forwarded
/// address and user agent that the configuration names.
pub fn build_request(config: &PixelDrainConfig, method: Method, endpoint: &str) -> (req: ApiRequest)
    requires
        config.wf(),
    ensures
        req.method == method,
        req.url@ == endpoint_address(endpoint@),
        opt_text(req.authorization) == authorization_of(*config),
        opt_text(req.real_ip) == opt_text(config.real_ip),
        opt_text(req.user_agent) == opt_text(config.real_agent),
        req.content_type is None,
{
    let authorization: Option<String> = match &config.api_key {
        Some(key) => Some(basic_authorization(key.as_str())),
        None => None,
    };
    let real_ip: Option<String> = match &config.real_ip {
        Some(ip) => Some(ip.clone()),
        None => None,
    };
    let user_agent: Option<String> = match &config.real_agent {
        Some(agent) => Some(agent.clone()),
        None => None,
    };
    ApiRequest {
        method,
        url: endpoint_url(endpoint),
        authorization,
        real_ip,
        user_agent,
        content_type: None,
    }
}

/// The user agent of the connection: the configured one, or the default.
pub fn connection_user_agent(config: &PixelDrainConfig) -> (agent: String)
    ensures
        agent@ == match config.user_agent {
            Some(a) => a@,
            None => DEFAULT_USER_AGENT@,
        },
{
    match &config.user_agent {
        Some(a) => a.clone(),
        None => String::from_str(DEFAULT_USER_AGENT),
    }
}

/// The error that a failed response stands for. A body that could be read as
/// a structured error gives its tag and message, with `error` and
/// `Unknown error` where a member is missing; any other body is the message
/// itself, under the tag `error`.
pub open spec fn failure_of(status: u16, body: Seq<char>, parsed: Option<ErrorBody>) -> (
    u16,
    Seq<char>,
    Seq<char>,
) {
    match parsed {
        Some(structured) => (
            status,
            match structured.value {
                Some(v) => v@,
                None => "error"@,
            },
            match structured.message {
                Some(m) => m@,
                None => "Unknown error"@,
            },
        ),
        None => (status, "error"@, body),
    }
}

/// The parts of an `Api` error.
pub open spec fn api_parts(e: PixelDrainError) -> Option<(u16, Seq<char>, Seq<char>)> {
    match e {
        PixelDrainError::Api(api) => Some((api.status, api.value@, api.message@)),
        _ => None,
    }
}

/// What a response that did not fail gives: the value that its body was read
/// as, or a `Serde` error with the reader's message where it could not be
/// read as the expected type.
pub open spec fn decoded_result<T>(decoded: Result<T, String>) -> Result<T, PixelDrainError> {
    match decoded {
        Ok(value) => Ok(value),
        Err(message) => Err(PixelDrainError::Serde(message)),
    }
}

/// Finishes a response that did not fail.
fn finish_decoded<T>(decoded: Result<T, String>) -> (r: Result<T, PixelDrainError>)
    ensures
        r == decoded_result(decoded),
{
    match decoded {
        Ok(value) => Ok(value),
        Err(message) => Err(PixelDrainError::Serde(message)),
    }
}

/// Whether a status signals failure: it does from 400 on.
pub fn is_failure(status: u16) -> (b: bool)
    ensures
        b == (status >= FIRST_ERROR_STATUS),
{
    status >= FIRST_ERROR_STATUS
}

/// The `Api` error that a failed response stands for.
fn failure(status: u16, body: String, parsed: Option<ErrorBody>) -> (e: PixelDrainError)
    ensures
        api_parts(e) == Some(failure_of(status, body@, parsed)),
{
    match parsed {
        Some(structured) => {
            let value: String = match structured.value {
                Some(v) => v,
                None => String::from_str("error"),
            };
            let message: String = match structured.message {
                Some(m) => m,
                None => String::from_str("Unknown error"),
            };
            PixelDrainError::Api(ApiError { status, value, message })
        },
        None => PixelDrainError::Api(
            ApiError { status, value: String::from_str("error"), message: body },
        ),
    }
}

/// Splits a response by its status. A status of 400 or above is a failure and
/// gives the `Api` error described by `failure_of`, from the body's text and
/// from what could be read of it as a structured error. Any other status
/// gives what the body was read as, or a `Serde` error where it could not be
/// read as the expected type.
pub fn parse_json_response<T>(
    status: u16,
    body: String,
    parsed: Option<ErrorBody>,
    decoded: Result<T, String>,
) -> (r: Result<T, PixelDrainError>)
    ensures
        status < FIRST_ERROR_STATUS ==> r == decoded_result(decoded),
        status >= FIRST_ERROR_STATUS ==> (r matches Err(e) && api_parts(e) == Some(
            failure_of(status, body@, parsed),
        )),
{
    if status >= FIRST_ERROR_STATUS {
        Err(failure(status, body, parsed))
    } else {
        finish_decoded(decoded)
    }
}

/// Splits the response to a request that is answered without content, such
/// as the deletion of a file: a status of 400 or above gives the `Api` error
/// described by `failure_of`, and any other status is a success, whatever the
/// body holds and also where it is empty.
pub fn delete_outcome(status: u16, body: String, parsed: Option<ErrorBody>) -> (r: Result<
    (),
    PixelDrainError,
>)
    ensures
        status < FIRST_ERROR_STATUS ==> r is Ok,
        status >= FIRST_ERROR_STATUS ==> (r matches Err(e) && api_parts(e) == Some(
            failure_of(status, body@, parsed),
        )),
{
    if status >= FIRST_ERROR_STATUS {
        Err(failure(status, body, parsed))
    } else {
        Ok(())
    }
}

} // verus!
