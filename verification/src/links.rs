//! Links to files: how they are formed, how an identifier is taken out of
//! one, and how names are escaped for use in an address.

use crate::error::PixelDrainError;
use crate::text::{begins_with, has_prefix, tail_from};
use crate::transport::BASE_URL;
use vstd::prelude::*;
use vstd::string::*;

verus! {

/// The path of an absolute URL, in the percent-encoded form in which the
/// parser keeps it, or `None` where the text is no absolute URL.
pub uninterp spec fn parsed_url_path(url: Seq<char>) -> Option<Seq<char>>;

/// The message with which the parser refuses a text that is no absolute URL.
pub uninterp spec fn url_parse_failure(url: Seq<char>) -> Seq<char>;

/// Parses `url` with `url::Url::parse`. For an absolute URL it hands out what
/// `Url::path` gives, and for any other text what the `url::ParseError`
/// displays. Both are taken to depend on the text alone.
#[verifier::external_body]
fn parse_url_path(url: &str) -> (r: Result<String, String>)
    ensures
        match r {
            Ok(path) => parsed_url_path(url@) == Some(path@),
            Err(message) => parsed_url_path(url@) is None && message@ == url_parse_failure(url@),
        },
{
    match url::Url::parse(url) {
        Ok(parsed) => Ok(parsed.path().to_string()),
        Err(error) => Err(error.to_string()),
    }
}

/// Message of the error for a link that holds no identifier.
pub open spec fn no_file_id_message() -> Seq<char> {
    "Could not extract file ID from URL"@
}

/// What follows `prefix` in `path`, if `path` begins with `prefix` and goes on
/// after it.
pub open spec fn rest_after(path: Seq<char>, prefix: Seq<char>) -> Option<Seq<char>> {
    if begins_with(path, prefix) && path.len() > prefix.len() {
        Some(path.subrange(prefix.len() as int, path.len() as int))
    } else {
        None
    }
}

/// The identifier that a path names: what follows `/u/`, or what follows
/// `/api/file/`, if there is anything.
pub open spec fn file_id_in(path: Seq<char>) -> Option<Seq<char>> {
    if begins_with(path, "/u/"@) {
        rest_after(path, "/u/"@)
    } else {
        rest_after(path, "/api/file/"@)
    }
}

/// The text of the link under which a file is shown.
pub open spec fn file_link(id: Seq<char>) -> Seq<char> {
    BASE_URL@ + "/u/"@ + id
}

/// The one character `c` as it stands in an escaped path: `%2F` for a slash,
/// the character itself otherwise.
pub open spec fn slash_escape(c: char) -> Seq<char> {
    if c == '/' {
        "%2F"@
    } else {
        seq![c]
    }
}

/// `s` with every slash replaced by `%2F`.
pub open spec fn slashes_escaped(s: Seq<char>) -> Seq<char>
    decreases s.len(),
{
    if s.len() == 0 {
        Seq::<char>::empty()
    } else {
        slashes_escaped(s.drop_last()) + slash_escape(s.last())
    }
}

/// A byte that percent-encoding leaves as it is: an ASCII letter or digit, or
/// one of `-`, `.`, `_` and `~`.
pub open spec fn is_unreserved(b: u8) -> bool {
    (0x30 <= b <= 0x39) || (0x41 <= b <= 0x5a) || (0x61 <= b <= 0x7a) || b == 0x2d || b == 0x2e
        || b == 0x5f || b == 0x7e
}

/// The upper-case hexadecimal digit for a value below sixteen.
pub open spec fn hex_digit(n: u8) -> char {
    if n < 10 {
        ((0x30 + n) as u8) as char
    } else {
        ((0x41 + n - 10) as u8) as char
    }
}

/// One byte in percent-encoded form.
pub open spec fn percent_escape(b: u8) -> Seq<char> {
    if is_unreserved(b) {
        seq![b as char]
    } else {
        seq!['%', hex_digit(b / 16), hex_digit(b % 16)]
    }
}

/// A sequence of bytes in percent-encoded form.
pub open spec fn percent_encoded(bytes: Seq<u8>) -> Seq<char>
    decreases bytes.len(),
{
    if bytes.len() == 0 {
        Seq::<char>::empty()
    } else {
        percent_escape(bytes[0]) + percent_encoded(bytes.drop_first())
    }
}

/// Percent-encodes `text` with `urlencoding::encode`: every byte of its UTF-8
/// form is kept if it is unreserved and is otherwise written as a percent
/// sign and two upper-case hexadecimal digits.
#[verifier::external_body]
pub(crate) fn percent_encode(text: &str) -> (out: String)
    ensures
        out@ == percent_encoded(text.spec_bytes()),
{
    urlencoding::encode(text).into_owned()
}

/// Takes the identifier of a file out of the path of a link.
pub fn file_id_from_path(path: &str) -> (r: Result<String, PixelDrainError>)
    ensures
        match file_id_in(path@) {
            Some(id) => r matches Ok(found) && found@ == id,
            None => r matches Err(PixelDrainError::InvalidUrl(m)) && m@ == no_file_id_message(),
        },
{
    proof {
        reveal_strlit("/u/");
        reveal_strlit("/api/file/");
    }
    let n: usize = path.unicode_len();
    if has_prefix(path, "/u/") {
        if n > 3 {
            return Ok(tail_from(path, 3));
        }
    } else if has_prefix(path, "/api/file/") {
        if n > 10 {
            return Ok(tail_from(path, 10));
        }
    }
    Err(PixelDrainError::InvalidUrl(String::from_str("Could not extract file ID from URL")))
}

/// What taking the identifier out of the link `url` gives: the identifier
/// that the path of the URL names; the refusal of a URL whose path names no
/// file; or, for a text that is no absolute URL, its refusal with the parser's
/// own message.
pub open spec fn extraction_of(url: Seq<char>, r: Result<String, PixelDrainError>) -> bool {
    match parsed_url_path(url) {
        Some(p) => match file_id_in(p) {
            Some(id) => r matches Ok(found) && found@ == id,
            None => r matches Err(PixelDrainError::InvalidUrl(m)) && m@ == no_file_id_message(),
        },
        None => r matches Err(PixelDrainError::InvalidUrl(m)) && m@ == url_parse_failure(url),
    }
}

/// Takes the identifier of a file out of a link. A text that is no absolute
/// URL is refused with the parser's own message; a URL whose path names no
/// file is refused too.
pub fn file_id_of_link(url: &str) -> (r: Result<String, PixelDrainError>)
    ensures
        extraction_of(url@, r),
{
    match parse_url_path(url) {
        Ok(path) => file_id_from_path(path.as_str()),
        Err(message) => Err(PixelDrainError::InvalidUrl(message)),
    }
}

/// The link under which the file `id` is shown.
pub fn link_to_file(id: &str) -> (url: String)
    ensures
        url@ == file_link(id@),
{
    String::from_str(BASE_URL).concat("/u/").concat(id)
}

/// Replaces every slash in `path` by `%2F`.
pub fn escape_slashes(path: &str) -> (out: String)
    ensures
        out@ == slashes_escaped(path@),
{
    let n: usize = path.unicode_len();
    let mut out: String = String::new();
    let mut i: usize = 0;
    while i < n
        invariant
            n == path@.len(),
            i <= n,
            out@ == slashes_escaped(path@.subrange(0, i as int)),
        decreases n - i,
    {
        let c: char = path.get_char(i);
        proof {
            let next = path@.subrange(0, i + 1);
            assert(next.drop_last() == path@.subrange(0, i as int));
        }
        if c == '/' {
            out.append("%2F");
        } else {
            let piece: &str = path.substring_char(i, i + 1);
            out.append(piece);
        }
        i = i + 1;
    }
    assert(path@.subrange(0, n as int) == path@);
    out
}

} // verus!
