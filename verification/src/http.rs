//! The HTTP source: its version is the text of the `Last-Modified` header,
//! a conditional fetch sends that text as `If-Modified-Since`, and the
//! response's status decides what the fetch returns.
//!
//! Sending the request is the caller's part. The status code, the header's
//! bytes and the response itself, as an opaque payload, come in as
//! arguments. The same source serves a blocking and a non-blocking client.

use vstd::prelude::*;
use vstd::string::*;
use crate::error::CacheError;
use crate::error::ErrorKind;

verus! {

/// The status that answers a conditional request with "not modified".
pub const NOT_MODIFIED: u16 = 304;

/// The name of the header that carries the version.
pub const VERSION_HEADER: &'static str = "Last-Modified";

/// The name of the header that a conditional request carries.
pub const CONDITION_HEADER: &'static str = "If-Modified-Since";

/// Whether a status code stands for success: 200 to 299.
pub open spec fn is_success(status: u16) -> bool {
    200 <= status < 300
}

/// The character of a decimal digit.
pub open spec fn digit(d: u16) -> char {
    if d == 0 {
        '0'
    } else if d == 1 {
        '1'
    } else if d == 2 {
        '2'
    } else if d == 3 {
        '3'
    } else if d == 4 {
        '4'
    } else if d == 5 {
        '5'
    } else if d == 6 {
        '6'
    } else if d == 7 {
        '7'
    } else if d == 8 {
        '8'
    } else {
        '9'
    }
}

/// The three digits of a status code between 100 and 999; the empty text for
/// a number that is no status code.
pub open spec fn status_digits(status: u16) -> Seq<char> {
    if 100 <= status < 1000 {
        seq![digit(status / 100), digit((status / 10) % 10), digit(status % 10)]
    } else {
        Seq::empty()
    }
}

/// Whether a byte is one that a header value shows as text: a visible ASCII
/// character, a space or a tab.
pub open spec fn is_visible(b: u8) -> bool {
    (32 <= b && b < 127) || b == 9
}

/// The bytes of a header value read as ASCII text.
pub open spec fn header_chars(bytes: Seq<u8>) -> Seq<char> {
    Seq::new(bytes.len(), |i: int| bytes[i] as char)
}

/// The version that a header value gives: its text, where every byte of it
/// is visible.
pub open spec fn header_version(bytes: Seq<u8>) -> Option<Seq<char>> {
    if forall|i: int| 0 <= i < bytes.len() ==> is_visible(#[trigger] bytes[i]) {
        Some(header_chars(bytes))
    } else {
        None
    }
}

/// The version that a response gives: that of its `Last-Modified` header,
/// where it has one.
pub open spec fn response_version(last_modified: Option<&[u8]>) -> Option<Seq<char>> {
    match last_modified {
        Some(bytes) => header_version(bytes@),
        None => None,
    }
}

/// The text of a version, if there is one.
pub open spec fn text_of(version: Option<String>) -> Option<Seq<char>> {
    match version {
        Some(text) => Some(text@),
        None => None,
    }
}

/// The message of the error for a response with this status.
pub open spec fn failure_message(status: u16) -> Seq<char> {
    "Fetch failed. Status: "@ + status_digits(status)
}

/// Calls `reqwest::StatusCode::from_u16` and then `is_success` on the code
/// it gives. The first accepts the numbers from 100 to 999, the second holds
/// from 200 to 299; a number that is refused counts as no success.
#[verifier::external_body]
fn status_is_success(status: u16) -> (r: bool)
    ensures
        r == is_success(status),
{
    match reqwest::StatusCode::from_u16(status) {
        Ok(code) => code.is_success(),
        Err(_) => false,
    }
}

/// Calls `reqwest::StatusCode::from_u16` and then `as_str` on the code it
/// gives, which is the code in three decimal digits. A number that is
/// refused, below 100 or above 999, gives the empty text.
#[verifier::external_body]
fn status_text(status: u16) -> (r: String)
    ensures
        r@ == status_digits(status),
{
    match reqwest::StatusCode::from_u16(status) {
        Ok(code) => String::from(code.as_str()),
        Err(_) => String::new(),
    }
}

/// Calls `reqwest::header::HeaderValue::from_bytes` and then `to_str` on the
/// value it gives. The first refuses control bytes other than the tab, the
/// second gives the bytes as text where each is a visible ASCII character, a
/// space or a tab, and fails otherwise. A failure of either gives `None`.
#[verifier::external_body]
fn header_text(bytes: &[u8]) -> (r: Option<String>)
    ensures
        r.is_some() == header_version(bytes@).is_some(),
        r matches Some(text) ==> text@ == header_chars(bytes@),
{
    match reqwest::header::HeaderValue::from_bytes(bytes) {
        Ok(value) => match value.to_str() {
            Ok(text) => Some(String::from(text)),
            Err(_) => None,
        },
        Err(_) => None,
    }
}

/// A source that reads one URL through a client of type `Cl`.
pub struct HttpConfigSource<Cl> {
    client: Cl,
    url: String,
}

impl<Cl> HttpConfigSource<Cl> {
    /// The client that requests go through.
    pub closed spec fn spec_client(&self) -> Cl {
        self.client
    }

    /// The URL that this source reads.
    pub closed spec fn spec_url(&self) -> Seq<char> {
        self.url@
    }

    /// A source for `url`, read through `client`.
    pub fn new(client: Cl, url: String) -> (r: HttpConfigSource<Cl>)
        ensures
            r.spec_client() == client,
            r.spec_url() == url@,
    {
        HttpConfigSource { client, url }
    }

    /// The client that requests go through.
    pub fn client(&self) -> (r: &Cl)
        ensures
            *r == self.spec_client(),
    {
        &self.client
    }

    /// The URL that this source reads.
    pub fn url(&self) -> (r: &String)
        ensures
            r@ == self.spec_url(),
    {
        &self.url
    }

    /// The version of a response whose `Last-Modified` header holds
    /// `last_modified`: the header's text, or none where the header is
    /// missing or is no visible ASCII text.
    pub fn get_version(last_modified: Option<&[u8]>) -> (r: Option<String>)
        ensures
            text_of(r) == response_version(last_modified),
    {
        match last_modified {
            Some(bytes) => header_text(bytes),
            None => None,
        }
    }

    /// The unconditional fetch, from a response with this status and header:
    /// the response with its version for a status from 200 to 299, a fetch
    /// error that names the status for any other.
    pub fn fetch<S>(&self, status: u16, last_modified: Option<&[u8]>, response: S) -> (r: Result<
        (Option<String>, S),
        CacheError,
    >)
        ensures
            r.is_ok() == is_success(status),
            r matches Ok(v) ==> v.1 == response && text_of(v.0) == response_version(
                last_modified,
            ),
            r matches Err(e) ==> e.kind == ErrorKind::Fetch && e.message@ == failure_message(
                status,
            ),
    {
        if status_is_success(status) {
            Ok((Self::get_version(last_modified), response))
        } else {
            Err(status_failure(status))
        }
    }

    /// The fetch that is conditional on a version, from the response to a
    /// request that carried the version as `If-Modified-Since`: the response
    /// with its version for a status from 200 to 299; `None`, not modified,
    /// for status 304; a fetch error that names the status for any other.
    pub fn fetch_if_newer<S>(
        &self,
        status: u16,
        last_modified: Option<&[u8]>,
        response: S,
    ) -> (r: Result<Option<(Option<String>, S)>, CacheError>)
        ensures
            r.is_ok() == (is_success(status) || status == NOT_MODIFIED),
            r matches Ok(o) ==> o.is_some() == is_success(status),
            r matches Ok(Some(v)) ==> v.1 == response && text_of(v.0) == response_version(
                last_modified,
            ),
            r matches Err(e) ==> e.kind == ErrorKind::Fetch && e.message@ == failure_message(
                status,
            ),
    {
        if status_is_success(status) {
            Ok(Some((Self::get_version(last_modified), response)))
        } else if status == NOT_MODIFIED {
            Ok(None)
        } else {
            Err(status_failure(status))
        }
    }
}

/// The fetch error for a response with this status.
pub fn status_failure(status: u16) -> (r: CacheError)
    ensures
        r.kind == ErrorKind::Fetch,
        r.message@ == failure_message(status),
{
    let digits = status_text(status);
    CacheError::fetch(String::from_str("Fetch failed. Status: ").concat(digits.as_str()))
}

} // verus!
