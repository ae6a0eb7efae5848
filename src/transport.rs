use reqwest::Request as HttpRequest;
use vstd::prelude::*;

verus! {

#[verifier::external_type_specification]
#[verifier::external_body]
pub struct ExClient(reqwest::Client);

#[verifier::external_type_specification]
#[verifier::external_body]
pub struct ExHttpRequest(HttpRequest);

#[verifier::external_type_specification]
#[verifier::external_body]
pub struct ExError(reqwest::Error);

#[verifier::external_type_specification]
#[verifier::external_body]
pub struct ExMethod(reqwest::Method);

#[verifier::external_type_specification]
#[verifier::external_body]
pub struct ExHeaderName(reqwest::header::HeaderName);

#[verifier::external_type_specification]
#[verifier::external_body]
pub struct ExHeaderValue(reqwest::header::HeaderValue);

/// The characters HTTP allows in a token (RFC 9110, section 5.6.2).
pub open spec fn is_tchar(c: char) -> bool {
    ('0' <= c && c <= '9') || ('a' <= c && c <= 'z') || ('A' <= c && c <= 'Z') || c == '!'
        || c == '#' || c == '$' || c == '%' || c == '&' || c == '\'' || c == '*' || c == '+'
        || c == '-' || c == '.' || c == '^' || c == '_' || c == '`' || c == '|' || c == '~'
}

/// A non-empty run of token characters.
pub open spec fn is_token(s: Seq<char>) -> bool {
    s.len() > 0 && forall|i: int| 0 <= i < s.len() ==> is_tchar(#[trigger] s[i])
}

/// Longest header name that is accepted, in bytes.
pub const MAX_HEADER_NAME_LEN: usize = 65535;

/// A header name: a token of at most `MAX_HEADER_NAME_LEN` characters
/// (token characters are ASCII, one byte each).
pub open spec fn is_header_name(s: Seq<char>) -> bool {
    is_token(s) && s.len() <= MAX_HEADER_NAME_LEN
}

/// A character allowed in a header value: tab, or any but the control
/// characters below space and DEL (bytes of non-ASCII characters are all
/// at least 128, and accepted).
pub open spec fn is_header_value_char(c: char) -> bool {
    c == '\t' || (c as u32 >= 32 && c as u32 != 127)
}

pub open spec fn is_header_value(s: Seq<char>) -> bool {
    forall|i: int| 0 <= i < s.len() ==> is_header_value_char(#[trigger] s[i])
}

/// Most header pairs that a request is given. The header map has at most
/// 2^15 slots and, when its names collide, grows once a fifth of its slots
/// hold entries: beyond 6553 distinct names it may have to grow past that
/// cap, and panics.
pub const MAX_HEADERS: usize = 6553;

/// Relies on http::Method::from_bytes (re-exported by reqwest): it accepts
/// exactly the non-empty strings of token characters.
#[verifier::external_body]
pub(crate) fn parse_method(s: &str) -> (r: Option<reqwest::Method>)
    ensures
        r.is_some() <==> is_token(s@),
{
    reqwest::Method::from_bytes(s.as_bytes()).ok()
}

/// Relies on http::header::HeaderName::from_bytes: it accepts exactly the
/// tokens of 1 to 65535 bytes (upper case letters are lowered).
#[verifier::external_body]
pub(crate) fn parse_header_name(s: &str) -> (r: Option<reqwest::header::HeaderName>)
    ensures
        r.is_some() <==> is_header_name(s@),
{
    reqwest::header::HeaderName::from_bytes(s.as_bytes()).ok()
}

/// Relies on http::header::HeaderValue::from_str: it accepts exactly the
/// strings whose bytes are all tab, or at least 32 and not 127.
#[verifier::external_body]
pub(crate) fn parse_header_value(s: &str) -> (r: Option<reqwest::header::HeaderValue>)
    ensures
        r.is_some() <==> is_header_value(s@),
{
    reqwest::header::HeaderValue::from_str(s).ok()
}

/// Relies on reqwest's ClientBuilder with `connect_timeout` and `build`.
#[verifier::external_body]
pub(crate) fn build_client(timeout_ms: u64) -> (r: Result<reqwest::Client, reqwest::Error>) {
    reqwest::ClientBuilder::new().connect_timeout(std::time::Duration::from_millis(timeout_ms)).build()
}

/// Whether reqwest takes this text as a request URL: `Url::parse` accepts it
/// and the parsed URL has a host.
pub uninterp spec fn url_accepted(url: Seq<char>) -> bool;

/// Relies on reqwest's `Client::request`, `RequestBuilder::headers`, `body`
/// and `build`; the header pairs are appended in order to a header map
/// (`HeaderMap::from_iter`), which panics beyond its capacity, hence the bound.
/// The builder fails only when the URL is refused (`IntoUrl` for `&str`);
/// the headers, body and the basic-auth header drawn from credentials in the
/// URL never fail.
#[verifier::external_body]
pub(crate) fn build_request(
    client: &reqwest::Client,
    method: reqwest::Method,
    url: &str,
    headers: Vec<(reqwest::header::HeaderName, reqwest::header::HeaderValue)>,
    body: String,
) -> (r: Result<HttpRequest, reqwest::Error>)
    requires
        headers@.len() <= MAX_HEADERS,
    ensures
        r is Ok <==> url_accepted(url@),
{
    client.request(method, url).headers(headers.into_iter().collect()).body(body).build()
}

} // verus!
