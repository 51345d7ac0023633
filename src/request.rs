//! The requests that the client plans: method, URL, headers and JSON body.
use vstd::prelude::*;
use vstd::string::StringExecFns;
use vstd::utf8::encode_utf8;
use crate::json::Json;

verus! {

#[derive(Clone, Copy, Debug, PartialEq, Eq, Structural)]
pub enum Method {
    Get,
    Post,
    Put,
    Patch,
    Delete,
}

#[derive(Clone, Debug, PartialEq)]
pub struct Header {
    pub name: String,
    pub value: String,
}

/// One HTTP request, ready to be sent.
#[derive(Debug)]
pub struct Request {
    pub method: Method,
    pub url: String,
    pub headers: Vec<Header>,
    pub body: Option<Json>,
}

/// The address that every endpoint path is appended to.
pub open spec fn base_url() -> Seq<char> {
    "https://croissant-api.fr/api"@
}

pub open spec fn header_is(h: Header, name: Seq<char>, value: Seq<char>) -> bool {
    h.name@ == name && h.value@ == value
}

/// `req` is a `method` request on `path` under the base address. It carries
/// `Authorization: Bearer <token>` exactly when `token` is given, then
/// `Content-Type: application/json` exactly when it has a body.
pub open spec fn planned(
    req: Request,
    method: Method,
    path: Seq<char>,
    token: Option<Seq<char>>,
) -> bool {
    let auth_headers: int = if token is Some { 1 } else { 0 };
    let body_headers: int = if req.body is Some { 1 } else { 0 };
    &&& req.method == method
    &&& req.url@ == base_url() + path
    &&& req.headers@.len() == auth_headers + body_headers
    &&& token matches Some(t) ==> header_is(req.headers@[0], "Authorization"@, "Bearer "@ + t)
    &&& req.body is Some ==> header_is(req.headers@.last(), "Content-Type"@, "application/json"@)
}

/// Builds the request for `method` on `path`, with the bearer token when one is given.
pub fn build_request(
    method: Method,
    path: &str,
    token: Option<&String>,
    body: Option<Json>,
) -> (r: Request)
    ensures
        planned(r, method, path@, match token { Some(t) => Some(t@), None => None }),
        r.body == body,
{
    let mut url = String::from_str("https://croissant-api.fr/api");
    url.append(path);
    let mut headers: Vec<Header> = Vec::new();
    match token {
        Some(t) => {
            let mut value = String::from_str("Bearer ");
            value.append(t.as_str());
            headers.push(Header { name: String::from_str("Authorization"), value });
        },
        None => {},
    }
    if body.is_some() {
        headers.push(
            Header {
                name: String::from_str("Content-Type"),
                value: String::from_str("application/json"),
            },
        );
    }
    Request { method, url, headers, body }
}

/// Bytes that a URL query keeps as they are: ASCII letters and digits, `-`, `.`, `_`, `~`.
pub open spec fn unreserved(b: u8) -> bool {
    (48 <= b <= 57) || (65 <= b <= 90) || (97 <= b <= 122) || b == 45 || b == 46 || b == 95 || b == 126
}

/// An upper-case hexadecimal digit.
pub open spec fn hex_digit(n: u8) -> char {
    if n < 10 {
        (n + 48) as u8 as char
    } else {
        (n + 55) as u8 as char
    }
}

/// Percent-encoding of a byte string: each byte that is not unreserved
/// becomes `%` and its two hexadecimal digits.
pub open spec fn percent_encoded(bytes: Seq<u8>) -> Seq<char>
    decreases bytes.len(),
{
    if bytes.len() == 0 {
        seq![]
    } else {
        let b = bytes[0];
        let head = if unreserved(b) {
            seq![b as char]
        } else {
            seq!['%', hex_digit(b / 16), hex_digit(b % 16)]
        };
        head + percent_encoded(bytes.drop_first())
    }
}

/// Relies on `urlencoding::encode`: it percent-encodes every UTF-8 byte of the
/// text except ASCII letters, digits and `-`, `.`, `_`, `~`, with upper-case
/// hexadecimal digits.
#[verifier::external_body]
fn url_encode(s: &str) -> (r: String)
    ensures
        r@ == percent_encoded(encode_utf8(s@)),
{
    urlencoding::encode(s).into_owned()
}

/// The path of a query endpoint: `prefix` followed by the encoded search text.
pub fn query_path(prefix: &str, query: &str) -> (r: String)
    ensures
        r@ == prefix@ + percent_encoded(encode_utf8(query@)),
{
    let mut path = String::from_str(prefix);
    let q = url_encode(query);
    path.append(q.as_str());
    path
}

} // verus!
