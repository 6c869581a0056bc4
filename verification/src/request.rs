//! Authenticated HTTP requests to the Keep API, as plain values that the
//! component's host sends.
use vstd::prelude::*;
use vstd::string::*;

verus! {

/// The HTTP methods that the Keep API calls use.
#[derive(Debug, Clone, Copy, PartialEq, Eq)]
pub enum Method {
    Get,
    Post,
    Patch,
    Delete,
}

/// An HTTP request: method, URI, headers in order, and an optional body.
#[derive(Debug)]
pub struct Request {
    pub method: Method,
    pub uri: String,
    pub headers: Vec<(String, String)>,
    pub body: Option<String>,
}

/// The headers of a request, as character sequences.
pub open spec fn header_views(headers: Seq<(String, String)>) -> Seq<(Seq<char>, Seq<char>)> {
    headers.map_values(|h: (String, String)| (h.0@, h.1@))
}

/// The bearer-token value of the `Authorization` header.
pub open spec fn bearer(token: Seq<char>) -> Seq<char> {
    "Bearer "@ + token
}

/// The headers of a request without a body: the token only.
pub open spec fn auth_headers(token: Seq<char>) -> Seq<(Seq<char>, Seq<char>)> {
    seq![("Authorization"@, bearer(token))]
}

/// The headers of a request with a JSON body: the token, then the content type.
pub open spec fn json_headers(token: Seq<char>) -> Seq<(Seq<char>, Seq<char>)> {
    seq![("Authorization"@, bearer(token)), ("Content-Type"@, "application/json"@)]
}

/// What a request amounts to: method, URI, headers and body, as plain values.
pub open spec fn request_is(
    r: Request,
    method: Method,
    uri: Seq<char>,
    headers: Seq<(Seq<char>, Seq<char>)>,
    body: Option<Seq<char>>,
) -> bool {
    &&& r.method == method
    &&& r.uri@ == uri
    &&& header_views(r.headers@) == headers
    &&& match r.body {
        Some(b) => body == Some(b@),
        None => body is None,
    }
}

fn authorization_header(token: &str) -> (h: (String, String))
    ensures
        h.0@ == "Authorization"@,
        h.1@ == bearer(token@),
{
    let mut value = String::from_str("Bearer ");
    value.append(token);
    (String::from_str("Authorization"), value)
}

fn json_content_type_header() -> (h: (String, String))
    ensures
        h.0@ == "Content-Type"@,
        h.1@ == "application/json"@,
{
    (String::from_str("Content-Type"), String::from_str("application/json"))
}

fn request_with(method: Method, url: &str, token: &str, body: Option<&str>) -> (r: Request)
    ensures
        request_is(
            r,
            method,
            url@,
            if body is Some {
                json_headers(token@)
            } else {
                auth_headers(token@)
            },
            match body {
                Some(b) => Some(b@),
                None => None,
            },
        ),
{
    let mut headers: Vec<(String, String)> = Vec::new();
    headers.push(authorization_header(token));
    let body = match body {
        Some(b) => {
            headers.push(json_content_type_header());
            Some(String::from_str(b))
        },
        None => None,
    };
    let r = Request { method, uri: String::from_str(url), headers, body };
    assert(header_views(r.headers@) =~= (if body is Some {
        json_headers(token@)
    } else {
        auth_headers(token@)
    }));
    r
}

/// A `GET` of `url` carrying the bearer token.
pub fn auth_get(url: &str, token: &str) -> (r: Request)
    ensures
        request_is(r, Method::Get, url@, auth_headers(token@), None),
{
    request_with(Method::Get, url, token, None)
}

/// A `POST` of the JSON text `body` to `url`, carrying the bearer token.
pub fn auth_post(url: &str, token: &str, body: &str) -> (r: Request)
    ensures
        request_is(r, Method::Post, url@, json_headers(token@), Some(body@)),
{
    request_with(Method::Post, url, token, Some(body))
}

/// A `PATCH` of `url` with the JSON text `body`, carrying the bearer token.
pub fn auth_patch(url: &str, token: &str, body: &str) -> (r: Request)
    ensures
        request_is(r, Method::Patch, url@, json_headers(token@), Some(body@)),
{
    request_with(Method::Patch, url, token, Some(body))
}

/// A `DELETE` of `url` carrying the bearer token.
pub fn auth_delete(url: &str, token: &str) -> (r: Request)
    ensures
        request_is(r, Method::Delete, url@, auth_headers(token@), None),
{
    request_with(Method::Delete, url, token, None)
}

} // verus!
