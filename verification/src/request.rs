//! HTTP requests as plain values: what to send, not how.
use vstd::prelude::*;
use crate::json::Json;
use crate::text::{push_decimal, push_signed_decimal, decimal, signed_decimal};

verus! {

pub enum Method {
    Get,
    Post,
}

pub enum Body {
    Empty,
    /// A form-encoded body, already encoded.
    Form(String),
    /// A JSON document.
    Json(Json),
}

/// One HTTP request.
pub struct Request {
    pub method: Method,
    pub url: String,
    /// Header names and values, in order.
    pub headers: Vec<(String, String)>,
    pub body: Body,
}

/// The views of header pairs.
pub open spec fn headers_view(h: Seq<(String, String)>) -> Seq<(Seq<char>, Seq<char>)> {
    h.map_values(|p: (String, String)| (p.0@, p.1@))
}

/// `r` is a request with this method, url, headers and form body (none where `form` is `None`).
pub open spec fn request_is(
    r: Request,
    method: Method,
    url: Seq<char>,
    headers: Seq<(Seq<char>, Seq<char>)>,
    form: Option<Seq<char>>,
) -> bool {
    &&& r.method == method
    &&& r.url@ == url
    &&& headers_view(r.headers@) == headers
    &&& match form {
        Some(f) => r.body matches Body::Form(s) && s@ == f,
        None => r.body is Empty,
    }
}

pub open spec fn accept_json() -> Seq<char> {
    "application/json, text/javascript, */*; q=0.01"@
}

pub open spec fn accept_language() -> Seq<char> {
    "zh-CN,zh;q=0.9,en;q=0.8"@
}

pub open spec fn user_agent() -> Seq<char> {
    "Mozilla/5.0 (Macintosh; Intel Mac OS X 10_15_7) AppleWebKit/537.36 (KHTML, like Gecko) Chrome/125.0.0.0 Safari/537.36"@
}

/// Headers of the requests for draw results and for predictions.
pub open spec fn listing_headers(referer: Seq<char>) -> Seq<(Seq<char>, Seq<char>)> {
    seq![
        ("Accept"@, accept_json()),
        ("Accept-Language"@, accept_language()),
        ("Proxy-Connection"@, "keep-alive"@),
        ("Referer"@, referer),
        ("User-Agent"@, user_agent()),
        ("X-Requested-With"@, "XMLHttpRequest"@),
    ]
}

/// Headers of the request for the next draw.
pub open spec fn next_headers(referer: Seq<char>) -> Seq<(Seq<char>, Seq<char>)> {
    seq![
        ("Accept"@, accept_json()),
        ("Accept-Language"@, accept_language()),
        ("Connection"@, "keep-alive"@),
        ("Referer"@, referer),
        ("User-Agent"@, user_agent()),
        ("X-Requested-With"@, "XMLHttpRequest"@),
    ]
}

/// Headers of the request that asks whether a draw is open.
pub open spec fn check_headers(origin: Seq<char>, referer: Seq<char>) -> Seq<(Seq<char>, Seq<char>)> {
    seq![
        ("Accept"@, "*/*"@),
        ("Accept-Language"@, accept_language()),
        ("Content-Type"@, "application/x-www-form-urlencoded; charset=UTF-8"@),
        ("Origin"@, origin),
        ("Proxy-Connection"@, "keep-alive"@),
        ("Referer"@, referer),
        ("User-Agent"@, user_agent()),
        ("X-Requested-With"@, "XMLHttpRequest"@),
    ]
}

/// Url of the latest draw results.
pub open spec fn results_url(base: Seq<char>, page_size: i32) -> Seq<char> {
    base + "/Mobile/Indexs/myOpens/type/2/pz/"@ + signed_decimal(page_size as int) + "/page/1"@
}

/// Url of the latest predictions.
pub open spec fn predictions_url(base: Seq<char>, page_size: i32) -> Seq<char> {
    base + "/Mobile/Indexs/yuce/type/2/pz/"@ + signed_decimal(page_size as int) + "/1"@
}

/// Url of the next draw's time.
pub open spec fn next_url(base: Seq<char>) -> Seq<char> {
    base + "/Mobile/Indexs/next/type/2"@
}

/// Url that tells whether a draw is open.
pub open spec fn open_url(base: Seq<char>) -> Seq<char> {
    base + "/Mobile/Indexs/open/type/2"@
}

/// The form body that names a draw.
pub open spec fn section_form(section: u64) -> Seq<char> {
    "section="@ + decimal(section as nat)
}

/// A header pair.
pub fn header(name: &str, value: &str) -> (h: (String, String))
    ensures
        h.0@ == name@,
        h.1@ == value@,
{
    (String::from_str(name), String::from_str(value))
}

/// The request for the latest draw results.
pub fn results_request(base: &String, referer: &String, page_size: i32) -> (r: Request)
    ensures
        request_is(r, Method::Get, results_url(base@, page_size), listing_headers(referer@), None),
{
    let mut url = base.clone();
    url.append("/Mobile/Indexs/myOpens/type/2/pz/");
    push_signed_decimal(&mut url, page_size as i64);
    url.append("/page/1");
    let headers = listing_header_list(referer);
    Request { method: Method::Get, url, headers, body: Body::Empty }
}

/// The request for the latest predictions.
pub fn predictions_request(base: &String, referer: &String, page_size: i32) -> (r: Request)
    ensures
        request_is(r, Method::Get, predictions_url(base@, page_size), listing_headers(referer@), None),
{
    let mut url = base.clone();
    url.append("/Mobile/Indexs/yuce/type/2/pz/");
    push_signed_decimal(&mut url, page_size as i64);
    url.append("/1");
    let headers = listing_header_list(referer);
    Request { method: Method::Get, url, headers, body: Body::Empty }
}

fn listing_header_list(referer: &String) -> (h: Vec<(String, String)>)
    ensures
        headers_view(h@) == listing_headers(referer@),
{
    let h = vec![
        header("Accept", "application/json, text/javascript, */*; q=0.01"),
        header("Accept-Language", "zh-CN,zh;q=0.9,en;q=0.8"),
        header("Proxy-Connection", "keep-alive"),
        (String::from_str("Referer"), referer.clone()),
        header("User-Agent", "Mozilla/5.0 (Macintosh; Intel Mac OS X 10_15_7) AppleWebKit/537.36 (KHTML, like Gecko) Chrome/125.0.0.0 Safari/537.36"),
        header("X-Requested-With", "XMLHttpRequest"),
    ];
    assert(headers_view(h@) =~= listing_headers(referer@));
    h
}

/// The request for the next draw's time.
pub fn next_request(base: &String, referer: &String) -> (r: Request)
    ensures
        request_is(r, Method::Get, next_url(base@), next_headers(referer@), None),
{
    let mut url = base.clone();
    url.append("/Mobile/Indexs/next/type/2");
    let headers = vec![
        header("Accept", "application/json, text/javascript, */*; q=0.01"),
        header("Accept-Language", "zh-CN,zh;q=0.9,en;q=0.8"),
        header("Connection", "keep-alive"),
        (String::from_str("Referer"), referer.clone()),
        header("User-Agent", "Mozilla/5.0 (Macintosh; Intel Mac OS X 10_15_7) AppleWebKit/537.36 (KHTML, like Gecko) Chrome/125.0.0.0 Safari/537.36"),
        header("X-Requested-With", "XMLHttpRequest"),
    ];
    assert(headers_view(headers@) =~= next_headers(referer@));
    Request { method: Method::Get, url, headers, body: Body::Empty }
}

/// The request that asks whether draw `section` is open.
pub fn open_request(base: &String, origin: &String, referer: &String, section: u64) -> (r: Request)
    ensures
        request_is(r, Method::Post, open_url(base@), check_headers(origin@, referer@), Some(section_form(section))),
{
    let mut url = base.clone();
    url.append("/Mobile/Indexs/open/type/2");
    let headers = vec![
        header("Accept", "*/*"),
        header("Accept-Language", "zh-CN,zh;q=0.9,en;q=0.8"),
        header("Content-Type", "application/x-www-form-urlencoded; charset=UTF-8"),
        (String::from_str("Origin"), origin.clone()),
        header("Proxy-Connection", "keep-alive"),
        (String::from_str("Referer"), referer.clone()),
        header("User-Agent", "Mozilla/5.0 (Macintosh; Intel Mac OS X 10_15_7) AppleWebKit/537.36 (KHTML, like Gecko) Chrome/125.0.0.0 Safari/537.36"),
        header("X-Requested-With", "XMLHttpRequest"),
    ];
    assert(headers_view(headers@) =~= check_headers(origin@, referer@));
    let mut form = String::from_str("section=");
    push_decimal(&mut form, section);
    Request { method: Method::Post, url, headers, body: Body::Form(form) }
}

} // verus!
