//! Requests, responses and the clients that exchange them.

use vstd::prelude::*;
use vstd::string::*;
use crate::api::error::ApiError;
use crate::text::str_eq;
use crate::urls::Pair;

verus! {

/// The method of an HTTP request.
#[derive(Debug, Clone, Copy, PartialEq, Eq, Structural, Hash)]
pub enum Method {
    Get,
    Post,
    Put,
    Delete,
    Patch,
    Head,
    Options,
}

impl Method {
    /// The name of the method as it is written in a request.
    pub fn as_str(&self) -> (r: &'static str)
        ensures
            *self is Get ==> r@ == "GET"@,
            *self is Post ==> r@ == "POST"@,
            *self is Put ==> r@ == "PUT"@,
            *self is Delete ==> r@ == "DELETE"@,
            *self is Patch ==> r@ == "PATCH"@,
            *self is Head ==> r@ == "HEAD"@,
            *self is Options ==> r@ == "OPTIONS"@,
    {
        match self {
            Method::Get => "GET",
            Method::Post => "POST",
            Method::Put => "PUT",
            Method::Delete => "DELETE",
            Method::Patch => "PATCH",
            Method::Head => "HEAD",
            Method::Options => "OPTIONS",
        }
    }

    /// Whether a request with this method always states the length of its
    /// body.
    pub open spec fn sends_length(self) -> bool {
        self is Post || self is Put
    }
}

/// The status `200 OK`.
pub const OK: u16 = 200;

/// The status `301 Moved Permanently`.
pub const MOVED_PERMANENTLY: u16 = 301;

/// The status `404 Not Found`.
pub const NOT_FOUND: u16 = 404;

/// Whether `status` is within 200-299.
pub open spec fn is_success(status: u16) -> bool {
    200 <= status < 300
}

/// Whether `status` is within 200-299.
pub fn status_is_success(status: u16) -> (r: bool)
    ensures
        r == is_success(status),
{
    200 <= status && status < 300
}

/// The views of a list of headers.
pub open spec fn headers_view(headers: Seq<(String, String)>) -> Seq<Pair> {
    headers.map_values(|h: (String, String)| (h.0@, h.1@))
}

/// The value of the first of `headers`, at or after `from`, that is named
/// `name`.
pub open spec fn header_from(headers: Seq<Pair>, name: Seq<char>, from: int) -> Option<Seq<char>>
    decreases headers.len() - from,
{
    if from < 0 || from >= headers.len() {
        None
    } else if headers[from].0 == name {
        Some(headers[from].1)
    } else {
        header_from(headers, name, from + 1)
    }
}

/// The value of the first of `headers` that is named `name`.
pub open spec fn header_value(headers: Seq<Pair>, name: Seq<char>) -> Option<Seq<char>> {
    header_from(headers, name, 0)
}

/// The value of the first of `headers` that is named `name`.
pub fn find_header<'a>(headers: &'a Vec<(String, String)>, name: &str) -> (r: Option<&'a str>)
    ensures
        r is Some <==> header_value(headers_view(headers@), name@) is Some,
        r matches Some(v) ==> Some(v@) == header_value(headers_view(headers@), name@),
{
    let mut i: usize = 0;
    while i < headers.len()
        invariant
            i <= headers.len(),
            header_value(headers_view(headers@), name@) == header_from(headers_view(headers@), name@, i as int),
        decreases headers.len() - i,
    {
        if str_eq(headers[i].0.as_str(), name) {
            return Some(headers[i].1.as_str());
        }
        i += 1;
    }
    None
}

/// Whether the header named `name` carries a secret: the `authorization`
/// header does. Such a header is marked sensitive when it is handed to the
/// transport, and is never logged.
pub open spec fn is_sensitive(name: Seq<char>) -> bool {
    name == "authorization"@
}

/// Whether the header named `name` carries a secret.
pub fn is_sensitive_header(name: &str) -> (r: bool)
    ensures
        r == is_sensitive(name@),
{
    str_eq(name, "authorization")
}

/// An HTTP request, before the client adds its authorization.
#[derive(Debug)]
pub struct Request {
    /// The method.
    pub method: Method,
    /// The full URL, query included.
    pub url: url::Url,
    /// The headers, in order. Names are in lower case.
    pub headers: Vec<(String, String)>,
    /// The body; empty where there is none.
    pub body: Vec<u8>,
}

/// An HTTP response, whatever the transport that brought it.
#[derive(Debug, Clone)]
pub struct Response {
    /// The status code.
    pub status: u16,
    /// The headers, in order. Names are in lower case.
    pub headers: Vec<(String, String)>,
    /// The body.
    pub body: Vec<u8>,
}

impl Response {
    /// A response with a status and a body, and no headers.
    pub fn new(status: u16, body: Vec<u8>) -> (r: Self)
        ensures
            r.status == status,
            r.headers@.len() == 0,
            r.body == body,
    {
        Response { status, headers: Vec::new(), body }
    }

    /// The value of the `location` header, if there is one.
    pub open spec fn spec_location(&self) -> Option<Seq<char>> {
        header_value(headers_view(self.headers@), "location"@)
    }

    /// The value of the `location` header, if there is one.
    pub fn location(&self) -> (r: Option<&str>)
        ensures
            r is Some <==> self.spec_location() is Some,
            r matches Some(v) ==> Some(v@) == self.spec_location(),
    {
        find_header(&self.headers, "location")
    }
}

/// A trait representing a client which can communicate with the service.
pub trait RestClient {
    /// The errors which may occur for this client.
    type Error;

    /// Whether `result` is how this client may resolve the path `endpoint`.
    /// A client that says nothing of it may resolve a path to anything.
    open spec fn resolves(&self, endpoint: Seq<char>, result: Result<url::Url, ApiError<Self::Error>>) -> bool {
        true
    }

    /// Get the URL for the endpoint for the client.
    ///
    /// This method adds the hostname for the client's target instance.
    fn rest_endpoint(&self, endpoint: &str) -> (r: Result<url::Url, ApiError<Self::Error>>)
        ensures
            self.resolves(endpoint@, r),
    ;
}

/// A trait representing a client which can communicate with the service in
/// a blocking way.
pub trait Client: RestClient {
    /// Whether `result` is how this client may answer `request`. A client
    /// that says nothing of it may answer anything: such is a client that
    /// talks to the network.
    open spec fn answers(&self, request: Request, result: Result<Response, ApiError<Self::Error>>) -> bool {
        true
    }

    /// Send a REST query.
    fn rest(&self, request: Request) -> (r: Result<Response, ApiError<Self::Error>>)
        ensures
            self.answers(request, r),
    ;
}

} // verus!
