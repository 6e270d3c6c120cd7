//! Clients that answer from memory, and check each request against what a
//! test expects.

use vstd::prelude::*;
use vstd::string::*;
use vstd::utf8::*;
use crate::api::client::{headers_view, Client, Method, Request, Response, RestClient, OK};
use crate::api::error::ApiError;
use crate::api::query::extends;
use crate::json::{
    items_view, json_text, lemma_array_view, lemma_json_view, lemma_object_view, members_view, Json,
    JsonValue,
};
use crate::text::{
    concat, decimal, number_of, parse_usize, str_eq, strip_prefix, usize_to_string,
};
use crate::urls::{
    append_pair, find_value, first_value, fragment, host, normalized, pair_cost, pairs_cost,
    pairs_view, parse_url, query_pairs, scheme, url_as_str, url_fragment, url_host, url_pairs,
    url_path, url_path_string, url_scheme, url_text, Pair, MAX_URL_SIZE,
};

verus! {

/// Which expectation a request did not meet.
#[derive(Debug, Clone, Copy, PartialEq, Eq, Structural)]
pub enum TestClientError {
    /// The method is not the expected one.
    Method,
    /// The URL does not lead to the API: another scheme, another host, a
    /// port or a user, or a fragment.
    Origin,
    /// The path is not the expected one.
    Path,
    /// The query holds a pair that is not expected, or lacks one that is.
    Query,
    /// The body is not the expected one.
    Body,
    /// The content type is not the expected one.
    ContentType,
    /// The paging parameters are no numbers.
    Pagination,
    /// The answer could not be written.
    Answer,
}

/// What a test expects of the request that reaches the client, and the
/// status to answer it with.
#[derive(Debug)]
pub struct ExpectedUrl {
    pub method: Method,
    pub endpoint: &'static str,
    pub query: Vec<(String, String)>,
    pub content_type: Option<String>,
    pub body: Vec<u8>,
    pub status: u16,
    pub paginated: bool,
}

/// Why an [`ExpectedUrl`] could not be built.
#[derive(Debug, Clone, Copy, PartialEq, Eq, Structural)]
pub enum ExpectedUrlBuilderError {
    /// No endpoint was given.
    UninitializedField,
}

/// A builder for [`ExpectedUrl`]. Only the endpoint must be given: the
/// method defaults to `GET`, the status to 200, everything else to empty.
#[derive(Debug)]
pub struct ExpectedUrlBuilder {
    pub method: Option<Method>,
    pub endpoint: Option<&'static str>,
    pub query: Vec<(String, String)>,
    pub content_type: Option<String>,
    pub body: Vec<u8>,
    pub status: Option<u16>,
    pub paginated: bool,
}

fn copy_pairs(pairs: &Vec<(String, String)>) -> (r: Vec<(String, String)>)
    ensures
        pairs_view(r@) == pairs_view(pairs@),
{
    let mut out: Vec<(String, String)> = Vec::new();
    let mut i: usize = 0;
    while i < pairs.len()
        invariant
            i <= pairs.len(),
            pairs_view(out@) == pairs_view(pairs@).take(i as int),
        decreases pairs.len() - i,
    {
        let ghost before = pairs_view(out@);
        out.push((pairs[i].0.clone(), pairs[i].1.clone()));
        proof {
            assert(pairs_view(out@) =~= before.push((pairs@[i as int].0@, pairs@[i as int].1@)));
            assert(pairs_view(pairs@).take(i + 1) =~= pairs_view(pairs@).take(i as int).push(
                pairs_view(pairs@)[i as int],
            ));
        }
        i += 1;
    }
    proof {
        assert(pairs_view(pairs@).take(i as int) =~= pairs_view(pairs@));
    }
    out
}

fn copy_bytes(bytes: &Vec<u8>) -> (r: Vec<u8>)
    ensures
        r@ == bytes@,
{
    let mut out: Vec<u8> = Vec::new();
    let mut i: usize = 0;
    while i < bytes.len()
        invariant
            i <= bytes.len(),
            out@ == bytes@.take(i as int),
        decreases bytes.len() - i,
    {
        out.push(bytes[i]);
        proof {
            assert(bytes@.take(i + 1) =~= bytes@.take(i as int).push(bytes@[i as int]));
        }
        i += 1;
    }
    proof {
        assert(bytes@.take(i as int) =~= bytes@);
    }
    out
}

fn bytes_eq(a: &Vec<u8>, b: &Vec<u8>) -> (r: bool)
    ensures
        r == (a@ == b@),
{
    if a.len() != b.len() {
        return false;
    }
    let mut i: usize = 0;
    while i < a.len()
        invariant
            i <= a.len(),
            a.len() == b.len(),
            a@.take(i as int) == b@.take(i as int),
        decreases a.len() - i,
    {
        if a[i] != b[i] {
            return false;
        }
        proof {
            assert(a@.take(i + 1) =~= a@.take(i as int).push(a@[i as int]));
            assert(b@.take(i + 1) =~= b@.take(i as int).push(b@[i as int]));
        }
        i += 1;
    }
    proof {
        assert(a@.take(i as int) =~= a@);
        assert(b@.take(i as int) =~= b@);
    }
    true
}

impl ExpectedUrlBuilder {
    /// Sets the expected method.
    pub fn method(&mut self, value: Method) -> (ret: &mut Self)
        ensures
            *ret == (ExpectedUrlBuilder { method: Some(value), ..*old(self) }),
            *final(self) == *final(ret),
    {
        self.method = Some(value);
        self
    }

    /// Sets the expected path, relative to the base of the API.
    pub fn endpoint(&mut self, value: &'static str) -> (ret: &mut Self)
        ensures
            *ret == (ExpectedUrlBuilder { endpoint: Some(value), ..*old(self) }),
            *final(self) == *final(ret),
    {
        self.endpoint = Some(value);
        self
    }

    /// Sets the expected content type.
    pub fn content_type(&mut self, value: &str) -> (ret: &mut Self)
        ensures
            ret.content_type matches Some(t) && t@ == value@,
            ret.method == old(self).method,
            ret.endpoint == old(self).endpoint,
            ret.query == old(self).query,
            ret.body == old(self).body,
            ret.status == old(self).status,
            ret.paginated == old(self).paginated,
            *final(self) == *final(ret),
    {
        self.content_type = Some(String::from_str(value));
        self
    }

    /// Sets the expected body.
    pub fn body(&mut self, value: Vec<u8>) -> (ret: &mut Self)
        ensures
            *ret == (ExpectedUrlBuilder { body: value, ..*old(self) }),
            *final(self) == *final(ret),
    {
        self.body = value;
        self
    }

    /// Sets the status to answer with.
    pub fn status(&mut self, value: u16) -> (ret: &mut Self)
        ensures
            *ret == (ExpectedUrlBuilder { status: Some(value), ..*old(self) }),
            *final(self) == *final(ret),
    {
        self.status = Some(value);
        self
    }

    /// Sets whether the paging parameters of a request are left out of the
    /// comparison of its query.
    pub fn paginated(&mut self, value: bool) -> (ret: &mut Self)
        ensures
            *ret == (ExpectedUrlBuilder { paginated: value, ..*old(self) }),
            *final(self) == *final(ret),
    {
        self.paginated = value;
        self
    }

    /// Adds pairs to the expected query.
    pub fn add_query_params(&mut self, pairs: &[(&'static str, &'static str)]) -> (ret: &mut Self)
        ensures
            pairs_view(ret.query@) == pairs_view(old(self).query@) + pairs@.map_values(
                |p: (&'static str, &'static str)| (p.0@, p.1@),
            ),
            ret.method == old(self).method,
            ret.endpoint == old(self).endpoint,
            ret.content_type == old(self).content_type,
            ret.body == old(self).body,
            ret.status == old(self).status,
            ret.paginated == old(self).paginated,
            *final(self) == *final(ret),
    {
        let ghost before = pairs_view(self.query@);
        let ghost added = pairs@.map_values(|p: (&'static str, &'static str)| (p.0@, p.1@));
        let mut i: usize = 0;
        while i < pairs.len()
            invariant
                i <= pairs.len(),
                added == pairs@.map_values(|p: (&'static str, &'static str)| (p.0@, p.1@)),
                pairs_view(self.query@) == before + added.take(i as int),
                self.method == old(self).method,
                self.endpoint == old(self).endpoint,
                self.content_type == old(self).content_type,
                self.body == old(self).body,
                self.status == old(self).status,
                self.paginated == old(self).paginated,
            decreases pairs.len() - i,
        {
            let ghost now = pairs_view(self.query@);
            self.query.push((String::from_str(pairs[i].0), String::from_str(pairs[i].1)));
            proof {
                assert(pairs_view(self.query@) =~= now.push(added[i as int]));
                assert(added.take(i + 1) =~= added.take(i as int).push(added[i as int]));
            }
            i += 1;
        }
        proof {
            assert(added.take(i as int) =~= added);
        }
        self
    }

    /// Sets the expected body to the bytes of a string.
    pub fn body_str(&mut self, body: &str) -> (ret: &mut Self)
        ensures
            ret.body@ == body.spec_bytes(),
            ret.method == old(self).method,
            ret.endpoint == old(self).endpoint,
            ret.query == old(self).query,
            ret.content_type == old(self).content_type,
            ret.status == old(self).status,
            ret.paginated == old(self).paginated,
            *final(self) == *final(ret),
    {
        self.body = body.as_bytes_vec();
        self
    }

    /// Builds the expectation; fails where no endpoint was given.
    pub fn build(&self) -> (r: Result<ExpectedUrl, ExpectedUrlBuilderError>)
        ensures
            r is Ok <==> self.endpoint is Some,
            r matches Ok(e) ==> {
                &&& Some(e.endpoint) == self.endpoint
                &&& e.method == match self.method {
                    Some(m) => m,
                    None => Method::Get,
                }
                &&& e.status == match self.status {
                    Some(s) => s,
                    None => OK,
                }
                &&& pairs_view(e.query@) == pairs_view(self.query@)
                &&& e.body@ == self.body@
                &&& e.paginated == self.paginated
                &&& match (e.content_type, self.content_type) {
                    (Some(a), Some(b)) => a@ == b@,
                    (None, None) => true,
                    _ => false,
                }
            },
    {
        let endpoint = match self.endpoint {
            Some(endpoint) => endpoint,
            None => {
                return Err(ExpectedUrlBuilderError::UninitializedField);
            },
        };
        Ok(
            ExpectedUrl {
                method: match self.method {
                    Some(m) => m,
                    None => Method::Get,
                },
                endpoint,
                query: copy_pairs(&self.query),
                content_type: match &self.content_type {
                    Some(t) => Some(t.clone()),
                    None => None,
                },
                body: copy_bytes(&self.body),
                status: match self.status {
                    Some(s) => s,
                    None => OK,
                },
                paginated: self.paginated,
            },
        )
    }
}

/// The scheme and the host of the API, as every URL that leads to it
/// begins.
pub open spec fn api_origin() -> Seq<char> {
    "https://api.spotify.com/"@
}

/// Whether `url` leads to the API: its scheme is `https`, its host is the
/// host of the API, it has no fragment, and its serialization begins with
/// the scheme and the host, which leaves no room for a user or a port.
pub open spec fn leads_to_api(url: url::Url) -> bool {
    &&& url_scheme(url) == "https"@
    &&& url_host(url) == Some("api.spotify.com"@)
    &&& url_fragment(url) is None
    &&& api_origin().is_prefix_of(url_text(url))
}

fn check_origin(url: &url::Url) -> (r: bool)
    ensures
        r == leads_to_api(*url),
{
    if !str_eq(scheme(url).as_str(), "https") {
        return false;
    }
    match host(url) {
        Some(name) => {
            if !str_eq(name.as_str(), "api.spotify.com") {
                return false;
            }
        },
        None => {
            return false;
        },
    }
    if fragment(url).is_some() {
        return false;
    }
    strip_prefix(url_as_str(url), "https://api.spotify.com/").is_some()
}

/// Whether `key` names one of the two paging parameters.
pub open spec fn is_page_key(key: Seq<char>) -> bool {
    key == "offset"@ || key == "limit"@
}

/// The pairs of a query that are compared with the expected ones: all of
/// them, or all but the paging parameters.
pub open spec fn compared(pairs: Seq<Pair>, paginated: bool) -> Seq<Pair> {
    pairs.filter(|p: Pair| !(paginated && is_page_key(p.0)))
}

/// The values of the headers named `name`, in order.
pub open spec fn header_values(headers: Seq<Pair>, name: Seq<char>) -> Seq<Seq<char>> {
    headers.filter(|h: Pair| h.0 == name).map_values(|h: Pair| h.1)
}

fn contains_pair(pairs: &Vec<(String, String)>, key: &str, value: &str) -> (r: bool)
    ensures
        r == pairs_view(pairs@).contains((key@, value@)),
{
    let mut i: usize = 0;
    while i < pairs.len()
        invariant
            i <= pairs.len(),
            forall|k: int| 0 <= k < i ==> pairs_view(pairs@)[k] != (key@, value@),
        decreases pairs.len() - i,
    {
        if str_eq(pairs[i].0.as_str(), key) && str_eq(pairs[i].1.as_str(), value) {
            assert(pairs_view(pairs@)[i as int] == (key@, value@));
            return true;
        }
        i += 1;
    }
    false
}

impl ExpectedUrl {
    /// A builder with nothing set.
    pub fn builder() -> (r: ExpectedUrlBuilder)
        ensures
            r.method is None,
            r.endpoint is None,
            r.query@.len() == 0,
            r.content_type is None,
            r.body@.len() == 0,
            r.status is None,
            !r.paginated,
    {
        ExpectedUrlBuilder {
            method: None,
            endpoint: None,
            query: Vec::new(),
            content_type: None,
            body: Vec::new(),
            status: None,
            paginated: false,
        }
    }

    /// The path that a request is expected at.
    pub open spec fn spec_path(&self) -> Seq<char> {
        "/v1/"@ + self.endpoint@
    }

    /// Whether the query `pairs` is the expected one: each pair that is
    /// compared is expected, and they are as many as are expected.
    pub open spec fn query_fits(&self, pairs: Seq<Pair>) -> bool {
        let seen = compared(pairs, self.paginated);
        &&& seen.len() == self.query@.len()
        &&& forall|i: int| 0 <= i < seen.len() ==> pairs_view(self.query@).contains(#[trigger] seen[i])
    }

    /// Whether the content type among `headers` is the expected one: the
    /// one header of that name, or none.
    pub open spec fn content_type_fits(&self, headers: Seq<Pair>) -> bool {
        match self.content_type {
            Some(t) => header_values(headers, "content-type"@) == seq![t@],
            None => header_values(headers, "content-type"@).len() == 0,
        }
    }

    /// The first expectation that `request` does not meet, if there is one:
    /// the method, the origin, the path, the query, the body and the content
    /// type are looked at in this order.
    pub open spec fn judged(&self, request: Request) -> Option<TestClientError> {
        if request.method != self.method {
            Some(TestClientError::Method)
        } else if !leads_to_api(request.url) {
            Some(TestClientError::Origin)
        } else if url_path(request.url) != self.spec_path() {
            Some(TestClientError::Path)
        } else if !self.query_fits(url_pairs(request.url)) {
            Some(TestClientError::Query)
        } else if request.body@ != self.body@ {
            Some(TestClientError::Body)
        } else if !self.content_type_fits(headers_view(request.headers@)) {
            Some(TestClientError::ContentType)
        } else {
            None
        }
    }

    fn check_query(&self, pairs: &Vec<(String, String)>) -> (r: bool)
        ensures
            r == self.query_fits(pairs_view(pairs@)),
    {
        let ghost all = pairs_view(pairs@);
        let ghost keep = |p: Pair| !(self.paginated && is_page_key(p.0));
        let mut count: usize = 0;
        let mut i: usize = 0;
        while i < pairs.len()
            invariant
                i <= pairs.len(),
                all == pairs_view(pairs@),
                keep == (|p: Pair| !(self.paginated && is_page_key(p.0))),
                count == all.take(i as int).filter(keep).len(),
                count <= i,
                forall|k: int|
                    0 <= k < all.take(i as int).filter(keep).len() ==> pairs_view(
                        self.query@,
                    ).contains(#[trigger] all.take(i as int).filter(keep)[k]),
            decreases pairs.len() - i,
        {
            let key = pairs[i].0.as_str();
            let value = pairs[i].1.as_str();
            proof {
                assert(all.take(i + 1) =~= all.take(i as int).push(all[i as int]));
                all.take(i as int).lemma_filter_push(all[i as int], keep);
            }
            let paging = self.paginated && (str_eq(key, "offset") || str_eq(key, "limit"));
            if !paging {
                if !contains_pair(&self.query, key, value) {
                    proof {
                        let seen = all.take(i + 1).filter(keep);
                        assert(seen.last() == all[i as int]);
                        lemma_filter_prefix(all, keep, i + 1);
                        let whole = all.filter(keep);
                        assert(whole[seen.len() - 1] == all[i as int]);
                    }
                    return false;
                }
                count += 1;
            }
            i += 1;
        }
        proof {
            assert(all.take(i as int) =~= all);
        }
        count == self.query.len()
    }

    fn check_content_type(&self, headers: &Vec<(String, String)>) -> (r: bool)
        ensures
            r == self.content_type_fits(headers_view(headers@)),
    {
        let ghost all = headers_view(headers@);
        let ghost named = |h: Pair| h.0 == "content-type"@;
        let mut found: Vec<String> = Vec::new();
        let mut i: usize = 0;
        while i < headers.len()
            invariant
                i <= headers.len(),
                all == headers_view(headers@),
                named == (|h: Pair| h.0 == "content-type"@),
                found@.map_values(|s: String| s@) == all.take(i as int).filter(named).map_values(
                    |h: Pair| h.1,
                ),
            decreases headers.len() - i,
        {
            proof {
                assert(all.take(i + 1) =~= all.take(i as int).push(all[i as int]));
                all.take(i as int).lemma_filter_push(all[i as int], named);
            }
            let ghost before = found@.map_values(|s: String| s@);
            if str_eq(headers[i].0.as_str(), "content-type") {
                found.push(headers[i].1.clone());
                proof {
                    assert(found@.map_values(|s: String| s@) =~= before.push(all[i as int].1));
                    assert(all.take(i + 1).filter(named).map_values(|h: Pair| h.1) =~= all.take(
                        i as int,
                    ).filter(named).map_values(|h: Pair| h.1).push(all[i as int].1));
                }
            }
            i += 1;
        }
        proof {
            assert(all.take(i as int) =~= all);
        }
        let ghost values = found@.map_values(|s: String| s@);
        match &self.content_type {
            Some(t) => {
                if found.len() == 1 {
                    let same = str_eq(found[0].as_str(), t.as_str());
                    proof {
                        assert(values[0] == found@[0]@);
                        if same {
                            assert(values =~= seq![t@]);
                        }
                    }
                    same
                } else {
                    false
                }
            },
            None => found.len() == 0,
        }
    }

    /// Checks a request against the expectation.
    pub fn check(&self, request: &Request) -> (r: Option<TestClientError>)
        ensures
            r == self.judged(*request),
    {
        if request.method != self.method {
            return Some(TestClientError::Method);
        }
        if !check_origin(&request.url) {
            return Some(TestClientError::Origin);
        }
        let path = url_path_string(&request.url);
        let expected = concat("/v1/", self.endpoint);
        if !str_eq(path.as_str(), expected.as_str()) {
            return Some(TestClientError::Path);
        }
        let pairs = query_pairs(&request.url);
        if !self.check_query(&pairs) {
            return Some(TestClientError::Query);
        }
        if !bytes_eq(&request.body, &self.body) {
            return Some(TestClientError::Body);
        }
        if !self.check_content_type(&request.headers) {
            return Some(TestClientError::ContentType);
        }
        None
    }
}

/// What is kept of a list is kept in order: the items kept of a beginning
/// are the beginning of the items kept.
proof fn lemma_filter_prefix<A>(items: Seq<A>, keep: spec_fn(A) -> bool, n: int)
    requires
        0 <= n <= items.len(),
    ensures
        items.take(n).filter(keep).len() <= items.filter(keep).len(),
        forall|k: int|
            0 <= k < items.take(n).filter(keep).len() ==> items.take(n).filter(keep)[k]
                == #[trigger] items.filter(keep)[k],
    decreases items.len() - n,
{
    if n == items.len() {
        assert(items.take(n) =~= items);
    } else {
        lemma_filter_prefix(items, keep, n + 1);
        assert(items.take(n + 1) =~= items.take(n).push(items[n]));
        items.take(n).lemma_filter_push(items[n], keep);
    }
}

/// The base of the API, to which the path of an endpoint is added.
pub open spec fn api_base() -> Seq<char> {
    "https://api.spotify.com/v1/"@
}

/// Whether `r` is how a client in memory resolves the path `endpoint`: the
/// URL under the base of the API, or a URL error where that is no URL.
pub open spec fn resolved<X>(endpoint: Seq<char>, r: Result<url::Url, ApiError<X>>) -> bool {
    match normalized(api_base() + endpoint) {
        Some(text) => r matches Ok(url) && url_text(url) == text,
        None => r matches Err(e) && e is UrlParse,
    }
}

fn resolve<X>(endpoint: &str) -> (r: Result<url::Url, ApiError<X>>)
    ensures
        resolved(endpoint@, r),
{
    let text = concat("https://api.spotify.com/v1/", endpoint);
    match parse_url(text.as_str()) {
        Ok(url) => Ok(url),
        Err(source) => Err(ApiError::UrlParse { source }),
    }
}

/// A client that answers every request that meets its expectation with
/// one response.
#[derive(Debug)]
pub struct SingleTestClient {
    pub expected: ExpectedUrl,
    pub data: Vec<u8>,
}

impl SingleTestClient {
    /// A client that answers with the bytes `data`.
    pub fn new_raw(expected: ExpectedUrl, data: &str) -> (r: Self)
        ensures
            r.expected == expected,
            r.data@ == data.spec_bytes(),
    {
        SingleTestClient { expected, data: data.as_bytes_vec() }
    }

    /// A client that answers with the JSON text of `data`; `None` where
    /// `data` cannot be written.
    pub fn new_json(expected: ExpectedUrl, data: &Json) -> (r: Option<Self>)
        ensures
            r is Some <==> json_text(data@) is Some,
            r matches Some(c) ==> c.expected == expected && Some(c.data@) == json_text(data@),
    {
        match data.to_vec() {
            Some(bytes) => Some(SingleTestClient { expected, data: bytes }),
            None => None,
        }
    }
}

impl RestClient for SingleTestClient {
    type Error = TestClientError;

    open spec fn resolves(&self, endpoint: Seq<char>, result: Result<url::Url, ApiError<Self::Error>>) -> bool {
        resolved(endpoint, result)
    }

    fn rest_endpoint(&self, endpoint: &str) -> (r: Result<url::Url, ApiError<Self::Error>>) {
        resolve(endpoint)
    }
}

impl Client for SingleTestClient {
    open spec fn answers(&self, request: Request, result: Result<Response, ApiError<Self::Error>>) -> bool {
        match self.expected.judged(request) {
            Some(failure) => result matches Err(ApiError::Client { source }) && source == failure,
            None => result matches Ok(response) && response.status == self.expected.status
                && response.headers@.len() == 0 && response.body@ == self.data@,
        }
    }

    fn rest(&self, request: Request) -> (r: Result<Response, ApiError<Self::Error>>) {
        match self.expected.check(&request) {
            Some(source) => Err(ApiError::Client { source }),
            None => Ok(Response::new(self.expected.status, copy_bytes(&self.data))),
        }
    }
}

/// The page size of a request that names none.
pub const DEFAULT_PAGE_SIZE: usize = 20;

/// The number that the parameter `key` of a query stands for: `default`
/// where there is none, `None` where it is no number.
pub open spec fn page_number(pairs: Seq<Pair>, key: Seq<char>, default: usize) -> Option<usize> {
    match first_value(pairs, key) {
        None => Some(default),
        Some(text) => match number_of(text) {
            Some(n) if n <= usize::MAX => Some(n as usize),
            _ => None,
        },
    }
}

/// The envelope of a page as a JSON object.
pub open spec fn page_value(
    href: Seq<char>,
    limit: usize,
    next: Option<Seq<char>>,
    offset: usize,
    total: usize,
    items: Seq<JsonValue>,
) -> JsonValue {
    JsonValue::Object(
        seq![
            ("href"@, JsonValue::Str(href)),
            ("limit"@, JsonValue::Number(crate::text::decimal(limit as nat))),
            (
                "next"@,
                match next {
                    Some(text) => JsonValue::Str(text),
                    None => JsonValue::Null,
                },
            ),
            ("offset"@, JsonValue::Number(crate::text::decimal(offset as nat))),
            ("previous"@, JsonValue::Null),
            ("total"@, JsonValue::Number(crate::text::decimal(total as nat))),
            ("items"@, JsonValue::Array(items)),
        ],
    )
}

/// The smaller of two numbers.
pub open spec fn smaller(a: int, b: int) -> int {
    if a <= b {
        a
    } else {
        b
    }
}

/// A client that serves a list of items page by page, as the service does:
/// a request gets the items from its `offset` on, as many as its `limit`
/// says, in an envelope that names the next page where items remain.
#[derive(Debug)]
pub struct PagedTestClient {
    pub expected: ExpectedUrl,
    pub data: Vec<Json>,
}

impl PagedTestClient {
    /// A client that serves `data`.
    pub fn new_raw(expected: ExpectedUrl, data: Vec<Json>) -> (r: Self)
        ensures
            r.expected == expected,
            r.data == data,
    {
        PagedTestClient { expected, data }
    }

    /// The pairs that the link to the page at `offset` adds to the URL of
    /// the endpoint: the expected query, then the two paging parameters.
    pub open spec fn link_pairs(&self, offset: usize, limit: usize) -> Seq<Pair> {
        pairs_view(self.expected.query@) + seq![
            ("offset"@, decimal(offset as nat)),
            ("limit"@, decimal(limit as nat)),
        ]
    }

    /// Whether the link to the page at `offset` is sure to be made: the
    /// endpoint has a URL, and the link cannot pass [`MAX_URL_SIZE`].
    pub open spec fn link_fits(&self, offset: usize, limit: usize) -> bool {
        normalized(api_base() + self.expected.endpoint@) matches Some(text) && encode_utf8(
            text,
        ).len() + pairs_cost(self.link_pairs(offset, limit)) <= MAX_URL_SIZE
    }

    /// Whether `link` is a link to the page at `offset`: the serialization
    /// of a URL that is the URL of the endpoint with [`Self::link_pairs`]
    /// added to its query.
    pub open spec fn is_link(&self, offset: usize, limit: usize, link: Seq<char>) -> bool {
        exists|base: url::Url, url: url::Url|
            normalized(api_base() + self.expected.endpoint@) == Some(url_text(base))
                && #[trigger] extends(base, url, self.link_pairs(offset, limit)) && link
                == url_text(url)
    }

    /// Whether `next` is what the envelope of a page that ends at `end`
    /// names as the next page: a link to the page at `end` where items
    /// remain beyond it, and nothing where none do.
    pub open spec fn names_next(&self, end: usize, limit: usize, next: Option<Seq<char>>) -> bool {
        if end < self.data@.len() {
            next matches Some(link) && self.is_link(end, limit, link)
        } else {
            next is None
        }
    }

    /// Whether `r` is the answer to a request for `limit` items from
    /// `offset` on. The answer is the envelope of the page, written as
    /// JSON, with the status that is expected: the items of the window, and
    /// the next page as [`Self::names_next`] says. It is an error of the
    /// client only where the link to the next page is not sure to be made,
    /// or where the envelope cannot be written.
    pub open spec fn page_answer(
        &self,
        request: Request,
        offset: usize,
        limit: usize,
        r: Result<Response, ApiError<TestClientError>>,
    ) -> bool {
        let total = self.data@.len();
        let start = smaller(offset as int, total as int);
        let end = smaller(offset + limit, total as int);
        match r {
            Ok(response) => {
                &&& response.status == self.expected.status
                &&& response.headers@.len() == 0
                &&& exists|next: Option<Seq<char>>|
                    #[trigger] self.names_next(end as usize, limit, next) && json_text(
                        page_value(
                            url_text(request.url),
                            limit,
                            next,
                            offset,
                            total as usize,
                            items_view(self.data@.subrange(start, end)),
                        ),
                    ) == Some(response.body@)
            },
            Err(e) => {
                &&& e matches ApiError::Client { source } && source is Answer
                &&& (end < total && !self.link_fits(end as usize, limit)) || exists|
                    next: Option<Seq<char>>,
                |
                    #[trigger] self.names_next(end as usize, limit, next) && json_text(
                        page_value(
                            url_text(request.url),
                            limit,
                            next,
                            offset,
                            total as usize,
                            items_view(self.data@.subrange(start, end)),
                        ),
                    ) is None
            },
        }
    }

    /// The link to the page at `offset`, for the envelope of the page
    /// before it; `None` where the endpoint has no URL or the link would
    /// pass [`MAX_URL_SIZE`].
    fn next_link(&self, offset: usize, limit: usize) -> (r: Option<String>)
        ensures
            self.link_fits(offset, limit) ==> r is Some,
            normalized(api_base() + self.expected.endpoint@) is None ==> r is None,
            r matches Some(link) ==> self.is_link(offset, limit, link@),
    {
        let mut url = match resolve::<TestClientError>(self.expected.endpoint) {
            Ok(url) => url,
            Err(_) => {
                return None;
            },
        };
        let ghost base = url;
        let ghost query = pairs_view(self.expected.query@);
        let ghost first = ("offset"@, decimal(offset as nat));
        let ghost second = ("limit"@, decimal(limit as nat));
        proof {
            let all = self.link_pairs(offset, limit);
            let most = query.push(first);
            assert(all =~= most.push(second));
            assert(all.drop_last() =~= most);
            assert(all.last() == second);
            assert(most.drop_last() =~= query);
            assert(most.last() == first);
            assert(pairs_cost(most) == pairs_cost(query) + pair_cost(first.0, first.1));
            assert(pairs_cost(all) == pairs_cost(most) + pair_cost(second.0, second.1));
            assert(pairs_cost(all) == pairs_cost(query) + pair_cost(first.0, first.1) + pair_cost(
                second.0,
                second.1,
            ));
        }
        if !crate::urls::extend_pairs(&mut url, &self.expected.query) {
            return None;
        }
        if !append_pair(&mut url, "offset", usize_to_string(offset).as_str()) {
            return None;
        }
        if !append_pair(&mut url, "limit", usize_to_string(limit).as_str()) {
            return None;
        }
        proof {
            assert(url_pairs(url) =~= url_pairs(base) + self.link_pairs(offset, limit));
            assert(extends(base, url, self.link_pairs(offset, limit)));
        }
        Some(String::from_str(url_as_str(&url)))
    }

    fn page(&self, request: &Request, offset: usize, limit: usize) -> (r: Result<
        Response,
        ApiError<TestClientError>,
    >)
        ensures
            self.page_answer(*request, offset, limit, r),
    {
        let total = self.data.len();
        let start = if offset <= total {
            offset
        } else {
            total
        };
        let end = if limit <= total - start {
            start + limit
        } else {
            total
        };
        let mut items: Vec<Json> = Vec::new();
        let mut i: usize = start;
        while i < end
            invariant
                start <= i <= end <= self.data.len(),
                items_view(items@) == items_view(self.data@.subrange(start as int, i as int)),
            decreases end - i,
        {
            let ghost before = items_view(items@);
            items.push(self.data[i].duplicate());
            proof {
                assert(items_view(items@) =~= before.push(self.data@[i as int]@));
                assert(items_view(self.data@.subrange(start as int, i + 1)) =~= items_view(
                    self.data@.subrange(start as int, i as int),
                ).push(self.data@[i as int]@));
            }
            i += 1;
        }
        let failed = ApiError::Client { source: TestClientError::Answer };
        let next = if end < total {
            match self.next_link(end, limit) {
                Some(text) => Json::from_str(text.as_str()),
                None => {
                    return Err(failed);
                },
            }
        } else {
            let null = Json::Null;
            proof {
                lemma_json_view(null);
            }
            null
        };
        let ghost next_text: Option<Seq<char>> = match next@ {
            JsonValue::Str(text) => Some(text),
            _ => None,
        };
        let null = Json::Null;
        let list = Json::Array(items);
        proof {
            lemma_json_view(null);
            lemma_array_view(items);
        }
        let mut members: Vec<(String, Json)> = Vec::new();
        members.push((String::from_str("href"), Json::from_str(url_as_str(&request.url))));
        members.push((String::from_str("limit"), Json::from_usize(limit)));
        members.push((String::from_str("next"), next));
        members.push((String::from_str("offset"), Json::from_usize(offset)));
        members.push((String::from_str("previous"), null));
        members.push((String::from_str("total"), Json::from_usize(total)));
        members.push((String::from_str("items"), list));
        let ghost value = page_value(
            url_text(request.url),
            limit,
            next_text,
            offset,
            total,
            items_view(self.data@.subrange(start as int, end as int)),
        );
        proof {
            lemma_object_view(members);
            assert(members_view(members@) =~= value->Object_0);
        }
        match Json::Object(members).to_vec() {
            Some(body) => {
                assert(self.names_next(end, limit, next_text) && json_text(value) == Some(body@));
                Ok(Response::new(self.expected.status, body))
            },
            None => {
                assert(self.names_next(end, limit, next_text) && json_text(value) is None);
                Err(failed)
            },
        }
    }
}

impl RestClient for PagedTestClient {
    type Error = TestClientError;

    open spec fn resolves(&self, endpoint: Seq<char>, result: Result<url::Url, ApiError<Self::Error>>) -> bool {
        resolved(endpoint, result)
    }

    fn rest_endpoint(&self, endpoint: &str) -> (r: Result<url::Url, ApiError<Self::Error>>) {
        resolve(endpoint)
    }
}

impl Client for PagedTestClient {
    open spec fn answers(&self, request: Request, result: Result<Response, ApiError<Self::Error>>) -> bool {
        match self.expected.judged(request) {
            Some(failure) => result matches Err(ApiError::Client { source }) && source == failure,
            None => match (
                page_number(url_pairs(request.url), "offset"@, 0),
                page_number(url_pairs(request.url), "limit"@, DEFAULT_PAGE_SIZE),
            ) {
                (Some(offset), Some(limit)) => self.page_answer(request, offset, limit, result),
                _ => result matches Err(ApiError::Client { source }) && source is Pagination,
            },
        }
    }

    fn rest(&self, request: Request) -> (r: Result<Response, ApiError<Self::Error>>) {
        if let Some(source) = self.expected.check(&request) {
            return Err(ApiError::Client { source });
        }
        let pairs = query_pairs(&request.url);
        let offset = match find_value(&pairs, "offset") {
            None => Some(0),
            Some(text) => parse_usize(text),
        };
        let limit = match find_value(&pairs, "limit") {
            None => Some(DEFAULT_PAGE_SIZE),
            Some(text) => parse_usize(text),
        };
        match (offset, limit) {
            (Some(offset), Some(limit)) => self.page(&request, offset, limit),
            _ => Err(ApiError::Client { source: TestClientError::Pagination }),
        }
    }
}

} // verus!
