//! The request-building and response-classification algorithm that all
//! query strategies share.

use vstd::prelude::*;
use vstd::string::*;
use crate::api::client::{
    headers_view, is_success, status_is_success, Client, Method, Request, Response, RestClient,
    MOVED_PERMANENTLY,
};
use crate::api::endpoint::{body_view, Body, Endpoint};
use crate::api::error::{is_moved_permanently, is_server_error, is_spotify_error, ApiError};
use crate::decode::FromJson;
use crate::json::{json_parse, Json, JsonValue};
use crate::text::{decimal, usize_to_string};
use crate::urls::{
    overflow_error, pairs_cost, same_place, url_pairs, url_size, Pair, MAX_URL_SIZE,
};

verus! {

/// Whether `url` is `base` with `pairs` added to its query, and the same
/// as `base` in all but the query.
pub open spec fn extends(base: url::Url, url: url::Url, pairs: Seq<Pair>) -> bool {
    &&& url_pairs(url) == url_pairs(base) + pairs
    &&& same_place(base, url)
    &&& url_size(url) <= url_size(base) + pairs_cost(pairs)
}

/// Whether `r` is what adding `pairs` to a resolved URL gives: the error of
/// the resolution, the extended URL, or a URL error where the URL would
/// become too long.
pub open spec fn with_pairs<X>(
    resolved: Result<url::Url, ApiError<X>>,
    pairs: Seq<Pair>,
    r: Result<url::Url, ApiError<X>>,
) -> bool {
    match resolved {
        Err(e) => r matches Err(e2) && e2 == e,
        Ok(base) => if url_size(base) + pairs_cost(pairs) <= MAX_URL_SIZE {
            r matches Ok(url) && extends(base, url, pairs)
        } else {
            r matches Err(e) && e is UrlParse
        },
    }
}

/// Whether `r` is how the URL of `endpoint` may come out with `client`: the
/// client resolves the path, and the parameters of the endpoint are added
/// to the query.
pub open spec fn url_outcome<E: Endpoint, C: RestClient>(
    endpoint: &E,
    client: &C,
    r: Result<url::Url, ApiError<C::Error>>,
) -> bool {
    exists|resolved: Result<url::Url, ApiError<C::Error>>|
        #[trigger] client.resolves(endpoint.spec_endpoint(), resolved) && with_pairs(
            resolved,
            endpoint.spec_parameters(),
            r,
        )
}

/// Resolves the full URL of an endpoint: base and path from the client,
/// with the query parameters appended.
pub fn endpoint_url<E: Endpoint, C: RestClient>(endpoint: &E, client: &C) -> (r: Result<
    url::Url,
    ApiError<C::Error>,
>)
    ensures
        url_outcome(endpoint, client, r),
{
    let path = endpoint.endpoint();
    let resolved = endpoint.url_base().endpoint_for(client, path.as_str());
    let ghost seen = resolved;
    let r = match resolved {
        Err(e) => Err(e),
        Ok(url) => {
            let mut url = url;
            let params = endpoint.parameters();
            if params.add_to_url(&mut url) {
                Ok(url)
            } else {
                Err(ApiError::UrlParse { source: overflow_error() })
            }
        },
    };
    assert(client.resolves(endpoint.spec_endpoint(), seen) && with_pairs(
        seen,
        endpoint.spec_parameters(),
        r,
    ));
    r
}

/// The bytes of a body; none where there is no body.
pub open spec fn body_data(body: Option<Body>) -> Seq<u8> {
    match body {
        Some((_, data)) => data,
        None => Seq::empty(),
    }
}

/// The headers of a request: the media type of the body, where there is
/// one, and, for `POST` and `PUT`, the length of the body, be it empty.
pub open spec fn request_headers(method: Method, body: Option<Body>) -> Seq<Pair> {
    let kind = match body {
        Some((mime, _)) => seq![("content-type"@, mime)],
        None => Seq::empty(),
    };
    if method.sends_length() {
        kind.push(("content-length"@, decimal(body_data(body).len())))
    } else {
        kind
    }
}

/// Whether `request` is the request with `method` and `body` for `url`.
pub open spec fn is_request(request: Request, method: Method, url: url::Url, body: Option<Body>) -> bool {
    &&& request.method == method
    &&& request.url == url
    &&& headers_view(request.headers@) == request_headers(method, body)
    &&& request.body@ == body_data(body)
}

/// Builds the request with `method` and `body` for `url`.
pub fn build_request(method: Method, url: url::Url, body: Option<(&'static str, Vec<u8>)>) -> (r:
    Request)
    ensures
        is_request(r, method, url, body_view(body)),
{
    let mut headers: Vec<(String, String)> = Vec::new();
    let data = match body {
        Some((mime, data)) => {
            headers.push((String::from_str("content-type"), String::from_str(mime)));
            data
        },
        None => Vec::new(),
    };
    match method {
        Method::Post | Method::Put => {
            headers.push((String::from_str("content-length"), usize_to_string(data.len())));
        },
        _ => {},
    }
    let r = Request { method, url, headers, body: data };
    assert(headers_view(r.headers@) =~= request_headers(method, body_view(body)));
    assert(r.body@ =~= body_data(body_view(body)));
    r
}

/// Whether `r` is what building the request of `endpoint` for `url` gives:
/// a body error where the body cannot be made, else the request.
pub open spec fn request_outcome<E: Endpoint, X>(
    endpoint: &E,
    url: url::Url,
    r: Result<Request, ApiError<X>>,
) -> bool {
    match endpoint.spec_body() {
        None => r matches Err(e) && e is Body,
        Some(body) => r matches Ok(request) && is_request(
            request,
            endpoint.spec_method(),
            url,
            body,
        ),
    }
}

/// Builds the request of `endpoint` for `url`.
pub fn request_for<E: Endpoint, X>(endpoint: &E, url: url::Url) -> (r: Result<Request, ApiError<X>>)
    ensures
        request_outcome(endpoint, url, r),
{
    match endpoint.body() {
        Err(source) => Err(ApiError::Body { source }),
        Ok(body) => Ok(build_request(endpoint.method(), url, body)),
    }
}

/// Whether `r` is how the exchange for `endpoint` at `url` may come out
/// with `client`: an error where the body cannot be made, else an answer of
/// the client to the request of the endpoint.
pub open spec fn exchange<E: Endpoint, C: Client>(
    endpoint: &E,
    client: &C,
    url: url::Url,
    r: Result<Response, ApiError<C::Error>>,
) -> bool {
    match endpoint.spec_body() {
        None => r matches Err(e) && e is Body,
        Some(body) => exists|request: Request|
            is_request(request, endpoint.spec_method(), url, body) && #[trigger] client.answers(
                request,
                r,
            ),
    }
}

/// Sends the request of `endpoint` for `url`.
pub fn send_to<E: Endpoint, C: Client>(endpoint: &E, client: &C, url: url::Url) -> (r: Result<
    Response,
    ApiError<C::Error>,
>)
    ensures
        exchange(endpoint, client, url, r),
{
    match request_for::<E, C::Error>(endpoint, url) {
        Err(e) => Err(e),
        Ok(request) => {
            let ghost sent = request;
            let r = client.rest(request);
            assert(is_request(sent, endpoint.spec_method(), url, endpoint.spec_body().unwrap())
                && client.answers(sent, r));
            r
        },
    }
}

/// Whether `r` is how one exchange for `endpoint` may come out with
/// `client`, the resolution of its URL included.
pub open spec fn sent<E: Endpoint, C: Client>(
    endpoint: &E,
    client: &C,
    r: Result<Response, ApiError<C::Error>>,
) -> bool {
    exists|target: Result<url::Url, ApiError<C::Error>>|
        #[trigger] url_outcome(endpoint, client, target) && match target {
            Err(e) => r matches Err(e2) && e2 == e,
            Ok(url) => exchange(endpoint, client, url, r),
        }
}

/// Resolves the URL of `endpoint` and sends its request.
pub fn send<E: Endpoint, C: Client>(endpoint: &E, client: &C) -> (r: Result<
    Response,
    ApiError<C::Error>,
>)
    ensures
        sent(endpoint, client, r),
{
    let target = endpoint_url(endpoint, client);
    let ghost seen = target;
    let r = match target {
        Err(e) => Err(e),
        Ok(url) => send_to(endpoint, client, url),
    };
    assert(url_outcome(endpoint, client, seen) && match seen {
        Err(e) => r matches Err(e2) && e2 == e,
        Ok(url) => exchange(endpoint, client, url, r),
    });
    r
}

/// Whether `r` is the verdict on the status of `response`.
///
/// A status of 301 is a failure that carries the `location` header,
/// whatever the body holds: it is for the caller to follow it. Any other
/// status outside 200-299 is a failure: with a body that is no JSON, a
/// server error that carries status and body; otherwise the error that the
/// JSON is classified as. Any other status passes.
pub open spec fn status_outcome<X>(response: Response, r: Result<(), ApiError<X>>) -> bool {
    if response.status == MOVED_PERMANENTLY {
        r matches Err(e) && is_moved_permanently(response.spec_location(), e)
    } else if !is_success(response.status) {
        match json_parse(response.body@) {
            None => r matches Err(e) && is_server_error(response.status, response.body@, e),
            Some(body) => r matches Err(e) && is_spotify_error(response.status, body, e),
        }
    } else {
        r is Ok
    }
}

/// Classifies a response by its status; the body is read only where the
/// status is a failure other than 301.
pub fn check_status<X>(response: &Response) -> (r: Result<(), ApiError<X>>)
    ensures
        status_outcome(*response, r),
{
    if response.status == MOVED_PERMANENTLY {
        Err(ApiError::moved_permanently(response.location()))
    } else if !status_is_success(response.status) {
        match Json::parse(response.body.as_slice()) {
            None => Err(ApiError::server_error(response.status, response.body.as_slice())),
            Some(value) => Err(ApiError::from_spotify_with_status(response.status, value)),
        }
    } else {
        Ok(())
    }
}

/// Whether `r` is what the JSON body of `response` is taken as.
///
/// A status of 301 is a failure that carries the `location` header,
/// whatever the body holds. Otherwise a body that is no JSON is a server
/// error, whatever the status; then the status decides as in
/// [`status_outcome`], and a response that passes gives its JSON.
pub open spec fn json_outcome<X>(response: Response, r: Result<Json, ApiError<X>>) -> bool {
    if response.status == MOVED_PERMANENTLY {
        r matches Err(e) && is_moved_permanently(response.spec_location(), e)
    } else {
        match json_parse(response.body@) {
            None => r matches Err(e) && is_server_error(response.status, response.body@, e),
            Some(body) => if !is_success(response.status) {
                r matches Err(e) && is_spotify_error(response.status, body, e)
            } else {
                r matches Ok(json) && json@ == body
            },
        }
    }
}

/// Classifies a response and reads its JSON body: a status of 301 fails
/// before the body is looked at; any other response is read first and
/// classified by its status then.
pub fn json_of_response<X>(response: &Response) -> (r: Result<Json, ApiError<X>>)
    ensures
        json_outcome(*response, r),
{
    if response.status == MOVED_PERMANENTLY {
        return Err(ApiError::moved_permanently(response.location()));
    }
    match Json::parse(response.body.as_slice()) {
        None => Err(ApiError::server_error(response.status, response.body.as_slice())),
        Some(value) => {
            if !status_is_success(response.status) {
                Err(ApiError::from_spotify_with_status(response.status, value))
            } else {
                Ok(value)
            }
        },
    }
}

/// Whether `r` is what `json` decodes to as a `T`: the value, or a
/// data-type error that names `T` and carries the defect.
pub open spec fn decode_outcome<T: FromJson, X>(json: JsonValue, r: Result<T, ApiError<X>>) -> bool {
    match T::defect(json) {
        None => r matches Ok(value) && T::decodes(json, value),
        Some(defect) => r matches Err(ApiError::DataType { source, typename }) && source == defect
            && typename@ == T::spec_target(),
    }
}

/// Decodes `json` as a `T`.
pub fn decode<T: FromJson, X>(json: &Json) -> (r: Result<T, ApiError<X>>)
    ensures
        decode_outcome(json@, r),
{
    match T::from_json(json) {
        Ok(value) => Ok(value),
        Err(source) => Err(ApiError::data_type(source, T::target())),
    }
}

/// Whether `r` is what `response` gives as a `T`: an error of
/// [`json_outcome`], or what its JSON decodes to.
pub open spec fn typed_outcome<T: FromJson, X>(response: Response, r: Result<T, ApiError<X>>) -> bool {
    exists|json: Result<Json, ApiError<X>>|
        #[trigger] json_outcome(response, json) && match json {
            Err(e) => r matches Err(e2) && e2 == e,
            Ok(j) => decode_outcome(j@, r),
        }
}

/// Classifies a response and decodes its body as a `T`.
pub fn parse_response<T: FromJson, X>(response: &Response) -> (r: Result<T, ApiError<X>>)
    ensures
        typed_outcome(*response, r),
{
    let json = json_of_response::<X>(response);
    let ghost seen = json;
    let r = match json {
        Err(e) => Err(e),
        Ok(j) => decode::<T, X>(&j),
    };
    assert(json_outcome(*response, seen) && match seen {
        Err(e) => r matches Err(e2) && e2 == e,
        Ok(j) => decode_outcome(j@, r),
    });
    r
}

/// Whether `r` is how fetching a `T` for `endpoint` at `url` may come out
/// with `client`: one exchange, then [`typed_outcome`] of the response.
pub open spec fn typed_at<E: Endpoint, T: FromJson, C: Client>(
    endpoint: &E,
    client: &C,
    url: url::Url,
    r: Result<T, ApiError<C::Error>>,
) -> bool {
    exists|answer: Result<Response, ApiError<C::Error>>|
        #[trigger] exchange(endpoint, client, url, answer) && match answer {
            Err(e) => r matches Err(e2) && e2 == e,
            Ok(response) => typed_outcome(response, r),
        }
}

/// A response with the status 301 is refused, whatever its body holds,
/// with the error that carries its `location` header.
pub proof fn lemma_moved_permanently_fails<X>(response: Response, r: Result<(), ApiError<X>>)
    requires
        response.status == MOVED_PERMANENTLY,
        status_outcome(response, r),
    ensures
        r matches Err(e) && is_moved_permanently(response.spec_location(), e),
{
}

/// A response with the status 301 gives no value, whatever its body holds,
/// but the error that carries its `location` header.
pub proof fn lemma_moved_permanently_gives_nothing<T: FromJson, X>(
    response: Response,
    r: Result<T, ApiError<X>>,
)
    requires
        response.status == MOVED_PERMANENTLY,
        typed_outcome(response, r),
    ensures
        r matches Err(e) && is_moved_permanently(response.spec_location(), e),
{
}

/// A failed response whose body is no JSON and one whose body is JSON of an
/// unknown shape are told apart: the first is a service error that carries
/// the body, the second is none. The status 301 is left out: it fails the
/// same way whatever the body holds.
pub proof fn lemma_bad_json_is_distinct<X>(
    plain: Response,
    odd: Response,
    a: Result<(), ApiError<X>>,
    b: Result<(), ApiError<X>>,
)
    requires
        !is_success(plain.status),
        !is_success(odd.status),
        plain.status != MOVED_PERMANENTLY,
        odd.status != MOVED_PERMANENTLY,
        json_parse(plain.body@) is None,
        json_parse(odd.body@) is Some,
        status_outcome(plain, a),
        status_outcome(odd, b),
    ensures
        a matches Err(ApiError::SpotifyService { status, data }) && status == plain.status && data@
            == plain.body@,
        b matches Err(e) && !(e is SpotifyService),
{
}

/// A query to a client: an endpoint, or an endpoint under a modifier.
pub trait Query<T, C: Client> {
    /// Whether `r` is how the query may come out with `client`. A query
    /// that is written outside the verified code leaves it open.
    open spec fn outcome(&self, client: &C, r: Result<T, ApiError<C::Error>>) -> bool {
        true
    }

    /// Perform the query against the client.
    fn query(&self, client: &C) -> (r: Result<T, ApiError<C::Error>>)
        ensures
            self.outcome(client, r),
    ;
}

/// Whether `r` is how the typed query of `endpoint` may come out with
/// `client`: one exchange, then [`typed_outcome`] of the response.
pub open spec fn typed_query<E: Endpoint, T: FromJson, C: Client>(
    endpoint: &E,
    client: &C,
    r: Result<T, ApiError<C::Error>>,
) -> bool {
    exists|answer: Result<Response, ApiError<C::Error>>|
        #[trigger] sent(endpoint, client, answer) && match answer {
            Err(e) => r matches Err(e2) && e2 == e,
            Ok(response) => typed_outcome(response, r),
        }
}

impl<E: Endpoint, T: FromJson, C: Client> Query<T, C> for E {
    open spec fn outcome(&self, client: &C, r: Result<T, ApiError<C::Error>>) -> bool {
        typed_query(self, client, r)
    }

    fn query(&self, client: &C) -> (r: Result<T, ApiError<C::Error>>) {
        let answer = send(self, client);
        let ghost seen = answer;
        let r = match answer {
            Err(e) => Err(e),
            Ok(response) => parse_response::<T, C::Error>(&response),
        };
        assert(sent(self, client, seen) && match seen {
            Err(e) => r matches Err(e2) && e2 == e,
            Ok(response) => typed_outcome(response, r),
        });
        r
    }
}

} // verus!
