//! Walking the pages of an endpoint one request at a time.

use vstd::prelude::*;
use vstd::string::*;
use crate::api::client::{Client, Request, Response, RestClient};
use crate::api::endpoint::{Endpoint, Pageable};
use crate::api::error::ApiError;
use crate::api::paged::all_at_once::Paged;
use crate::api::paged::Pagination;
use crate::api::query::{
    endpoint_url, parse_response, request_for, request_outcome, typed_at, typed_outcome,
    url_outcome, with_pairs,
};
use crate::decode::FromJson;
use crate::model::Page;
use crate::text::{decimal, usize_to_string};
use crate::urls::{
    clone_url, extend_pairs, normalized, overflow_error, pairs_view, parse_url, url_text, Pair,
};

verus! {

/// Where the next page of a walk is to be fetched from.
#[derive(Debug)]
pub enum PageCursor {
    /// Nothing has been fetched yet.
    First,
    /// The service named the URL of the next page.
    Next(url::Url),
    /// There is nothing more to fetch.
    Done,
}

impl PageCursor {
    /// The URL of the next page, where the service named one.
    pub fn next_url(&self) -> (r: Option<&url::Url>)
        ensures
            match *self {
                PageCursor::Next(url) => r == Some(&url),
                _ => r is None,
            },
    {
        match self {
            PageCursor::Next(url) => Some(url),
            _ => None,
        }
    }

    /// Whether there is nothing more to fetch.
    pub fn is_done(&self) -> (r: bool)
        ensures
            r == (*self is Done),
    {
        match self {
            PageCursor::Done => true,
            _ => false,
        }
    }
}

/// How far a walk has come: the number of items received, and where the
/// next page is.
#[derive(Debug)]
pub struct PageState {
    pub total: usize,
    pub next_page: PageCursor,
}

/// The sum of `total` and `more`, or the largest number where the sum
/// passes it.
pub open spec fn saturating_sum(total: usize, more: usize) -> usize {
    if total + more <= usize::MAX {
        (total + more) as usize
    } else {
        usize::MAX
    }
}

/// The state of a walk after a page of `last_page_size` items whose
/// envelope named `next_url`: the items are counted, and the walk is done
/// where the policy says that the page is the last, or where the service
/// named no next page.
pub open spec fn advanced(
    policy: Pagination,
    state: PageState,
    last_page_size: usize,
    next_url: Option<url::Url>,
) -> PageState {
    let total = saturating_sum(state.total, last_page_size);
    PageState {
        total,
        next_page: if policy.spec_is_last_page(last_page_size as nat, total as nat) {
            PageCursor::Done
        } else {
            match next_url {
                Some(url) => PageCursor::Next(url),
                None => PageCursor::Done,
            }
        },
    }
}

/// The state in which every walk starts.
pub open spec fn initial_state() -> PageState {
    PageState { total: 0, next_page: PageCursor::First }
}

/// The two parameters that ask for the first page of a walk.
pub open spec fn page_pairs(policy: Pagination) -> Seq<Pair> {
    seq![("offset"@, decimal(policy.spec_offset())), ("limit"@, decimal(policy.spec_limit()))]
}

/// Whether `r` is how the URL of the first page may come out: the URL of
/// the endpoint with `offset` and `limit` added to its query.
pub open spec fn first_url<E: Endpoint, C: RestClient>(
    paged: Paged<E>,
    client: &C,
    r: Result<url::Url, ApiError<C::Error>>,
) -> bool {
    exists|target: Result<url::Url, ApiError<C::Error>>|
        #[trigger] url_outcome(&paged.endpoint, client, target) && with_pairs(
            target,
            page_pairs(paged.pagination),
            r,
        )
}

/// Whether `r` is how the URL to fetch from may come out at `cursor`.
pub open spec fn cursor_url<E: Endpoint, C: RestClient>(
    paged: Paged<E>,
    client: &C,
    cursor: PageCursor,
    r: Result<url::Url, ApiError<C::Error>>,
) -> bool {
    match cursor {
        PageCursor::First => first_url(paged, client, r),
        PageCursor::Next(url) => r matches Ok(u) && u == url,
        PageCursor::Done => false,
    }
}

/// Whether `after` is the state that follows `before` once `page` has been
/// received: its items are counted and its `next` link, parsed as a URL,
/// is where the walk goes on.
pub open spec fn follows<T>(policy: Pagination, before: PageState, page: Page<T>, after: PageState) -> bool {
    match page.next {
        None => after == advanced(policy, before, page.items.len(), None),
        Some(text) => exists|url: url::Url|
            normalized(text@) == Some(#[trigger] url_text(url)) && after == advanced(
                policy,
                before,
                page.items.len(),
                Some(url),
            ),
    }
}

/// Whether the `next` link of `page` is no URL.
pub open spec fn has_bad_link<T>(page: Page<T>) -> bool {
    page.next matches Some(text) && normalized(text@) is None
}

/// One successful step of a walk: from the state `before`, the page `page`
/// was fetched from `url`, which left the state `after`.
pub open spec fn lap<E: Endpoint, T: FromJson, C: Client>(
    paged: Paged<E>,
    client: &C,
    before: PageState,
    url: url::Url,
    page: Page<T>,
    after: PageState,
) -> bool {
    &&& cursor_url(paged, client, before.next_page, Ok(url))
    &&& typed_at::<E, Page<T>, C>(&paged.endpoint, client, url, Ok(page))
    &&& follows(paged.pagination, before, page, after)
}

/// One failing step of a walk from the state `before`: no URL could be
/// made, the fetch from it failed, or the page named a next link that is no
/// URL.
pub open spec fn failed_lap<E: Endpoint, T: FromJson, C: Client>(
    paged: Paged<E>,
    client: &C,
    before: PageState,
    error: ApiError<C::Error>,
) -> bool {
    ||| cursor_url(paged, client, before.next_page, Err(error))
    ||| exists|url: url::Url|
        cursor_url(paged, client, before.next_page, Ok(url)) && #[trigger] typed_at::<
            E,
            Page<T>,
            C,
        >(&paged.endpoint, client, url, Err(error))
    ||| exists|url: url::Url, page: Page<T>|
        cursor_url(paged, client, before.next_page, Ok(url)) && #[trigger] typed_at::<
            E,
            Page<T>,
            C,
        >(&paged.endpoint, client, url, Ok(page)) && has_bad_link(page) && error is UrlParse
}

/// Whether `r` and `after` are how fetching the next page may come out in
/// the state `before`. A walk that is done fetches nothing and gives no
/// items; a step that fails leaves the state as it was.
pub open spec fn fetched<E: Endpoint, T: FromJson, C: Client>(
    paged: Paged<E>,
    client: &C,
    before: PageState,
    r: Result<Vec<T>, ApiError<C::Error>>,
    after: PageState,
) -> bool {
    if before.next_page is Done {
        r matches Ok(items) && items@.len() == 0 && after == before
    } else {
        match r {
            Ok(items) => exists|url: url::Url, page: Page<T>|
                #[trigger] lap(paged, client, before, url, page, after) && items == page.items,
            Err(error) => after == before && failed_lap::<E, T, C>(paged, client, before, error),
        }
    }
}

/// The bookkeeping of a walk over the pages of an endpoint.
pub struct LazilyPagedState<E> {
    pub paged: Paged<E>,
    pub page_state: PageState,
}

impl<E> LazilyPagedState<E> {
    /// The state before the first page.
    pub fn new(paged: Paged<E>) -> (r: Self)
        ensures
            r.paged == paged,
            r.page_state == initial_state(),
    {
        LazilyPagedState { paged, page_state: PageState { total: 0, next_page: PageCursor::First } }
    }

    /// Takes note of a page of `last_page_size` items whose envelope named
    /// `next_url`.
    pub fn next_page(&mut self, last_page_size: usize, next_url: Option<url::Url>)
        ensures
            final(self).paged == old(self).paged,
            final(self).page_state == advanced(
                old(self).paged.pagination,
                old(self).page_state,
                last_page_size,
                next_url,
            ),
    {
        let total = if last_page_size <= usize::MAX - self.page_state.total {
            self.page_state.total + last_page_size
        } else {
            usize::MAX
        };
        let next_page = if self.paged.pagination.is_last_page(last_page_size, total) {
            PageCursor::Done
        } else {
            match next_url {
                Some(url) => PageCursor::Next(url),
                None => PageCursor::Done,
            }
        };
        self.page_state = PageState { total, next_page };
    }
}

impl<E: Endpoint> LazilyPagedState<E> {
    /// The URL to fetch the next page from, or `None` where the walk is
    /// done.
    pub fn page_url<C: RestClient>(&self, client: &C) -> (r: Result<Option<url::Url>, ApiError<C::Error>>)
        ensures
            self.page_state.next_page is Done ==> r matches Ok(None),
            !(self.page_state.next_page is Done) ==> match r {
                Ok(Some(url)) => cursor_url(self.paged, client, self.page_state.next_page, Ok(url)),
                Ok(None) => false,
                Err(e) => cursor_url(self.paged, client, self.page_state.next_page, Err(e)),
            },
    {
        if self.page_state.next_page.is_done() {
            return Ok(None);
        }
        match self.page_state.next_page.next_url() {
            Some(url) => Ok(Some(clone_url(url))),
            None => {
                let target = endpoint_url(&self.paged.endpoint, client);
                let ghost seen = target;
                let r = match target {
                    Err(e) => Err(e),
                    Ok(url) => {
                        let mut url = url;
                        let mut pairs: Vec<(String, String)> = Vec::new();
                        pairs.push(
                            (String::from_str("offset"), usize_to_string(self.paged.pagination.offset())),
                        );
                        pairs.push(
                            (String::from_str("limit"), usize_to_string(self.paged.pagination.limit())),
                        );
                        assert(pairs_view(pairs@) =~= page_pairs(self.paged.pagination));
                        if extend_pairs(&mut url, &pairs) {
                            Ok(url)
                        } else {
                            Err(ApiError::UrlParse { source: overflow_error() })
                        }
                    },
                };
                assert(url_outcome(&self.paged.endpoint, client, seen) && with_pairs(
                    seen,
                    page_pairs(self.paged.pagination),
                    r,
                ));
                match r {
                    Ok(url) => Ok(Some(url)),
                    Err(e) => Err(e),
                }
            },
        }
    }

    /// Builds the request for the page at `url`.
    pub fn build_request<X>(&self, url: url::Url) -> (r: Result<Request, ApiError<X>>)
        ensures
            request_outcome(&self.paged.endpoint, url, r),
    {
        request_for::<E, X>(&self.paged.endpoint, url)
    }

    /// Decodes the page that `response` holds and takes note of it.
    pub fn process_response<T: FromJson, X>(&mut self, response: &Response) -> (r: Result<
        Page<T>,
        ApiError<X>,
    >)
        ensures
            final(self).paged == old(self).paged,
            exists|decoded: Result<Page<T>, ApiError<X>>|
                #[trigger] typed_outcome(*response, decoded) && match decoded {
                    Err(e) => r matches Err(e2) && e2 == e && final(self).page_state == old(
                        self,
                    ).page_state,
                    Ok(page) => if has_bad_link(page) {
                        r matches Err(e) && e is UrlParse && final(self).page_state == old(
                            self,
                        ).page_state
                    } else {
                        r matches Ok(p) && p == page && follows(
                            old(self).paged.pagination,
                            old(self).page_state,
                            page,
                            final(self).page_state,
                        )
                    },
                },
    {
        let decoded = parse_response::<Page<T>, X>(response);
        let ghost seen = decoded;
        match decoded {
            Err(e) => {
                assert(typed_outcome(*response, seen));
                Err(e)
            },
            Ok(page) => {
                let next_url = match &page.next {
                    None => None,
                    Some(text) => match parse_url(text.as_str()) {
                        Ok(url) => Some(url),
                        Err(source) => {
                            assert(typed_outcome(*response, seen));
                            return Err(ApiError::UrlParse { source });
                        },
                    },
                };
                self.next_page(page.items.len(), next_url);
                assert(typed_outcome(*response, seen));
                Ok(page)
            },
        }
    }
}

impl<E: Endpoint + Pageable> LazilyPagedState<E> {
    /// Fetches the next page of the walk and gives its items; none where
    /// the walk is done.
    pub fn query<T: FromJson, C: Client>(&mut self, client: &C) -> (r: Result<
        Vec<T>,
        ApiError<C::Error>,
    >)
        ensures
            final(self).paged == old(self).paged,
            fetched(old(self).paged, client, old(self).page_state, r, final(self).page_state),
    {
        let ghost paged = self.paged;
        let ghost before = self.page_state;
        let url = match self.page_url(client) {
            Err(e) => {
                return Err(e);
            },
            Ok(None) => {
                return Ok(Vec::new());
            },
            Ok(Some(url)) => url,
        };
        let request = match self.build_request::<C::Error>(url) {
            Err(e) => {
                proof {
                    let answer: Result<Response, ApiError<C::Error>> = Err(e);
                    assert(crate::api::query::exchange(&paged.endpoint, client, url, answer));
                    assert(typed_at::<E, Page<T>, C>(&paged.endpoint, client, url, Err(e)));
                }
                return Err(e);
            },
            Ok(request) => request,
        };
        let ghost sent = request;
        let answer = client.rest(request);
        proof {
            assert(client.answers(sent, answer));
            assert(crate::api::query::exchange(&paged.endpoint, client, url, answer));
        }
        let response = match answer {
            Err(e) => {
                proof {
                    assert(typed_at::<E, Page<T>, C>(&paged.endpoint, client, url, Err(e)));
                }
                return Err(e);
            },
            Ok(response) => response,
        };
        let page_r = self.process_response::<T, C::Error>(&response);
        proof {
            let decoded = choose|decoded: Result<Page<T>, ApiError<C::Error>>|
                #[trigger] typed_outcome(response, decoded) && match decoded {
                    Err(e) => page_r matches Err(e2) && e2 == e && self.page_state == before,
                    Ok(page) => if has_bad_link(page) {
                        page_r matches Err(e) && e is UrlParse && self.page_state == before
                    } else {
                        page_r matches Ok(p) && p == page && follows(
                            paged.pagination,
                            before,
                            page,
                            self.page_state,
                        )
                    },
                };
            assert(typed_at::<E, Page<T>, C>(&paged.endpoint, client, url, decoded));
            match decoded {
                Err(e) => {},
                Ok(page) => {
                    if has_bad_link(page) {
                    } else {
                        assert(lap(paged, client, before, url, page, self.page_state));
                    }
                },
            }
        }
        match page_r {
            Err(e) => Err(e),
            Ok(page) => Ok(page.items),
        }
    }
}

/// `items` in the opposite order.
fn reversed<T>(items: Vec<T>) -> (r: Vec<T>)
    ensures
        r@ == items@.reverse(),
{
    let ghost all = items@;
    let mut rest = items;
    let mut out: Vec<T> = Vec::new();
    while rest.len() > 0
        invariant
            rest.len() + out.len() == all.len(),
            rest@ == all.take(rest.len() as int),
            forall|k: int| 0 <= k < out.len() ==> #[trigger] out@[k] == all[all.len() - 1 - k],
        decreases rest.len(),
    {
        let ghost n = rest.len() as int;
        let item = rest.pop().unwrap();
        out.push(item);
        assert(rest@ =~= all.take(n - 1));
    }
    assert(out@ =~= all.reverse());
    out
}

/// An iterator which yields items from a paginated result.
///
/// The pages are fetched lazily, one request at a time: a request is made
/// only when the items of the page at hand have all been yielded and the
/// walk is not done.
pub struct LazilyPagedIter<'a, E, C, T> {
    client: &'a C,
    state: LazilyPagedState<E>,
    current_page: Vec<T>,
}

impl<'a, E: Endpoint + Pageable, C: Client, T: FromJson> LazilyPagedIter<'a, E, C, T> {
    /// The client that the pages are fetched with.
    pub closed spec fn spec_client(&self) -> &'a C {
        self.client
    }

    /// The endpoint and the policy of the walk.
    pub closed spec fn spec_paged(&self) -> Paged<E> {
        self.state.paged
    }

    /// How far the walk has come.
    pub closed spec fn page_state(&self) -> PageState {
        self.state.page_state
    }

    /// The items of the page at hand that are still to be yielded, in the
    /// order of the page.
    pub closed spec fn pending(&self) -> Seq<T> {
        self.current_page@.reverse()
    }

    /// Whether `out` and `after` are how one step from `before` may come
    /// out. While the page at hand has items, the first of them is yielded
    /// and nothing is fetched. Otherwise the next page is fetched: its first
    /// item is yielded, or the sequence ends where it has none, or the error
    /// of the fetch is yielded.
    pub open spec fn stepped(
        before: Self,
        out: Option<Result<T, ApiError<C::Error>>>,
        after: Self,
    ) -> bool {
        &&& after.spec_client() == before.spec_client()
        &&& after.spec_paged() == before.spec_paged()
        &&& if before.pending().len() > 0 {
            &&& out matches Some(Ok(item)) && item == before.pending()[0]
            &&& after.pending() == before.pending().drop_first()
            &&& after.page_state() == before.page_state()
        } else {
            exists|page: Result<Vec<T>, ApiError<C::Error>>|
                #[trigger] fetched(
                    before.spec_paged(),
                    before.spec_client(),
                    before.page_state(),
                    page,
                    after.page_state(),
                ) && match page {
                    Err(e) => out matches Some(Err(e2)) && e2 == e && after.pending().len() == 0,
                    Ok(items) => if items@.len() == 0 {
                        out is None && after.pending().len() == 0
                    } else {
                        out matches Some(Ok(item)) && item == items@[0] && after.pending()
                            == items@.drop_first()
                    },
                }
        }
    }

    /// An iterator at the start of the walk.
    pub fn new(paged: Paged<E>, client: &'a C) -> (r: Self)
        ensures
            r.spec_client() == client,
            r.spec_paged() == paged,
            r.page_state() == initial_state(),
            r.pending().len() == 0,
    {
        LazilyPagedIter { client, state: LazilyPagedState::new(paged), current_page: Vec::new() }
    }

    /// The next item of the sequence, `None` at its end.
    pub fn next(&mut self) -> (out: Option<Result<T, ApiError<C::Error>>>)
        ensures
            Self::stepped(*old(self), out, *final(self)),
    {
        let ghost before = *self;
        if self.current_page.len() == 0 {
            let fetch = self.state.query::<T, C>(self.client);
            let ghost seen = fetch;
            match fetch {
                Ok(data) => {
                    self.current_page = reversed(data);
                    proof {
                        assert(self.pending() =~= data@);
                    }
                },
                Err(err) => {
                    proof {
                        assert(fetched(
                            before.spec_paged(),
                            before.spec_client(),
                            before.page_state(),
                            seen,
                            self.page_state(),
                        ));
                    }
                    return Some(Err(err));
                },
            }
            let ghost full = self.current_page@;
            let out = match self.current_page.pop() {
                Some(item) => Some(Ok(item)),
                None => None,
            };
            proof {
                assert(fetched(
                    before.spec_paged(),
                    before.spec_client(),
                    before.page_state(),
                    seen,
                    self.page_state(),
                ));
                if full.len() > 0 {
                    assert(self.pending() =~= full.reverse().drop_first());
                }
            }
            out
        } else {
            let ghost full = self.current_page@;
            let out = match self.current_page.pop() {
                Some(item) => Some(Ok(item)),
                None => None,
            };
            proof {
                assert(self.pending() =~= full.reverse().drop_first());
            }
            out
        }
    }
}

impl<E: Endpoint + Pageable> Paged<E> {
    /// Create an iterator over the results of paginated results for with a
    /// client.
    pub fn iter<'a, C: Client, T: FromJson>(&'a self, client: &'a C) -> (r: LazilyPagedIter<
        'a,
        &'a E,
        C,
        T,
    >)
        ensures
            r.spec_client() == client,
            r.spec_paged() == (Paged { endpoint: &self.endpoint, pagination: self.pagination }),
            r.page_state() == initial_state(),
            r.pending().len() == 0,
    {
        let borrowed = Paged { endpoint: &self.endpoint, pagination: self.pagination };
        LazilyPagedIter::new(borrowed, client)
    }

    /// Create an iterator over the results of paginated results for with a
    /// client.
    pub fn into_lazy_iter<'a, C: Client, T: FromJson>(self, client: &'a C) -> (r: LazilyPagedIter<
        'a,
        E,
        C,
        T,
    >)
        ensures
            r.spec_client() == client,
            r.spec_paged() == self,
            r.page_state() == initial_state(),
            r.pending().len() == 0,
    {
        LazilyPagedIter::new(self, client)
    }
}

} // verus!
