//! Collecting every page of an endpoint into one list.

use vstd::prelude::*;
use crate::api::client::Client;
use crate::api::endpoint::{Endpoint, Pageable};
use crate::api::error::ApiError;
use crate::api::paged::lazy::{
    failed_lap, fetched, follows, initial_state, lap, LazilyPagedIter, PageState,
};
use crate::api::paged::{Pagination, MAX_LIMIT};
use crate::api::query::Query;
use crate::decode::FromJson;
use crate::model::Page;

verus! {

/// A query modifier that paginates an endpoint.
#[derive(Debug, Clone, Copy, PartialEq, Eq)]
pub struct Paged<E> {
    pub endpoint: E,
    pub pagination: Pagination,
}

/// Collect data from a paged endpoint.
///
/// Use this for fine-grained control over pagination behavior. For common
/// use cases, prefer [`paged_all`] or [`paged_with_limit`].
pub fn paged<E>(endpoint: E, pagination: Pagination) -> (r: Paged<E>)
    ensures
        r.endpoint == endpoint,
        r.pagination == pagination,
{
    Paged { endpoint, pagination }
}

/// Collect all data from a paged endpoint.
///
/// This will make multiple API requests as needed to fetch all available
/// items.
pub fn paged_all<E>(endpoint: E) -> (r: Paged<E>)
    ensures
        r.endpoint == endpoint,
        r.pagination == Pagination::All,
{
    paged(endpoint, Pagination::All)
}

/// The smaller of `limit` and [`MAX_LIMIT`].
pub open spec fn capped(limit: usize) -> usize {
    if limit <= MAX_LIMIT {
        limit
    } else {
        MAX_LIMIT
    }
}

/// Collect a limited amount of data from a paged endpoint.
///
/// If the limit is greater than the maximum limit of 50, the maximum limit
/// will be used.
pub fn paged_with_limit<E>(endpoint: E, limit: usize) -> (r: Paged<E>)
    ensures
        r.endpoint == endpoint,
        r.pagination == Pagination::Limit(capped(limit)),
{
    let limit = if limit <= MAX_LIMIT {
        limit
    } else {
        MAX_LIMIT
    };
    paged(endpoint, Pagination::Limit(limit))
}

/// Collect a limited amount of data from a paged endpoint starting at an
/// offset.
///
/// If the limit is greater than the maximum limit of 50, the maximum limit
/// will be used.
pub fn paged_with_limit_and_offset<E>(endpoint: E, limit: usize, offset: usize) -> (r: Paged<E>)
    ensures
        r.endpoint == endpoint,
        r.pagination == (Pagination::Page { limit: capped(limit), offset }),
{
    let limit = if limit <= MAX_LIMIT {
        limit
    } else {
        MAX_LIMIT
    };
    paged(endpoint, Pagination::Page { limit, offset })
}

/// The record of one successful step of a walk: where the page was fetched
/// from, the page, and the state that it left.
pub struct Lap<T> {
    pub url: url::Url,
    pub page: Page<T>,
    pub after: PageState,
}

/// The state of a walk from `start` before its step `i`.
pub open spec fn state_before<T>(start: PageState, laps: Seq<Lap<T>>, i: int) -> PageState {
    if i <= 0 {
        start
    } else {
        laps[i - 1].after
    }
}

/// The state of a walk from `start` after all of `laps`.
pub open spec fn state_after<T>(start: PageState, laps: Seq<Lap<T>>) -> PageState {
    state_before(start, laps, laps.len() as int)
}

/// Whether `laps` are the successive steps of one walk with `client`: each
/// starts in the state that the one before it left, the first in the state
/// `start`.
pub open spec fn chained<E: Endpoint, T: FromJson, C: Client>(
    paged: Paged<E>,
    client: &C,
    start: PageState,
    laps: Seq<Lap<T>>,
) -> bool {
    forall|i: int|
        0 <= i < laps.len() ==> lap(
            paged,
            client,
            state_before(start, laps, i),
            (#[trigger] laps[i]).url,
            laps[i].page,
            laps[i].after,
        )
}

/// The items of the pages of `laps`, page after page, each page in its own
/// order.
pub open spec fn gathered<T>(laps: Seq<Lap<T>>) -> Seq<T>
    decreases laps.len(),
{
    if laps.len() == 0 {
        Seq::empty()
    } else {
        gathered(laps.drop_last()) + laps.last().page.items@
    }
}

/// Whether `r` is how walking on from the state `start`, with the items
/// `pending` of the page at hand still to come, may come out with `client`.
///
/// A list of items is the result of a walk that ended with nothing more to
/// fetch: the pending items, then the items of its pages in the order in
/// which they came. An error is the failure of the step that followed some
/// walk. Pages are fetched one after the other, each from where the one
/// before it pointed.
pub open spec fn drained<E: Endpoint, T: FromJson, C: Client>(
    paged: Paged<E>,
    client: &C,
    start: PageState,
    pending: Seq<T>,
    r: Result<Vec<T>, ApiError<C::Error>>,
) -> bool {
    match r {
        Ok(items) => exists|laps: Seq<Lap<T>>|
            #[trigger] chained(paged, client, start, laps) && state_after(
                start,
                laps,
            ).next_page is Done && items@ == pending + gathered(laps),
        Err(error) => exists|laps: Seq<Lap<T>>|
            #[trigger] chained(paged, client, start, laps) && failed_lap::<E, T, C>(
                paged,
                client,
                state_after(start, laps),
                error,
            ),
    }
}

/// Whether `r` is how collecting the pages of `paged` may come out with
/// `client`: a walk from the start, see [`drained`].
pub open spec fn collected<E: Endpoint, T: FromJson, C: Client>(
    paged: Paged<E>,
    client: &C,
    r: Result<Vec<T>, ApiError<C::Error>>,
) -> bool {
    drained(paged, client, initial_state(), Seq::empty(), r)
}

/// A walk goes on by one more step.
pub proof fn lemma_chain_grows<E: Endpoint, T: FromJson, C: Client>(
    paged: Paged<E>,
    client: &C,
    start: PageState,
    laps: Seq<Lap<T>>,
    url: url::Url,
    page: Page<T>,
    after: PageState,
)
    requires
        chained(paged, client, start, laps),
        lap(paged, client, state_after(start, laps), url, page, after),
    ensures
        chained(paged, client, start, laps.push(Lap { url, page, after })),
        state_after(start, laps.push(Lap { url, page, after })) == after,
        gathered(laps.push(Lap { url, page, after })) == gathered(laps) + page.items@,
{
    let more = laps.push(Lap { url, page, after });
    assert(more.drop_last() =~= laps);
    assert forall|i: int| 0 <= i < more.len() implies lap(
        paged,
        client,
        state_before(start, more, i),
        (#[trigger] more[i]).url,
        more[i].page,
        more[i].after,
    ) by {
        if i < laps.len() {
            assert(more[i] == laps[i]);
            assert(state_before(start, more, i) == state_before(start, laps, i));
        }
    }
}

/// A page without items ends the walk, whatever the policy.
pub proof fn lemma_empty_page_ends<T>(policy: Pagination, before: PageState, page: Page<T>, after: PageState)
    requires
        follows(policy, before, page, after),
        page.items@.len() == 0,
    ensures
        after.next_page is Done,
{
}

impl<'a, E: Endpoint + Pageable, C: Client, T: FromJson> LazilyPagedIter<'a, E, C, T> {
    /// Walks to the end and collects the items that are yielded on the way;
    /// the first error ends the walk.
    pub fn collect(self) -> (r: Result<Vec<T>, ApiError<C::Error>>)
        ensures
            drained(self.spec_paged(), self.spec_client(), self.page_state(), self.pending(), r),
    {
        let mut iter = self;
        let ghost paged = iter.spec_paged();
        let ghost client = iter.spec_client();
        let ghost start = iter.page_state();
        let ghost first = iter.pending();
        let ghost mut laps: Seq<Lap<T>> = Seq::empty();
        let mut results: Vec<T> = Vec::new();
        assert(results@ + iter.pending() =~= first + gathered(laps));
        loop
            invariant
                paged == self.spec_paged(),
                client == self.spec_client(),
                start == self.page_state(),
                first == self.pending(),
                iter.spec_client() == client,
                iter.spec_paged() == paged,
                chained(paged, client, start, laps),
                iter.page_state() == state_after(start, laps),
                results@ + iter.pending() == first + gathered(laps),
            decreases usize::MAX - results.len(),
        {
            let ghost before = iter;
            let ghost had = results@;
            let ghost so_far = gathered(laps);
            let out = iter.next();
            proof {
                if before.pending().len() == 0 {
                    let fetch = choose|fetch: Result<Vec<T>, ApiError<C::Error>>|
                        #[trigger] fetched(paged, client, before.page_state(), fetch, iter.page_state())
                            && match fetch {
                            Err(e) => out matches Some(Err(e2)) && e2 == e && iter.pending().len() == 0,
                            Ok(items) => if items@.len() == 0 {
                                out is None && iter.pending().len() == 0
                            } else {
                                out matches Some(Ok(item)) && item == items@[0] && iter.pending()
                                    == items@.drop_first()
                            },
                        };
                    assert(had + before.pending() =~= had);
                    match fetch {
                        Err(e) => {},
                        Ok(items) => {
                            if before.page_state().next_page is Done {
                            } else {
                                let (url, page) = choose|url: url::Url, page: Page<T>|
                                    #[trigger] lap(
                                        paged,
                                        client,
                                        before.page_state(),
                                        url,
                                        page,
                                        iter.page_state(),
                                    ) && items == page.items;
                                lemma_chain_grows(
                                    paged,
                                    client,
                                    start,
                                    laps,
                                    url,
                                    page,
                                    iter.page_state(),
                                );
                                if items@.len() == 0 {
                                    lemma_empty_page_ends(
                                        paged.pagination,
                                        before.page_state(),
                                        page,
                                        iter.page_state(),
                                    );
                                }
                                laps = laps.push(Lap { url, page, after: iter.page_state() });
                                assert(first + (so_far + items@) =~= (first + so_far) + items@);
                                if items@.len() > 0 {
                                    assert(had.push(items@[0]) + items@.drop_first() =~= had + items@);
                                } else {
                                    assert(had + items@ =~= had);
                                }
                            }
                        },
                    }
                } else {
                    assert(had.push(before.pending()[0]) + before.pending().drop_first() =~= had
                        + before.pending());
                }
            }
            match out {
                None => {
                    proof {
                        assert(had + iter.pending() =~= had);
                    }
                    return Ok(results);
                },
                Some(Ok(item)) => {
                    results.push(item);
                },
                Some(Err(err)) => {
                    return Err(err);
                },
            }
        }
    }
}

impl<E: Endpoint + Pageable, T: FromJson, C: Client> Query<Vec<T>, C> for Paged<E> {
    open spec fn outcome(&self, client: &C, r: Result<Vec<T>, ApiError<C::Error>>) -> bool {
        collected(Paged { endpoint: &self.endpoint, pagination: self.pagination }, client, r)
    }

    fn query(&self, client: &C) -> (r: Result<Vec<T>, ApiError<C::Error>>) {
        let iter = self.iter::<C, T>(client);
        assert(iter.pending() =~= Seq::<T>::empty());
        iter.collect()
    }
}

} // verus!
