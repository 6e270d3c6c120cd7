//! What a walk over the pages of an endpoint returns when the service
//! serves a fixed list of items page by page.

use vstd::prelude::*;
use crate::api::client::Client;
use crate::api::endpoint::Endpoint;
use crate::api::error::ApiError;
use crate::api::paged::all_at_once::{
    chained, collected, gathered, state_after, state_before, Lap, Paged,
};
use crate::api::paged::lazy::{
    advanced, cursor_url, failed_lap, first_url, initial_state, lap, saturating_sum, PageCursor,
};
use crate::api::paged::{Pagination, MAX_LIMIT};
use crate::api::query::typed_at;
use crate::decode::FromJson;
use crate::model::Page;
use crate::urls::{normalized, url_text};

verus! {

/// The deep views of a list of items.
pub open spec fn deep<T: DeepView>(items: Seq<T>) -> Seq<T::V> {
    items.map_values(|item: T| item.deep_view())
}

/// The smaller of two numbers.
pub open spec fn least(a: nat, b: nat) -> nat {
    if a <= b {
        a
    } else {
        b
    }
}

/// The items of `data` that a request for `limit` items from `offset` on is
/// answered with: as many as there are.
pub open spec fn window_items<V>(data: Seq<V>, offset: nat, limit: nat) -> Seq<V> {
    data.subrange(least(offset, data.len()) as int, least(offset + limit, data.len()) as int)
}

/// Whether `page` is the answer to a request for the window of `url` into
/// `data`: it holds the items of the window, and it names a next page, for
/// the window that follows, exactly where items remain beyond it.
pub open spec fn is_page_of<T: DeepView>(
    data: Seq<T::V>,
    window_of: spec_fn(url::Url) -> (nat, nat),
    url: url::Url,
    page: Page<T>,
) -> bool {
    let (offset, limit) = window_of(url);
    &&& deep(page.items@) == window_items(data, offset, limit)
    &&& if offset + limit < data.len() {
        page.next matches Some(text) && normalized(text@) is Some && (forall|next: url::Url|
            normalized(text@) == Some(#[trigger] url_text(next)) ==> window_of(next) == (
                offset + limit,
                limit,
            ))
    } else {
        page.next is None
    }
}

/// Whether `client` serves the list `data` page by page to the walks of
/// `paged`, where `window_of` is the offset and the limit that the service
/// reads from a URL: the URL of the first page is always made, and asks for
/// the offset and the page size of the policy; every fetch succeeds, with
/// the page for the window of its URL.
pub open spec fn serves<E: Endpoint, T: FromJson + DeepView, C: Client>(
    paged: Paged<E>,
    client: &C,
    data: Seq<T::V>,
    window_of: spec_fn(url::Url) -> (nat, nat),
) -> bool {
    &&& forall|r: Result<url::Url, ApiError<C::Error>>| #[trigger]
        first_url(paged, client, r) ==> (r matches Ok(url) && window_of(url) == (
            paged.pagination.spec_offset(),
            paged.pagination.spec_limit(),
        ))
    &&& forall|url: url::Url, r: Result<Page<T>, ApiError<C::Error>>| #[trigger]
        typed_at::<E, Page<T>, C>(&paged.endpoint, client, url, r) ==> (r matches Ok(page)
            && is_page_of(data, window_of, url, page))
}

/// The offset that step `k` of a walk asks for: each step moves on by one
/// page.
pub open spec fn reach(policy: Pagination, k: nat) -> nat
    decreases k,
{
    if k == 0 {
        policy.spec_offset()
    } else {
        reach(policy, (k - 1) as nat) + policy.spec_limit()
    }
}

/// [`serves`], kept folded.
#[verifier::opaque]
spec fn serves_folded<E: Endpoint, T: FromJson + DeepView, C: Client>(
    paged: Paged<E>,
    client: &C,
    data: Seq<T::V>,
    window_of: spec_fn(url::Url) -> (nat, nat),
) -> bool {
    serves::<E, T, C>(paged, client, data, window_of)
}

/// [`chained`], kept folded.
#[verifier::opaque]
spec fn chained_folded<E: Endpoint, T: FromJson, C: Client>(
    paged: Paged<E>,
    client: &C,
    laps: Seq<Lap<T>>,
) -> bool {
    chained(paged, client, initial_state(), laps)
}

proof fn lemma_reach_step(policy: Pagination, k: nat)
    ensures
        reach(policy, k + 1) == reach(policy, k) + policy.spec_limit(),
        reach(policy, 0) == policy.spec_offset(),
        reach(policy, k) >= policy.spec_offset(),
    decreases k,
{
    if k > 0 {
        lemma_reach_step(policy, (k - 1) as nat);
    }
}

proof fn lemma_reach_product(policy: Pagination, k: nat)
    ensures
        reach(policy, k) == policy.spec_offset() + k * policy.spec_limit(),
    decreases k,
{
    if k > 0 {
        lemma_reach_product(policy, (k - 1) as nat);
        assert(k * policy.spec_limit() == (k - 1) * policy.spec_limit() + policy.spec_limit())
            by (nonlinear_arith)
            requires
                k >= 1,
        ;
    } else {
        assert(0 * policy.spec_limit() == 0) by (nonlinear_arith);
    }
}

proof fn lemma_gathered_take<T>(laps: Seq<Lap<T>>, k: int)
    requires
        0 <= k < laps.len(),
    ensures
        gathered(laps.take(k + 1)) == gathered(laps.take(k)) + laps[k].page.items@,
{
    assert(laps.take(k + 1).drop_last() =~= laps.take(k));
    assert(laps.take(k + 1).last() == laps[k]);
}

proof fn lemma_gather_step<T: DeepView>(
    data: Seq<T::V>,
    start: int,
    middle: int,
    end: int,
    before: Seq<T>,
    items: Seq<T>,
)
    requires
        0 <= start <= middle <= end <= data.len(),
        deep(before) == data.subrange(start, middle),
        deep(items) == data.subrange(middle, end),
    ensures
        deep(before + items) == data.subrange(start, end),
        items.len() == end - middle,
{
    assert(deep(before + items) =~= deep(before) + deep(items));
    assert(data.subrange(start, middle) + data.subrange(middle, end) =~= data.subrange(start, end));
    assert(deep(items).len() == items.len());
}

/// One step of a walk against a service that serves `data`.
proof fn lemma_step<E: Endpoint, T: FromJson + DeepView, C: Client>(
    paged: Paged<E>,
    client: &C,
    data: Seq<T::V>,
    window_of: spec_fn(url::Url) -> (nat, nat),
    laps: Seq<Lap<T>>,
    i: int,
)
    requires
        serves_folded::<E, T, C>(paged, client, data, window_of),
        chained_folded(paged, client, laps),
        0 <= i < laps.len(),
    ensures
        state_before(initial_state(), laps, i).next_page is First ==> window_of(laps[i].url) == (
            paged.pagination.spec_offset(),
            paged.pagination.spec_limit(),
        ),
        state_before(initial_state(), laps, i).next_page matches PageCursor::Next(u) ==> u == laps[i].url,
        !(state_before(initial_state(), laps, i).next_page is Done),
        deep(laps[i].page.items@) == window_items(
            data,
            window_of(laps[i].url).0,
            window_of(laps[i].url).1,
        ),
        laps[i].after.total == saturating_sum(state_before(initial_state(), laps, i).total, laps[i].page.items.len()),
        laps[i].after.next_page is Done <==> (paged.pagination.spec_is_last_page(
            laps[i].page.items.len() as nat,
            laps[i].after.total as nat,
        ) || window_of(laps[i].url).0 + window_of(laps[i].url).1 >= data.len()),
        laps[i].after.next_page matches PageCursor::Next(next) ==> window_of(next) == (
            window_of(laps[i].url).0 + window_of(laps[i].url).1,
            window_of(laps[i].url).1,
        ),
        !(laps[i].after.next_page is First),
{
    reveal(serves_folded);
    reveal(chained_folded);
    let step = laps[i];
    let before = state_before(initial_state(), laps, i);
    let policy = paged.pagination;
    assert(lap(paged, client, before, step.url, step.page, step.after));
    assert(typed_at::<E, Page<T>, C>(&paged.endpoint, client, step.url, Ok(step.page)));
    assert(is_page_of(data, window_of, step.url, step.page));
    if before.next_page is First {
        assert(first_url(paged, client, Ok(step.url)));
    }
    match step.page.next {
        None => {},
        Some(text) => {
            let next = choose|next: url::Url|
                normalized(text@) == Some(#[trigger] url_text(next)) && step.after == advanced(
                    policy,
                    before,
                    step.page.items.len(),
                    Some(next),
                );
        },
    }
}

/// The shape of a walk against a service that serves `data`: step `k` asks
/// for the window at `reach(k)`, the `k` steps before it have gathered the
/// items from the offset of the policy up to there, and the walk was done
/// after them exactly where the policy or the end of the data said so.
proof fn lemma_walk<E: Endpoint, T: FromJson + DeepView, C: Client>(
    paged: Paged<E>,
    client: &C,
    data: Seq<T::V>,
    window_of: spec_fn(url::Url) -> (nat, nat),
    laps: Seq<Lap<T>>,
    k: nat,
)
    requires
        serves_folded::<E, T, C>(paged, client, data, window_of),
        chained_folded(paged, client, laps),
        k <= laps.len(),
        data.len() <= usize::MAX,
    ensures
        k < laps.len() ==> window_of(laps[k as int].url) == (
            reach(paged.pagination, k),
            paged.pagination.spec_limit(),
        ),
        deep(gathered(laps.take(k as int))) == data.subrange(
            least(paged.pagination.spec_offset(), data.len()) as int,
            least(reach(paged.pagination, k), data.len()) as int,
        ),
        state_before(initial_state(), laps, k as int).total == least(reach(paged.pagination, k), data.len()) - least(
            paged.pagination.spec_offset(),
            data.len(),
        ),
        1 <= k < laps.len() ==> reach(paged.pagination, k) < data.len(),
        k >= 1 ==> (state_before(initial_state(), laps, k as int).next_page is Done <==> (
            paged.pagination.spec_is_last_page(
            (least(reach(paged.pagination, k), data.len()) - least(
                reach(paged.pagination, (k - 1) as nat),
                data.len(),
            )) as nat,
            (least(reach(paged.pagination, k), data.len()) - least(
                paged.pagination.spec_offset(),
                data.len(),
            )) as nat,
        ) || reach(paged.pagination, k) >= data.len())),
        k >= 1 ==> !(state_before(initial_state(), laps, k as int).next_page is First),
    decreases k,
{
    let policy = paged.pagination;
    let n = data.len();
    let start = least(policy.spec_offset(), n);
    lemma_reach_step(policy, 0);
    if k == 0 {
        assert(laps.take(0) =~= Seq::<Lap<T>>::empty());
        assert(deep(gathered(laps.take(0))) =~= data.subrange(start as int, start as int));
        if 0 < laps.len() {
            lemma_step::<E, T, C>(paged, client, data, window_of, laps, 0);
        }
    } else {
        let j = (k - 1) as nat;
        lemma_walk::<E, T, C>(paged, client, data, window_of, laps, j);
        lemma_reach_step(policy, j);
        lemma_step::<E, T, C>(paged, client, data, window_of, laps, j as int);
        lemma_gathered_take(laps, j as int);
        lemma_gather_step::<T>(
            data,
            start as int,
            least(reach(policy, j), n) as int,
            least(reach(policy, k), n) as int,
            gathered(laps.take(j as int)),
            laps[j as int].page.items@,
        );
        if k < laps.len() {
            lemma_step::<E, T, C>(paged, client, data, window_of, laps, k as int);
        }
    }
}

/// A service that serves `data` fails no walk.
proof fn lemma_walk_succeeds<E: Endpoint, T: FromJson + DeepView, C: Client>(
    paged: Paged<E>,
    client: &C,
    data: Seq<T::V>,
    window_of: spec_fn(url::Url) -> (nat, nat),
    r: Result<Vec<T>, ApiError<C::Error>>,
)
    requires
        serves::<E, T, C>(paged, client, data, window_of),
        collected(paged, client, r),
    ensures
        r is Ok,
{
    if let Err(error) = r {
        let laps = choose|laps: Seq<Lap<T>>|
            #[trigger] chained(paged, client, initial_state(), laps) && failed_lap::<E, T, C>(
                paged,
                client,
                state_after(initial_state(), laps),
                error,
            );
        let cursor = state_after(initial_state(), laps).next_page;
        if cursor_url(paged, client, cursor, Err(error)) {
            assert(cursor is First);
            assert(first_url(paged, client, Err(error)));
        }
    }
}

/// The walk behind a list of collected items.
proof fn lemma_walk_of<E: Endpoint, T: FromJson + DeepView, C: Client>(
    paged: Paged<E>,
    client: &C,
    data: Seq<T::V>,
    window_of: spec_fn(url::Url) -> (nat, nat),
    r: Result<Vec<T>, ApiError<C::Error>>,
) -> (laps: Seq<Lap<T>>)
    requires
        serves::<E, T, C>(paged, client, data, window_of),
        collected(paged, client, r),
    ensures
        r matches Ok(items) && items@ == gathered(laps),
        laps.len() > 0,
        state_after(initial_state(), laps).next_page is Done,
        serves_folded::<E, T, C>(paged, client, data, window_of),
        chained_folded(paged, client, laps),
{
    reveal(serves_folded);
    reveal(chained_folded);
    lemma_walk_succeeds::<E, T, C>(paged, client, data, window_of, r);
    let items = r->Ok_0;
    let laps = choose|laps: Seq<Lap<T>>|
        #[trigger] chained(paged, client, initial_state(), laps) && state_after(
            initial_state(),
            laps,
        ).next_page is Done && items@ == Seq::<T>::empty() + gathered(laps);
    assert(items@ =~= gathered(laps));
    laps
}

/// With the policy `All`, a walk returns every item that the service has,
/// in the order of the service, each once: also where the number of items
/// is no multiple of the page size.
pub proof fn lemma_all_returns_everything<E: Endpoint, T: FromJson + DeepView, C: Client>(
    paged: Paged<E>,
    client: &C,
    data: Seq<T::V>,
    window_of: spec_fn(url::Url) -> (nat, nat),
    r: Result<Vec<T>, ApiError<C::Error>>,
)
    requires
        paged.pagination == Pagination::All,
        serves::<E, T, C>(paged, client, data, window_of),
        collected(paged, client, r),
        data.len() <= usize::MAX,
    ensures
        r matches Ok(items) && deep(items@) == data,
{
    let laps = lemma_walk_of::<E, T, C>(paged, client, data, window_of, r);
    lemma_all_gathers_everything::<E, T, C>(paged, client, data, window_of, laps);
}

/// A walk with the policy `All` that is done has gathered all of `data`.
proof fn lemma_all_gathers_everything<E: Endpoint, T: FromJson + DeepView, C: Client>(
    paged: Paged<E>,
    client: &C,
    data: Seq<T::V>,
    window_of: spec_fn(url::Url) -> (nat, nat),
    laps: Seq<Lap<T>>,
)
    requires
        paged.pagination == Pagination::All,
        serves_folded::<E, T, C>(paged, client, data, window_of),
        chained_folded(paged, client, laps),
        laps.len() > 0,
        state_after(initial_state(), laps).next_page is Done,
        data.len() <= usize::MAX,
    ensures
        deep(gathered(laps)) == data,
{
    let m = laps.len();
    let policy = paged.pagination;
    lemma_walk::<E, T, C>(paged, client, data, window_of, laps, m);
    lemma_walk::<E, T, C>(paged, client, data, window_of, laps, (m - 1) as nat);
    lemma_reach_step(policy, (m - 1) as nat);
    lemma_reach_step(policy, 0);
    assert(laps.take(m as int) =~= laps);
    assert(data.subrange(0, data.len() as int) =~= data);
}

/// The number of items that a walk with a policy that counts asks the
/// service for in all: as many as the policy asks for where that is no more
/// than a page, and else that many rounded up to whole pages, for every
/// request asks for a whole page.
pub open spec fn rounded(wanted: nat) -> nat {
    if wanted <= MAX_LIMIT {
        wanted
    } else {
        (((wanted + MAX_LIMIT - 1) / (MAX_LIMIT as int)) * MAX_LIMIT) as nat
    }
}

/// What is asked for in all is no less than what the policy asks for, and
/// the same where that is no more than a page or a whole number of pages.
pub proof fn lemma_rounded(wanted: nat)
    ensures
        rounded(wanted) >= wanted,
        wanted <= MAX_LIMIT || wanted % (MAX_LIMIT as nat) == 0 ==> rounded(wanted) == wanted,
{
}

/// Where a walk of `m` pages ends that is done after its last page and not
/// before: where the rounded number of items ends, or the data.
proof fn lemma_pages_end(wanted: nat, limit: nat, m: nat, start: nat, n: nat)
    requires
        m >= 1,
        limit == least(wanted, MAX_LIMIT as nat),
        m >= 2 ==> wanted > (m - 1) * limit,
        m >= 2 ==> start + (m - 1) * limit < n,
        limit > least(start + m * limit, n) - least((start + (m - 1) * limit) as nat, n) || wanted
            <= least(start + m * limit, n) - least(start, n) || start + m * limit >= n,
    ensures
        least(start + m * limit, n) == least(start + rounded(wanted), n),
{
    if wanted <= MAX_LIMIT {
        if m >= 2 {
            assert((m - 1) * limit >= limit) by (nonlinear_arith)
                requires
                    m >= 2,
                    limit >= 0,
            ;
        }
        assert(m * limit == limit) by (nonlinear_arith)
            requires
                m == 1,
        ;
    } else {
        let pages = ((wanted + 49) / 50) as nat;
        assert(rounded(wanted) == pages * 50);
        assert(pages * 50 >= wanted && wanted > (pages - 1) * 50);
        assert(m * limit == m * 50 && (m - 1) * limit == (m - 1) * 50) by (nonlinear_arith)
            requires
                limit == 50,
        ;
        assert(m <= pages);
        if start + m * 50 < n {
            assert(m >= pages);
        }
    }
}

/// With a policy that counts, a walk returns the items from the offset of
/// the policy on, in the order of the service, up to where the rounded
/// number of items ends or the data: [`rounded`] says how many are asked
/// for in all. So `Limit(70)` returns a hundred items where the service has
/// that many, and all of them where it has fewer.
pub proof fn lemma_counted_returns_window<E: Endpoint, T: FromJson + DeepView, C: Client>(
    paged: Paged<E>,
    client: &C,
    data: Seq<T::V>,
    window_of: spec_fn(url::Url) -> (nat, nat),
    r: Result<Vec<T>, ApiError<C::Error>>,
)
    requires
        !(paged.pagination is All),
        serves::<E, T, C>(paged, client, data, window_of),
        collected(paged, client, r),
        data.len() <= usize::MAX,
    ensures
        r matches Ok(items) && deep(items@) == data.subrange(
            least(paged.pagination.spec_offset(), data.len()) as int,
            least(
                paged.pagination.spec_offset() + rounded(paged.pagination.requested_limit()),
                data.len(),
            ) as int,
        ),
{
    let laps = lemma_walk_of::<E, T, C>(paged, client, data, window_of, r);
    lemma_counted_gathers_window::<E, T, C>(paged, client, data, window_of, laps);
}

/// A walk with a policy that counts that is done has gathered the items
/// from the offset of the policy up to where the rounded number of items
/// ends, or the data.
proof fn lemma_counted_gathers_window<E: Endpoint, T: FromJson + DeepView, C: Client>(
    paged: Paged<E>,
    client: &C,
    data: Seq<T::V>,
    window_of: spec_fn(url::Url) -> (nat, nat),
    laps: Seq<Lap<T>>,
)
    requires
        !(paged.pagination is All),
        serves_folded::<E, T, C>(paged, client, data, window_of),
        chained_folded(paged, client, laps),
        laps.len() > 0,
        state_after(initial_state(), laps).next_page is Done,
        data.len() <= usize::MAX,
    ensures
        deep(gathered(laps)) == data.subrange(
            least(paged.pagination.spec_offset(), data.len()) as int,
            least(
                paged.pagination.spec_offset() + rounded(paged.pagination.requested_limit()),
                data.len(),
            ) as int,
        ),
{
    let policy = paged.pagination;
    let m = laps.len();
    lemma_walk::<E, T, C>(paged, client, data, window_of, laps, m);
    lemma_walk::<E, T, C>(paged, client, data, window_of, laps, (m - 1) as nat);
    if m >= 2 {
        lemma_step::<E, T, C>(paged, client, data, window_of, laps, m - 1);
        lemma_reach_product(policy, (m - 2) as nat);
        lemma_reach_step(policy, (m - 2) as nat);
    }
    lemma_reach_product(policy, m);
    lemma_reach_product(policy, (m - 1) as nat);
    lemma_reach_step(policy, (m - 1) as nat);
    lemma_reach_step(policy, 0);
    assert(laps.take(m as int) =~= laps);
    lemma_pages_end(
        policy.requested_limit(),
        policy.spec_limit(),
        m,
        policy.spec_offset(),
        data.len(),
    );
}

/// With `Limit(n)`, a walk over a service that has at least `n` items
/// returns exactly the first `n` of them, in the order of the service:
/// where `n` is no more than a page or a whole number of pages, or the
/// service has exactly `n` items. For any other `n` the walk returns more,
/// as [`lemma_counted_returns_window`] says.
pub proof fn lemma_limit_returns_first_items<E: Endpoint, T: FromJson + DeepView, C: Client>(
    paged: Paged<E>,
    client: &C,
    data: Seq<T::V>,
    window_of: spec_fn(url::Url) -> (nat, nat),
    count: usize,
    r: Result<Vec<T>, ApiError<C::Error>>,
)
    requires
        paged.pagination == Pagination::Limit(count),
        serves::<E, T, C>(paged, client, data, window_of),
        collected(paged, client, r),
        count <= data.len() <= usize::MAX,
        count <= MAX_LIMIT || count % MAX_LIMIT == 0 || count == data.len(),
    ensures
        r matches Ok(items) && deep(items@) == data.subrange(0, count as int),
{
    lemma_counted_returns_window::<E, T, C>(paged, client, data, window_of, r);
    lemma_rounded(count as nat);
}

/// With `Page { limit, offset }`, a walk over a service that has `limit`
/// items from `offset` on returns exactly those, in the order of the
/// service: where `limit` is no more than a page or a whole number of
/// pages, or the service has no item beyond them.
pub proof fn lemma_page_returns_window<E: Endpoint, T: FromJson + DeepView, C: Client>(
    paged: Paged<E>,
    client: &C,
    data: Seq<T::V>,
    window_of: spec_fn(url::Url) -> (nat, nat),
    limit: usize,
    offset: usize,
    r: Result<Vec<T>, ApiError<C::Error>>,
)
    requires
        paged.pagination == (Pagination::Page { limit, offset }),
        serves::<E, T, C>(paged, client, data, window_of),
        collected(paged, client, r),
        offset + limit <= data.len() <= usize::MAX,
        limit <= MAX_LIMIT || limit % MAX_LIMIT == 0 || offset + limit == data.len(),
    ensures
        r matches Ok(items) && deep(items@) == data.subrange(offset as int, offset + limit),
{
    lemma_counted_returns_window::<E, T, C>(paged, client, data, window_of, r);
    lemma_rounded(limit as nat);
}

} // verus!
