//! Pagination of endpoints whose responses come in pages.

pub mod all_at_once;
pub mod laws;
pub mod lazy;

use vstd::prelude::*;

pub use all_at_once::{paged, paged_all, paged_with_limit, paged_with_limit_and_offset, Paged};
pub use lazy::{LazilyPagedIter, PageCursor};

verus! {

/// The largest page size the service accepts in one request.
pub const MAX_LIMIT: usize = 50;

/// Pagination options for the service.
#[derive(Debug, Clone, Copy, PartialEq, Eq, Structural)]
pub enum Pagination {
    /// Return all results.
    All,
    /// Stop once this many results have been collected.
    Limit(usize),
    /// Collect `limit` results, the first of them at `offset`.
    Page { limit: usize, offset: usize },
}

impl Default for Pagination {
    fn default() -> (r: Self)
        ensures
            r == Pagination::All,
    {
        Pagination::All
    }
}

impl Pagination {
    /// The number of results asked for; `All` asks for full pages.
    pub open spec fn requested_limit(self) -> nat {
        match self {
            Pagination::All => MAX_LIMIT as nat,
            Pagination::Limit(n) => n as nat,
            Pagination::Page { limit, .. } => limit as nat,
        }
    }

    /// The page size sent with each request: the requested limit, and no
    /// more than [`MAX_LIMIT`].
    pub open spec fn spec_limit(self) -> nat {
        if self.requested_limit() <= MAX_LIMIT {
            self.requested_limit()
        } else {
            MAX_LIMIT as nat
        }
    }

    /// The offset of the first result to collect.
    pub open spec fn spec_offset(self) -> nat {
        match self {
            Pagination::Page { offset, .. } => offset as nat,
            _ => 0,
        }
    }

    /// Whether the collection stops after a page of `last_page_size`
    /// results that brought the number collected to `num_results`: the page
    /// is shorter than was asked for, or the results fill the limit. `All`
    /// has no limit to fill.
    pub open spec fn spec_is_last_page(self, last_page_size: nat, num_results: nat) -> bool {
        last_page_size < self.spec_limit() || match self {
            Pagination::All => false,
            Pagination::Limit(n) => n <= num_results,
            Pagination::Page { limit, .. } => limit <= num_results,
        }
    }

    /// The page size sent with each request.
    pub fn limit(self) -> (r: usize)
        ensures
            r == self.spec_limit(),
            r <= MAX_LIMIT,
    {
        match self {
            Pagination::All => MAX_LIMIT,
            Pagination::Limit(n) => if n <= MAX_LIMIT {
                n
            } else {
                MAX_LIMIT
            },
            Pagination::Page { limit, .. } => if limit <= MAX_LIMIT {
                limit
            } else {
                MAX_LIMIT
            },
        }
    }

    /// The offset of the first result to collect.
    pub fn offset(self) -> (r: usize)
        ensures
            r == self.spec_offset(),
    {
        match self {
            Pagination::Page { offset, .. } => offset,
            _ => 0,
        }
    }

    /// Whether the collection stops after the page just received.
    pub fn is_last_page(self, last_page_size: usize, num_results: usize) -> (r: bool)
        ensures
            r == self.spec_is_last_page(last_page_size as nat, num_results as nat),
    {
        if last_page_size < self.limit() {
            return true;
        }
        match self {
            Pagination::All => false,
            Pagination::Limit(n) => n <= num_results,
            Pagination::Page { limit, .. } => limit <= num_results,
        }
    }
}

} // verus!
