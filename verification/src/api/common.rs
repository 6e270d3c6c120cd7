//! What the endpoints have in common: how lists and optional values become
//! parameters, and the error of their builders.

use vstd::prelude::*;
use vstd::string::*;
use crate::model::PlaylistItem;
use crate::text::{joined, views};
use crate::urls::Pair;

verus! {

/// Why a builder could not build its endpoint.
#[derive(Debug, Clone, Copy, PartialEq, Eq)]
pub enum BuilderError {
    /// The field of this name has to be set, and was not.
    UninitializedField(&'static str),
}

/// The parameter `key` for a value that may be absent: one pair, or none.
pub open spec fn optional(key: Seq<char>, value: Option<Seq<char>>) -> Seq<Pair> {
    match value {
        Some(v) => seq![(key, v)],
        None => Seq::empty(),
    }
}

/// The URIs of a list of playlist items.
pub open spec fn uris_of(items: Seq<PlaylistItem>) -> Seq<Seq<char>> {
    items.map_values(|item: PlaylistItem| item.spec_text())
}

/// The URIs of `items`, joined by commas.
pub fn join_uris(items: &Vec<PlaylistItem>) -> (r: String)
    ensures
        r@ == joined(uris_of(items@), seq![',']),
{
    let mut uris: Vec<String> = Vec::new();
    let mut i: usize = 0;
    while i < items.len()
        invariant
            i <= items.len(),
            views(uris@) == uris_of(items@).take(i as int),
        decreases items.len() - i,
    {
        let ghost before = views(uris@);
        uris.push(items[i].to_string());
        proof {
            assert(views(uris@) =~= before.push(items@[i as int].spec_text()));
            assert(uris_of(items@).take(i + 1) =~= uris_of(items@).take(i as int).push(
                items@[i as int].spec_text(),
            ));
        }
        i += 1;
    }
    proof {
        assert(uris_of(items@).take(i as int) =~= uris_of(items@));
    }
    crate::text::join_comma(&uris)
}

/// Owned copies of a list of strings.
pub fn owned(items: &[&str]) -> (r: Vec<String>)
    ensures
        views(r@) == items@.map_values(|item: &str| item@),
{
    let ghost all = items@.map_values(|item: &str| item@);
    let mut out: Vec<String> = Vec::new();
    let mut i: usize = 0;
    while i < items.len()
        invariant
            i <= items.len(),
            all == items@.map_values(|item: &str| item@),
            views(out@) == all.take(i as int),
        decreases items.len() - i,
    {
        let ghost before = views(out@);
        out.push(String::from_str(items[i]));
        proof {
            assert(views(out@) =~= before.push(all[i as int]));
            assert(all.take(i + 1) =~= all.take(i as int).push(all[i as int]));
        }
        i += 1;
    }
    proof {
        assert(all.take(i as int) =~= all);
    }
    out
}

/// A copy of a list of strings.
pub fn copy_strings(items: &Vec<String>) -> (r: Vec<String>)
    ensures
        views(r@) == views(items@),
{
    let ghost all = views(items@);
    let mut out: Vec<String> = Vec::new();
    let mut i: usize = 0;
    while i < items.len()
        invariant
            i <= items.len(),
            all == views(items@),
            views(out@) == all.take(i as int),
        decreases items.len() - i,
    {
        let ghost before = views(out@);
        out.push(items[i].clone());
        proof {
            assert(views(out@) =~= before.push(all[i as int]));
            assert(all.take(i + 1) =~= all.take(i as int).push(all[i as int]));
        }
        i += 1;
    }
    proof {
        assert(all.take(i as int) =~= all);
    }
    out
}

} // verus!
