//! URLs, as the `url` crate parses and serializes them.
//!
//! A `url::Url` is kept as the `url` crate builds it. What the rest of the
//! library needs of one is stated over its serialization: the decoded pairs
//! of its query string, its path, and its scheme, host and fragment.

use vstd::prelude::*;
use vstd::string::*;
use vstd::utf8::*;

verus! {

/// `url::Url`: a parsed URL, of which only what the functions below state
/// is known.
#[verifier::external_type_specification]
#[verifier::external_body]
pub struct ExUrl(url::Url);

/// `url::ParseError`: why a string is no URL.
#[verifier::external_type_specification]
#[verifier::external_body]
pub struct ExParseError(url::ParseError);

/// One decoded pair of a query string: key, then value.
pub type Pair = (Seq<char>, Seq<char>);

/// The serialization of a URL: what `Url::as_str` returns.
pub uninterp spec fn url_text(url: url::Url) -> Seq<char>;

/// The serialization of the URL that `Url::parse` makes of `text`, or `None`
/// where it refuses `text`.
pub uninterp spec fn normalized(text: Seq<char>) -> Option<Seq<char>>;

/// The pairs that `Url::query_pairs` yields, in order, for the URL with the
/// serialization `text`.
pub uninterp spec fn query_of(text: Seq<char>) -> Seq<Pair>;

/// What `Url::path` returns for the URL with the serialization `text`.
pub uninterp spec fn path_of(text: Seq<char>) -> Seq<char>;

/// What `Url::scheme` returns for the URL with the serialization `text`.
pub uninterp spec fn scheme_of(text: Seq<char>) -> Seq<char>;

/// What `Url::host_str` returns for the URL with the serialization `text`.
pub uninterp spec fn host_of(text: Seq<char>) -> Option<Seq<char>>;

/// What `Url::fragment` returns for the URL with the serialization `text`.
pub uninterp spec fn fragment_of(text: Seq<char>) -> Option<Seq<char>>;

/// The serialization of the URL that `Url::join` makes of the reference
/// `relative` against the URL with the serialization `base`, or `None` where
/// it refuses.
pub uninterp spec fn joined_text(base: Seq<char>, relative: Seq<char>) -> Option<Seq<char>>;

/// The decoded query pairs of `url`, in order.
pub open spec fn url_pairs(url: url::Url) -> Seq<Pair> {
    query_of(url_text(url))
}

/// The path of `url`.
pub open spec fn url_path(url: url::Url) -> Seq<char> {
    path_of(url_text(url))
}

/// The scheme of `url`.
pub open spec fn url_scheme(url: url::Url) -> Seq<char> {
    scheme_of(url_text(url))
}

/// The host of `url`, where it has one.
pub open spec fn url_host(url: url::Url) -> Option<Seq<char>> {
    host_of(url_text(url))
}

/// The fragment of `url`, where it has one.
pub open spec fn url_fragment(url: url::Url) -> Option<Seq<char>> {
    fragment_of(url_text(url))
}

/// Whether `after` leads where `before` leads: the scheme, the host, the
/// path and the fragment are the same. Only the query may differ.
pub open spec fn same_place(before: url::Url, after: url::Url) -> bool {
    &&& url_scheme(after) == url_scheme(before)
    &&& url_host(after) == url_host(before)
    &&& url_path(after) == url_path(before)
    &&& url_fragment(after) == url_fragment(before)
}

/// The length of the serialization of `url`, in bytes.
pub open spec fn url_size(url: url::Url) -> nat {
    encode_utf8(url_text(url)).len()
}

/// The most bytes that one more pair can add to a serialization: each byte
/// of key and value may become three, and up to three separators join them.
pub open spec fn pair_cost(key: Seq<char>, value: Seq<char>) -> nat {
    3 * encode_utf8(key).len() + 3 * encode_utf8(value).len() + 3
}

/// The longest serialization that the `url` crate supports.
pub const MAX_URL_SIZE: usize = 0xffff_ffff;

/// `Url::parse`: succeeds exactly where [`normalized`] is defined, and the
/// result then has that serialization.
#[verifier::external_body]
pub(crate) fn parse_url(text: &str) -> (r: Result<url::Url, url::ParseError>)
    ensures
        r is Ok <==> normalized(text@) is Some,
        r matches Ok(u) ==> Some(url_text(u)) == normalized(text@),
{
    url::Url::parse(text)
}

/// `Url::join`: succeeds exactly where [`joined_text`] is defined, and the
/// result then has that serialization.
#[verifier::external_body]
pub(crate) fn join_url(base: &url::Url, relative: &str) -> (r: Result<url::Url, url::ParseError>)
    ensures
        r is Ok <==> joined_text(url_text(*base), relative@) is Some,
        r matches Ok(u) ==> Some(url_text(u)) == joined_text(url_text(*base), relative@),
{
    base.join(relative)
}

/// `Url::as_str`: the serialization.
#[verifier::external_body]
pub(crate) fn url_as_str(url: &url::Url) -> (r: &str)
    ensures
        r@ == url_text(*url),
{
    url.as_str()
}

/// `Url::path`: the path component.
#[verifier::external_body]
pub(crate) fn url_path_string(url: &url::Url) -> (r: String)
    ensures
        r@ == path_of(url_text(*url)),
{
    url.path().to_owned()
}

/// `Url::query_pairs`: the decoded pairs of the query string, in order.
#[verifier::external_body]
pub(crate) fn url_query_pairs(url: &url::Url) -> (r: Vec<(String, String)>)
    ensures
        r.deep_view() == query_of(url_text(*url)),
{
    url.query_pairs().map(|(k, v)| (k.into_owned(), v.into_owned())).collect()
}

/// `Url::scheme`: the scheme.
#[verifier::external_body]
pub(crate) fn url_scheme_string(url: &url::Url) -> (r: String)
    ensures
        r@ == scheme_of(url_text(*url)),
{
    url.scheme().to_owned()
}

/// `Url::host_str`: the host, where there is one.
#[verifier::external_body]
pub(crate) fn url_host_string(url: &url::Url) -> (r: Option<String>)
    ensures
        r is Some <==> host_of(url_text(*url)) is Some,
        r matches Some(host) ==> Some(host@) == host_of(url_text(*url)),
{
    url.host_str().map(str::to_owned)
}

/// `Url::fragment`: the fragment, where there is one.
#[verifier::external_body]
pub(crate) fn url_fragment_string(url: &url::Url) -> (r: Option<String>)
    ensures
        r is Some <==> fragment_of(url_text(*url)) is Some,
        r matches Some(fragment) ==> Some(fragment@) == fragment_of(url_text(*url)),
{
    url.fragment().map(str::to_owned)
}

/// `Url::query_pairs_mut` followed by `append_pair`: the new pair comes
/// after the ones the query already held; the scheme, the host and the path
/// stay, and so does the fragment, which is taken off and put back; the
/// serialization grows by no more than [`pair_cost`]. The `url` crate
/// panics where a serialization would pass four gigabytes, which the
/// precondition keeps out.
#[verifier::external_body]
pub(crate) fn url_append_pair(url: &mut url::Url, key: &str, value: &str)
    requires
        url_size(*old(url)) + pair_cost(key@, value@) <= MAX_URL_SIZE,
    ensures
        query_of(url_text(*final(url))) == query_of(url_text(*old(url))).push((key@, value@)),
        path_of(url_text(*final(url))) == path_of(url_text(*old(url))),
        scheme_of(url_text(*final(url))) == scheme_of(url_text(*old(url))),
        host_of(url_text(*final(url))) == host_of(url_text(*old(url))),
        fragment_of(url_text(*final(url))) == fragment_of(url_text(*old(url))),
        url_size(*final(url)) <= url_size(*old(url)) + pair_cost(key@, value@),
{
    url.query_pairs_mut().append_pair(key, value);
}

/// `Url::query_pairs_mut` followed by `extend_pairs`: the new pairs come, in
/// their order, after the ones the query already held; the scheme, the
/// host, the path and the fragment stay; the serialization grows by no more
/// than [`pairs_cost`], of which one byte is for the `?` that opens a query
/// even where no pair follows. The precondition keeps out the
/// serializations of more than four gigabytes, where the `url` crate
/// panics.
#[verifier::external_body]
pub(crate) fn url_extend_pairs(url: &mut url::Url, pairs: &Vec<(String, String)>)
    requires
        url_size(*old(url)) + pairs_cost(pairs_view(pairs@)) <= MAX_URL_SIZE,
    ensures
        query_of(url_text(*final(url))) == query_of(url_text(*old(url))) + pairs_view(pairs@),
        path_of(url_text(*final(url))) == path_of(url_text(*old(url))),
        scheme_of(url_text(*final(url))) == scheme_of(url_text(*old(url))),
        host_of(url_text(*final(url))) == host_of(url_text(*old(url))),
        fragment_of(url_text(*final(url))) == fragment_of(url_text(*old(url))),
        url_size(*final(url)) <= url_size(*old(url)) + pairs_cost(pairs_view(pairs@)),
{
    url.query_pairs_mut().extend_pairs(pairs.iter());
}

/// `Url::clone`: an equal URL.
#[verifier::external_body]
pub(crate) fn clone_url(url: &url::Url) -> (r: url::Url)
    ensures
        r == *url,
{
    url.clone()
}

/// `ParseError::Overflow`: the error with which the `url` crate refuses a
/// URL of more than four gigabytes.
#[verifier::external_body]
pub(crate) fn overflow_error() -> url::ParseError {
    url::ParseError::Overflow
}

/// The views of a list of owned pairs.
pub open spec fn pairs_view(pairs: Seq<(String, String)>) -> Seq<Pair> {
    pairs.map_values(|p: (String, String)| (p.0@, p.1@))
}

/// The value of the first of `pairs`, at or after `from`, with the key
/// `key`.
pub open spec fn value_from(pairs: Seq<Pair>, key: Seq<char>, from: int) -> Option<Seq<char>>
    decreases pairs.len() - from,
{
    if from < 0 || from >= pairs.len() {
        None
    } else if pairs[from].0 == key {
        Some(pairs[from].1)
    } else {
        value_from(pairs, key, from + 1)
    }
}

/// The value of the first of `pairs` with the key `key`.
pub open spec fn first_value(pairs: Seq<Pair>, key: Seq<char>) -> Option<Seq<char>> {
    value_from(pairs, key, 0)
}

/// The value of the first of `pairs` with the key `key`.
pub fn find_value<'a>(pairs: &'a Vec<(String, String)>, key: &str) -> (r: Option<&'a str>)
    ensures
        r is Some <==> first_value(pairs_view(pairs@), key@) is Some,
        r matches Some(v) ==> Some(v@) == first_value(pairs_view(pairs@), key@),
{
    let mut i: usize = 0;
    while i < pairs.len()
        invariant
            i <= pairs.len(),
            first_value(pairs_view(pairs@), key@) == value_from(pairs_view(pairs@), key@, i as int),
        decreases pairs.len() - i,
    {
        if crate::text::str_eq(pairs[i].0.as_str(), key) {
            return Some(pairs[i].1.as_str());
        }
        i += 1;
    }
    None
}

/// The most bytes that `pairs` can add to a serialization: one for the
/// `?` that opens a query, and [`pair_cost`] for each pair.
pub open spec fn pairs_cost(pairs: Seq<Pair>) -> nat
    decreases pairs.len(),
{
    if pairs.len() == 0 {
        1
    } else {
        pairs_cost(pairs.drop_last()) + pair_cost(pairs.last().0, pairs.last().1)
    }
}

/// [`pairs_cost`] of `pairs`, or `None` where it passes [`MAX_URL_SIZE`].
pub fn cost_of_pairs(pairs: &Vec<(String, String)>) -> (r: Option<u64>)
    ensures
        r is Some <==> pairs_cost(pairs_view(pairs@)) <= MAX_URL_SIZE,
        r matches Some(c) ==> c == pairs_cost(pairs_view(pairs@)),
{
    let mut total: u64 = 1;
    let mut i: usize = 0;
    proof {
        assert(pairs_view(pairs@).take(0) =~= Seq::<Pair>::empty());
    }
    while i < pairs.len()
        invariant
            i <= pairs.len(),
            total == pairs_cost(pairs_view(pairs@).take(i as int)),
            total <= MAX_URL_SIZE,
        decreases pairs.len() - i,
    {
        let k = pairs[i].0.as_str().as_bytes().len();
        let v = pairs[i].1.as_str().as_bytes().len();
        proof {
            let next = pairs_view(pairs@).take(i + 1);
            assert(next.drop_last() =~= pairs_view(pairs@).take(i as int));
            assert(next.last() == (pairs@[i as int].0@, pairs@[i as int].1@));
            lemma_pairs_cost_grows(pairs_view(pairs@), i + 1);
        }
        if k > MAX_URL_SIZE / 3 || v > MAX_URL_SIZE / 3 {
            return None;
        }
        let cost: u64 = 3 * (k as u64) + 3 * (v as u64) + 3;
        if total + cost > MAX_URL_SIZE as u64 {
            return None;
        }
        total = total + cost;
        i += 1;
    }
    proof {
        assert(pairs_view(pairs@).take(i as int) =~= pairs_view(pairs@));
    }
    Some(total)
}

/// The cost of a prefix is no more than the cost of the whole.
pub proof fn lemma_pairs_cost_grows(pairs: Seq<Pair>, n: int)
    requires
        0 <= n <= pairs.len(),
    ensures
        pairs_cost(pairs.take(n)) <= pairs_cost(pairs),
    decreases pairs.len() - n,
{
    if n < pairs.len() {
        lemma_pairs_cost_grows(pairs, n + 1);
        assert(pairs.take(n + 1).drop_last() =~= pairs.take(n));
    } else {
        assert(pairs.take(n) =~= pairs);
    }
}

/// The decoded pairs of the query of `url`, in order.
pub fn query_pairs(url: &url::Url) -> (r: Vec<(String, String)>)
    ensures
        pairs_view(r@) == url_pairs(*url),
{
    let pairs = url_query_pairs(url);
    assert(pairs.deep_view() =~= pairs_view(pairs@));
    pairs
}

/// Whether one more pair fits into `url`.
pub fn pair_fits(url: &url::Url, key: &str, value: &str) -> (r: bool)
    ensures
        r == (url_size(*url) + pair_cost(key@, value@) <= MAX_URL_SIZE),
{
    let size = url_as_str(url).as_bytes().len();
    let k = key.as_bytes().len();
    let v = value.as_bytes().len();
    if size > MAX_URL_SIZE || k > MAX_URL_SIZE / 3 || v > MAX_URL_SIZE / 3 {
        return false;
    }
    let cost: u64 = 3 * (k as u64) + 3 * (v as u64) + 3;
    (size as u64) + cost <= MAX_URL_SIZE as u64
}

/// Appends one pair to the query of `url`, unless the serialization could
/// then pass [`MAX_URL_SIZE`]; `url` is then left as it was.
pub fn append_pair(url: &mut url::Url, key: &str, value: &str) -> (done: bool)
    ensures
        done == (url_size(*old(url)) + pair_cost(key@, value@) <= MAX_URL_SIZE),
        done ==> url_pairs(*final(url)) == url_pairs(*old(url)).push((key@, value@)),
        done ==> same_place(*old(url), *final(url)),
        done ==> url_size(*final(url)) <= url_size(*old(url)) + pair_cost(key@, value@),
        !done ==> *final(url) == *old(url),
{
    if pair_fits(url, key, value) {
        url_append_pair(url, key, value);
        true
    } else {
        false
    }
}

/// Appends `pairs`, in order, to the query of `url`, unless the
/// serialization could then pass [`MAX_URL_SIZE`]; `url` is then left as it
/// was. Where there are no pairs, the query is opened all the same.
pub fn extend_pairs(url: &mut url::Url, pairs: &Vec<(String, String)>) -> (done: bool)
    ensures
        done == (url_size(*old(url)) + pairs_cost(pairs_view(pairs@)) <= MAX_URL_SIZE),
        done ==> url_pairs(*final(url)) == url_pairs(*old(url)) + pairs_view(pairs@),
        done ==> same_place(*old(url), *final(url)),
        done ==> url_size(*final(url)) <= url_size(*old(url)) + pairs_cost(pairs_view(pairs@)),
        !done ==> *final(url) == *old(url),
{
    let size = url_as_str(url).as_bytes().len();
    let fits = match cost_of_pairs(pairs) {
        Some(cost) => size <= MAX_URL_SIZE && (size as u64) + cost <= MAX_URL_SIZE as u64,
        None => false,
    };
    if fits {
        url_extend_pairs(url, pairs);
    }
    fits
}

/// The scheme of `url`.
pub fn scheme(url: &url::Url) -> (r: String)
    ensures
        r@ == url_scheme(*url),
{
    url_scheme_string(url)
}

/// The host of `url`, where it has one.
pub fn host(url: &url::Url) -> (r: Option<String>)
    ensures
        r is Some <==> url_host(*url) is Some,
        r matches Some(host) ==> Some(host@) == url_host(*url),
{
    url_host_string(url)
}

/// The fragment of `url`, where it has one.
pub fn fragment(url: &url::Url) -> (r: Option<String>)
    ensures
        r is Some <==> url_fragment(*url) is Some,
        r matches Some(fragment) ==> Some(fragment@) == url_fragment(*url),
{
    url_fragment_string(url)
}

} // verus!
