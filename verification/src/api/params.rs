//! Parameters of a request: for the query string of a URL, for a form body
//! and for a JSON body.

use vstd::prelude::*;
use vstd::string::*;
use crate::api::error::BodyError;
use crate::json::{lemma_object_view, members_view, Json, JsonValue};
use crate::text::{decimal, i64_to_string, signed_decimal, u64_to_string};
use crate::urls::{
    extend_pairs, pairs_cost, pairs_view, query_pairs, same_place, url_pairs, url_size, Pair,
    MAX_URL_SIZE,
};

verus! {

/// A value that can stand as a parameter.
pub trait ParamValue {
    /// The canonical text of the value. A type that is written outside
    /// the verified code leaves it open.
    open spec fn spec_value(&self) -> Seq<char> {
        arbitrary()
    }

    /// The parameter value as a string.
    fn as_value(&self) -> (r: String)
        ensures
            r@ == self.spec_value(),
    ;
}

impl ParamValue for bool {
    open spec fn spec_value(&self) -> Seq<char> {
        if *self {
            "true"@
        } else {
            "false"@
        }
    }

    fn as_value(&self) -> (r: String) {
        if *self {
            String::from_str("true")
        } else {
            String::from_str("false")
        }
    }
}

impl<'a> ParamValue for &'a str {
    open spec fn spec_value(&self) -> Seq<char> {
        self@
    }

    fn as_value(&self) -> (r: String) {
        String::from_str(*self)
    }
}

impl ParamValue for String {
    open spec fn spec_value(&self) -> Seq<char> {
        self@
    }

    fn as_value(&self) -> (r: String) {
        self.clone()
    }
}

impl<'a> ParamValue for &'a String {
    open spec fn spec_value(&self) -> Seq<char> {
        self@
    }

    fn as_value(&self) -> (r: String) {
        (*self).clone()
    }
}

impl ParamValue for u8 {
    open spec fn spec_value(&self) -> Seq<char> {
        decimal(*self as nat)
    }

    fn as_value(&self) -> (r: String) {
        u64_to_string(*self as u64)
    }
}

impl ParamValue for u32 {
    open spec fn spec_value(&self) -> Seq<char> {
        decimal(*self as nat)
    }

    fn as_value(&self) -> (r: String) {
        u64_to_string(*self as u64)
    }
}

impl ParamValue for u64 {
    open spec fn spec_value(&self) -> Seq<char> {
        decimal(*self as nat)
    }

    fn as_value(&self) -> (r: String) {
        u64_to_string(*self)
    }
}

impl ParamValue for usize {
    open spec fn spec_value(&self) -> Seq<char> {
        decimal(*self as nat)
    }

    fn as_value(&self) -> (r: String) {
        u64_to_string(*self as u64)
    }
}

impl ParamValue for i64 {
    open spec fn spec_value(&self) -> Seq<char> {
        signed_decimal(*self as int)
    }

    fn as_value(&self) -> (r: String) {
        i64_to_string(*self)
    }
}

/// A structure for query parameters: an ordered list of key and value, in
/// which a key may come more than once.
#[derive(Debug, Clone)]
pub struct QueryParams {
    params: Vec<(String, String)>,
}

impl View for QueryParams {
    type V = Seq<Pair>;

    closed spec fn view(&self) -> Seq<Pair> {
        pairs_view(self.params@)
    }
}

impl Default for QueryParams {
    fn default() -> (r: Self)
        ensures
            r@ == Seq::<Pair>::empty(),
    {
        QueryParams::new()
    }
}

impl QueryParams {
    /// An empty set of parameters.
    pub fn new() -> (r: Self)
        ensures
            r@ == Seq::<Pair>::empty(),
    {
        let r = QueryParams { params: Vec::new() };
        assert(r@ =~= Seq::<Pair>::empty());
        r
    }

    /// Push a single parameter.
    pub fn push<V: ParamValue>(&mut self, key: &str, value: &V) -> (ret: &mut Self)
        ensures
            (*ret)@ == old(self)@.push((key@, value.spec_value())),
            *final(self) == *final(ret),
    {
        let ghost before = self@;
        self.params.push((String::from_str(key), value.as_value()));
        assert(self@ =~= before.push((key@, value.spec_value())));
        self
    }

    /// Push a single parameter, if there is one.
    pub fn push_opt<V: ParamValue>(&mut self, key: &str, value: Option<V>) -> (ret: &mut Self)
        ensures
            (*ret)@ == match value {
                Some(v) => old(self)@.push((key@, v.spec_value())),
                None => old(self)@,
            },
            *final(self) == *final(ret),
    {
        let ghost before = self@;
        if let Some(v) = value {
            self.params.push((String::from_str(key), v.as_value()));
            assert(self@ =~= before.push((key@, v.spec_value())));
        }
        self
    }

    /// Push a set of parameters.
    pub fn extend<V: ParamValue>(&mut self, items: &Vec<(String, V)>) -> (ret: &mut Self)
        ensures
            (*ret)@ == old(self)@ + items@.map_values(|p: (String, V)| (p.0@, p.1.spec_value())),
            *final(self) == *final(ret),
    {
        let ghost before = self@;
        let ghost added = items@.map_values(|p: (String, V)| (p.0@, p.1.spec_value()));
        let mut i: usize = 0;
        while i < items.len()
            invariant
                i <= items.len(),
                added == items@.map_values(|p: (String, V)| (p.0@, p.1.spec_value())),
                self@ == before + added.take(i as int),
            decreases items.len() - i,
        {
            let ghost now = self@;
            self.params.push((items[i].0.clone(), items[i].1.as_value()));
            proof {
                assert(self@ =~= now.push(added[i as int]));
                assert(added.take(i + 1) =~= added.take(i as int).push(added[i as int]));
            }
            i += 1;
        }
        proof {
            assert(added.take(i as int) =~= added);
        }
        self
    }

    /// The parameters that the query of `url` holds: its decoded pairs, in
    /// order. This is the way back from [`QueryParams::add_to_url`].
    pub fn from_url(url: &url::Url) -> (r: Self)
        ensures
            r@ == url_pairs(*url),
    {
        QueryParams { params: query_pairs(url) }
    }

    /// Whether the parameters can be added to `url` without its
    /// serialization passing [`MAX_URL_SIZE`].
    pub open spec fn fits(&self, url: url::Url) -> bool {
        url_size(url) + pairs_cost(self@) <= MAX_URL_SIZE
    }

    /// Add the parameters to a URL, after the pairs its query already holds.
    ///
    /// Decoding the query of the URL afterwards gives back what it held
    /// before, followed by these parameters: the same keys and values, in
    /// the same order, repeated keys included. The scheme, the host, the
    /// path and the fragment of the URL stay as they were. Where the URL would grow past
    /// [`MAX_URL_SIZE`], nothing is added and `false` is returned.
    pub fn add_to_url(&self, url: &mut url::Url) -> (done: bool)
        ensures
            done == self.fits(*old(url)),
            done ==> url_pairs(*final(url)) == url_pairs(*old(url)) + self@,
            done ==> same_place(*old(url), *final(url)),
            done ==> url_size(*final(url)) <= url_size(*old(url)) + pairs_cost(self@),
            !done ==> *final(url) == *old(url),
    {
        extend_pairs(url, &self.params)
    }

    /// The parameters, in order.
    pub fn pairs(&self) -> (r: &Vec<(String, String)>)
        ensures
            pairs_view(r@) == self@,
    {
        &self.params
    }
}

/// `serde_urlencoded::ser::Error`: why parameters cannot be written as a
/// form.
#[verifier::external_type_specification]
#[verifier::external_body]
pub struct ExFormError(serde_urlencoded::ser::Error);

/// What `serde_urlencoded::to_string` writes for a list of pairs, or `None`
/// where it reports an error.
pub uninterp spec fn form_encoded(pairs: Seq<Pair>) -> Option<Seq<char>>;

/// `serde_urlencoded::to_string` of a list of pairs.
#[verifier::external_body]
fn form_encode(pairs: &Vec<(String, String)>) -> (r: Result<String, serde_urlencoded::ser::Error>)
    ensures
        r is Ok <==> form_encoded(pairs_view(pairs@)) is Some,
        r matches Ok(s) ==> Some(s@) == form_encoded(pairs_view(pairs@)),
{
    serde_urlencoded::to_string(pairs)
}

/// The media type of a form body.
pub open spec fn form_mime() -> Seq<char> {
    "application/x-www-form-urlencoded"@
}

/// The media type of a JSON body.
pub open spec fn json_mime() -> Seq<char> {
    "application/json"@
}

/// A structure for form parameters.
#[derive(Debug, Clone)]
pub struct FormParams {
    params: Vec<(String, String)>,
}

impl View for FormParams {
    type V = Seq<Pair>;

    closed spec fn view(&self) -> Seq<Pair> {
        pairs_view(self.params@)
    }
}

impl Default for FormParams {
    fn default() -> (r: Self)
        ensures
            r@ == Seq::<Pair>::empty(),
    {
        FormParams::new()
    }
}

impl FormParams {
    /// An empty set of parameters.
    pub fn new() -> (r: Self)
        ensures
            r@ == Seq::<Pair>::empty(),
    {
        let r = FormParams { params: Vec::new() };
        assert(r@ =~= Seq::<Pair>::empty());
        r
    }

    /// Push a single parameter.
    pub fn push<V: ParamValue>(&mut self, key: &str, value: &V) -> (ret: &mut Self)
        ensures
            (*ret)@ == old(self)@.push((key@, value.spec_value())),
            *final(self) == *final(ret),
    {
        let ghost before = self@;
        self.params.push((String::from_str(key), value.as_value()));
        assert(self@ =~= before.push((key@, value.spec_value())));
        self
    }

    /// Push a single parameter, if there is one.
    pub fn push_opt<V: ParamValue>(&mut self, key: &str, value: Option<V>) -> (ret: &mut Self)
        ensures
            (*ret)@ == match value {
                Some(v) => old(self)@.push((key@, v.spec_value())),
                None => old(self)@,
            },
            *final(self) == *final(ret),
    {
        let ghost before = self@;
        if let Some(v) = value {
            self.params.push((String::from_str(key), v.as_value()));
            assert(self@ =~= before.push((key@, v.spec_value())));
        }
        self
    }

    /// Push a set of parameters.
    pub fn extend<V: ParamValue>(&mut self, items: &Vec<(String, V)>) -> (ret: &mut Self)
        ensures
            (*ret)@ == old(self)@ + items@.map_values(|p: (String, V)| (p.0@, p.1.spec_value())),
            *final(self) == *final(ret),
    {
        let ghost before = self@;
        let ghost added = items@.map_values(|p: (String, V)| (p.0@, p.1.spec_value()));
        let mut i: usize = 0;
        while i < items.len()
            invariant
                i <= items.len(),
                added == items@.map_values(|p: (String, V)| (p.0@, p.1.spec_value())),
                self@ == before + added.take(i as int),
            decreases items.len() - i,
        {
            let ghost now = self@;
            self.params.push((items[i].0.clone(), items[i].1.as_value()));
            proof {
                assert(self@ =~= now.push(added[i as int]));
                assert(added.take(i + 1) =~= added.take(i as int).push(added[i as int]));
            }
            i += 1;
        }
        proof {
            assert(added.take(i as int) =~= added);
        }
        self
    }

    /// Whether `body` is the form body of `pairs`.
    pub open spec fn is_body(pairs: Seq<Pair>, body: Option<(&'static str, Vec<u8>)>) -> bool {
        match (body, form_encoded(pairs)) {
            (Some((mime, data)), Some(text)) => mime@ == form_mime() && data@
                == vstd::utf8::encode_utf8(text),
            _ => false,
        }
    }

    /// Encode the parameters into a request body.
    pub fn into_body(self) -> (r: Result<Option<(&'static str, Vec<u8>)>, BodyError>)
        ensures
            r is Ok <==> form_encoded(self@) is Some,
            r matches Ok(body) ==> Self::is_body(self@, body),
            r matches Err(e) ==> e is UrlEncoded,
    {
        match form_encode(&self.params) {
            Ok(body) => Ok(Some(("application/x-www-form-urlencoded", body.as_str().as_bytes_vec()))),
            Err(source) => Err(BodyError::UrlEncoded { source }),
        }
    }
}

/// The members of an object that [`JsonParams::clean`] keeps.
pub open spec fn kept_members(members: Seq<(Seq<char>, JsonValue)>) -> Seq<(Seq<char>, JsonValue)> {
    members.filter(|m: (Seq<char>, JsonValue)| !m.1.is_blank())
}

/// What [`JsonParams::clean`] makes of a value: an object loses the members
/// whose value is `null`, an empty array or an empty object; what is nested
/// inside the members that stay is not touched, and neither is a value that
/// is no object.
pub open spec fn cleaned(value: JsonValue) -> JsonValue {
    match value {
        JsonValue::Object(members) => JsonValue::Object(kept_members(members)),
        other => other,
    }
}

/// Whether `reversed` holds the last members of `all`, last first.
spec fn is_tail_reversed(
    reversed: Seq<(Seq<char>, JsonValue)>,
    all: Seq<(Seq<char>, JsonValue)>,
) -> bool {
    &&& reversed.len() <= all.len()
    &&& forall|k: int| 0 <= k < reversed.len() ==> #[trigger] reversed[k] == all[all.len() - 1 - k]
}

/// A structure for JSON parameters.
#[derive(Debug, Clone, Copy)]
#[non_exhaustive]
pub struct JsonParams {}

impl JsonParams {
    /// Clean a JSON value for submission.
    ///
    /// Removes `null`, empty arrays and empty objects from the members of a
    /// top-level object, and nothing below that level.
    pub fn clean(val: Json) -> (r: Json)
        ensures
            r@ == cleaned(val@),
    {
        match val {
            Json::Object(members) => {
                let ghost all = members_view(members@);
                proof {
                    lemma_object_view(members);
                }
                // Turn the list around, so that popping walks it from the front.
                let mut rest = members;
                let mut reversed: Vec<(String, Json)> = Vec::new();
                while rest.len() > 0
                    invariant
                        rest.len() + reversed.len() == all.len(),
                        members_view(rest@) == all.take(rest.len() as int),
                        is_tail_reversed(members_view(reversed@), all),
                    decreases rest.len(),
                {
                    let ghost before = members_view(rest@);
                    let ghost turned = members_view(reversed@);
                    let ghost n = rest.len() as int;
                    let member = rest.pop().unwrap();
                    reversed.push(member);
                    proof {
                        assert((member.0@, member.1@) == before[n - 1]);
                        assert(members_view(rest@) =~= all.take(n - 1));
                        assert(members_view(reversed@) =~= turned.push(all[n - 1]));
                    }
                }
                let mut kept: Vec<(String, Json)> = Vec::new();
                while reversed.len() > 0
                    invariant
                        is_tail_reversed(members_view(reversed@), all),
                        members_view(kept@) == kept_members(all.take(all.len() - reversed.len())),
                    decreases reversed.len(),
                {
                    let ghost done = all.len() - reversed.len();
                    let ghost before = members_view(kept@);
                    let ghost turned = members_view(reversed@);
                    let member = reversed.pop().unwrap();
                    proof {
                        assert((member.0@, member.1@) == turned[turned.len() - 1]);
                        assert(members_view(reversed@) =~= turned.drop_last());
                        assert(all.take(done + 1) =~= all.take(done).push(all[done]));
                        all.take(done).lemma_filter_push(
                            all[done],
                            |m: (Seq<char>, JsonValue)| !m.1.is_blank(),
                        );
                    }
                    if !member.1.is_blank() {
                        kept.push(member);
                        assert(members_view(kept@) =~= before.push(all[done]));
                    }
                }
                proof {
                    assert(all.take(all.len() as int) =~= all);
                    lemma_object_view(kept);
                }
                Json::Object(kept)
            },
            other => other,
        }
    }

    /// Whether `body` is the JSON body of `value`.
    pub open spec fn is_body(value: JsonValue, body: Option<(&'static str, Vec<u8>)>) -> bool {
        match body {
            Some((mime, data)) => mime@ == json_mime() && Some(data@) == crate::json::json_text(value),
            None => false,
        }
    }

    /// Encode the parameters into a request body.
    pub fn into_body(input: &Json) -> (r: Result<Option<(&'static str, Vec<u8>)>, BodyError>)
        ensures
            r is Ok <==> crate::json::json_text(input@) is Some,
            r matches Ok(body) ==> Self::is_body(input@, body),
            r matches Err(e) ==> e is Json,
    {
        match input.to_vec() {
            Some(body) => Ok(Some(("application/json", body))),
            None => Err(BodyError::Json),
        }
    }
}

} // verus!
