//! JSON values, as `serde_json` reads and writes them.

use vstd::prelude::*;
use vstd::string::*;

verus! {

/// A JSON value. The members of an object are a list: a value built by hand
/// keeps them as they were given. A value that was read from a document has
/// them as `serde_json` holds them, sorted by key, and of members with one
/// key it has the last one only.
#[derive(Debug, PartialEq, Eq)]
pub enum Json {
    Null,
    Bool(bool),
    /// A number, by the text that `serde_json` displays it with.
    Number(String),
    Str(String),
    Array(Vec<Json>),
    Object(Vec<(String, Json)>),
}

/// The mathematical value of a [`Json`].
pub enum JsonValue {
    Null,
    Bool(bool),
    Number(Seq<char>),
    Str(Seq<char>),
    Array(Seq<JsonValue>),
    Object(Seq<(Seq<char>, JsonValue)>),
}

/// The mathematical value of `json`.
pub open spec fn json_value(json: Json) -> JsonValue
    decreases json,
{
    match json {
        Json::Null => JsonValue::Null,
        Json::Bool(b) => JsonValue::Bool(b),
        Json::Number(t) => JsonValue::Number(t@),
        Json::Str(s) => JsonValue::Str(s@),
        Json::Array(items) => JsonValue::Array(
            Seq::new(
                items.len() as nat,
                |i: int|
                    if 0 <= i < items.len() {
                        json_value(items[i])
                    } else {
                        JsonValue::Null
                    },
            ),
        ),
        Json::Object(members) => JsonValue::Object(
            Seq::new(
                members.len() as nat,
                |i: int|
                    if 0 <= i < members.len() {
                        (members[i].0@, json_value(members[i].1))
                    } else {
                        (Seq::empty(), JsonValue::Null)
                    },
            ),
        ),
    }
}

impl View for Json {
    type V = JsonValue;

    open spec fn view(&self) -> JsonValue {
        json_value(*self)
    }
}

/// `serde_json::Value`: a JSON value as `serde_json` holds it.
#[verifier::external_type_specification]
#[verifier::external_body]
pub struct ExValue(serde_json::Value);

/// `serde_json::Error`: why a text is no JSON, or a value cannot be
/// written.
#[verifier::external_type_specification]
#[verifier::external_body]
pub struct ExError(serde_json::Error);

/// What `serde_json::from_slice` makes of `bytes` as a `serde_json::Value`,
/// or `None` where it reports an error.
pub uninterp spec fn json_parse(bytes: Seq<u8>) -> Option<JsonValue>;

/// The tree that a `serde_json::Value` holds: the members of an object in
/// the order in which its map walks them.
pub uninterp spec fn value_json(value: serde_json::Value) -> JsonValue;

/// What `serde_json::to_vec` writes for the `serde_json::Value` that is
/// built from `json`: `None` where a number's text is no JSON number or the
/// writer reports an error. Members of an object enter its map in order, so
/// of two members with one key the later one stays.
pub uninterp spec fn json_text(json: JsonValue) -> Option<Seq<u8>>;

/// What `serde_json::to_vec` writes for a `serde_json::Value`, or `None`
/// where it reports an error.
pub uninterp spec fn value_text(value: serde_json::Value) -> Option<Seq<u8>>;

/// `serde_json::from_slice`, read as a `serde_json::Value`.
#[verifier::external_body]
fn parse_value(bytes: &[u8]) -> (r: Result<serde_json::Value, serde_json::Error>)
    ensures
        r is Ok <==> json_parse(bytes@) is Some,
        r matches Ok(v) ==> Some(value_json(v)) == json_parse(bytes@),
{
    serde_json::from_slice::<serde_json::Value>(bytes)
}

/// Copies a `serde_json::Value` into a [`Json`], variant by variant. A
/// number is taken by the text that `Number` displays.
#[verifier::external_body]
fn json_of_value(value: &serde_json::Value) -> (r: Json)
    ensures
        r@ == value_json(*value),
{
    match value {
        serde_json::Value::Null => Json::Null,
        serde_json::Value::Bool(b) => Json::Bool(*b),
        serde_json::Value::Number(n) => Json::Number(n.to_string()),
        serde_json::Value::String(s) => Json::Str(s.clone()),
        serde_json::Value::Array(a) => Json::Array(a.iter().map(json_of_value).collect()),
        serde_json::Value::Object(o) => Json::Object(
            o.iter().map(|(k, v)| (k.clone(), json_of_value(v))).collect(),
        ),
    }
}

/// Builds the `serde_json::Value` for a [`Json`], variant by variant. The
/// text of a number is read back with `serde_json::from_str` as a
/// `serde_json::Number`; where that fails, so does the whole conversion.
#[verifier::external_body]
fn value_of_json(json: &Json) -> (r: Option<serde_json::Value>)
    ensures
        r matches Some(v) ==> value_text(v) == json_text(json@),
        r is None ==> json_text(json@) is None,
{
    Some(match json {
        Json::Null => serde_json::Value::Null,
        Json::Bool(b) => (*b).into(),
        Json::Number(t) => serde_json::from_str::<serde_json::Number>(t).ok()?.into(),
        Json::Str(s) => s.as_str().into(),
        Json::Array(a) => a.iter().map(value_of_json).collect::<Option<Vec<_>>>()?.into(),
        Json::Object(o) => serde_json::Value::Object(
            o.iter().map(|(k, v)| Some((k.clone(), value_of_json(v)?))).collect::<Option<_>>()?,
        ),
    })
}

/// `serde_json::to_vec` of a `serde_json::Value`.
#[verifier::external_body]
fn value_to_vec(value: &serde_json::Value) -> (r: Result<Vec<u8>, serde_json::Error>)
    ensures
        r is Ok <==> value_text(*value) is Some,
        r matches Ok(bytes) ==> Some(bytes@) == value_text(*value),
{
    serde_json::to_vec(value)
}

/// The first member of `members` at or after `from` whose key is `key`.
pub open spec fn member_from(members: Seq<(Seq<char>, JsonValue)>, key: Seq<char>, from: int) -> Option<JsonValue>
    decreases members.len() - from,
{
    if from < 0 || from >= members.len() {
        None
    } else if members[from].0 == key {
        Some(members[from].1)
    } else {
        member_from(members, key, from + 1)
    }
}

impl JsonValue {
    /// The value of the first member named `key`, where `self` is an object
    /// that has one.
    pub open spec fn member(self, key: Seq<char>) -> Option<JsonValue> {
        match self {
            JsonValue::Object(members) => member_from(members, key, 0),
            _ => None,
        }
    }

    /// The text of a string value.
    pub open spec fn text(self) -> Option<Seq<char>> {
        match self {
            JsonValue::Str(s) => Some(s),
            _ => None,
        }
    }

    /// Whether this is `null`, an empty array or an empty object.
    pub open spec fn is_blank(self) -> bool {
        match self {
            JsonValue::Null => true,
            JsonValue::Array(items) => items.len() == 0,
            JsonValue::Object(members) => members.len() == 0,
            _ => false,
        }
    }
}

/// The view of a [`Json`], one level deep.
pub proof fn lemma_json_view(json: Json)
    ensures
        json is Null ==> json@ is Null,
        json matches Json::Bool(b) ==> json@ == JsonValue::Bool(b),
        json matches Json::Number(t) ==> json@ == JsonValue::Number(t@),
        json matches Json::Str(s) ==> json@ == JsonValue::Str(s@),
        json matches Json::Array(items) ==> (json@ matches JsonValue::Array(s) && s.len() == items.len()
            && forall|i: int| 0 <= i < s.len() ==> #[trigger] s[i] == items[i]@),
        json matches Json::Object(members) ==> (json@ matches JsonValue::Object(m) && m.len()
            == members.len() && forall|i: int|
            0 <= i < m.len() ==> #[trigger] m[i] == (members[i].0@, members[i].1@)),
{
    reveal_with_fuel(json_value, 2);
}

/// The views of the members of an object.
pub open spec fn members_view(members: Seq<(String, Json)>) -> Seq<(Seq<char>, JsonValue)> {
    members.map_values(|m: (String, Json)| (m.0@, m.1@))
}

/// The views of the items of an array.
pub open spec fn items_view(items: Seq<Json>) -> Seq<JsonValue> {
    items.map_values(|j: Json| j@)
}

/// The view of an object is the object of the views of its members.
pub proof fn lemma_object_view(members: Vec<(String, Json)>)
    ensures
        Json::Object(members)@ == JsonValue::Object(members_view(members@)),
{
    lemma_json_view(Json::Object(members));
    let m = Json::Object(members)@->Object_0;
    assert(m =~= members_view(members@));
}

/// The view of an array is the array of the views of its items.
pub proof fn lemma_array_view(items: Vec<Json>)
    ensures
        Json::Array(items)@ == JsonValue::Array(items_view(items@)),
{
    lemma_json_view(Json::Array(items));
    let s = Json::Array(items)@->Array_0;
    assert(s =~= items_view(items@));
}

impl Json {
    /// Reads a JSON document.
    pub fn parse(bytes: &[u8]) -> (r: Option<Json>)
        ensures
            r is Some <==> json_parse(bytes@) is Some,
            r matches Some(j) ==> Some(j@) == json_parse(bytes@),
    {
        match parse_value(bytes) {
            Ok(value) => Some(json_of_value(&value)),
            Err(_) => None,
        }
    }

    /// Reads a JSON document from a string.
    pub fn parse_str(text: &str) -> (r: Option<Json>)
        ensures
            r is Some <==> json_parse(text.spec_bytes()) is Some,
            r matches Some(j) ==> Some(j@) == json_parse(text.spec_bytes()),
    {
        Json::parse(text.as_bytes())
    }

    /// Writes this value as a JSON document.
    pub fn to_vec(&self) -> (r: Option<Vec<u8>>)
        ensures
            r is Some <==> json_text(self@) is Some,
            r matches Some(bytes) ==> Some(bytes@) == json_text(self@),
    {
        match value_of_json(self) {
            Some(value) => match value_to_vec(&value) {
                Ok(bytes) => Some(bytes),
                Err(_) => None,
            },
            None => None,
        }
    }

    /// The value of the first member named `key`, where `self` is an object
    /// that has one.
    pub fn get(&self, key: &str) -> (r: Option<&Json>)
        ensures
            r is Some <==> self@.member(key@) is Some,
            r matches Some(j) ==> Some(j@) == self@.member(key@),
    {
        proof {
            lemma_json_view(*self);
        }
        match self {
            Json::Object(members) => {
                let mut i: usize = 0;
                while i < members.len()
                    invariant
                        i <= members.len(),
                        self@ matches JsonValue::Object(m) && m.len() == members.len()
                            && member_from(m, key@, 0) == member_from(m, key@, i as int)
                            && forall|k: int| 0 <= k < m.len() ==> #[trigger] m[k] == (members[k].0@, members[k].1@),
                    decreases members.len() - i,
                {
                    if crate::text::str_eq(members[i].0.as_str(), key) {
                        return Some(&members[i].1);
                    }
                    i += 1;
                }
                None
            },
            _ => None,
        }
    }

    /// The text of a string value.
    pub fn as_str(&self) -> (r: Option<&str>)
        ensures
            r is Some <==> self@.text() is Some,
            r matches Some(s) ==> Some(s@) == self@.text(),
    {
        proof {
            lemma_json_view(*self);
        }
        match self {
            Json::Str(s) => Some(s.as_str()),
            _ => None,
        }
    }

    /// A copy of this value.
    pub fn duplicate(&self) -> (r: Json)
        ensures
            r@ == self@,
        decreases self,
    {
        proof {
            lemma_json_view(*self);
        }
        match self {
            Json::Null => Json::Null,
            Json::Bool(b) => Json::Bool(*b),
            Json::Number(t) => Json::Number(t.clone()),
            Json::Str(s) => Json::Str(s.clone()),
            Json::Array(items) => {
                let mut out: Vec<Json> = Vec::new();
                let mut i: usize = 0;
                while i < items.len()
                    invariant
                        i <= items.len(),
                        out@.len() == i,
                        *self == Json::Array(*items),
                        forall|k: int| 0 <= k < i ==> (#[trigger] out@[k])@ == items@[k]@,
                    decreases items.len() - i,
                {
                    assert(decreases_to!(*items => items[i as int]));
                    assert(decreases_to!(*self => self->Array_0));
                    assert(decreases_to!(*self => items[i as int]));
                    let item = items[i].duplicate();
                    out.push(item);
                    i += 1;
                }
                proof {
                    lemma_array_view(*items);
                    lemma_array_view(out);
                    assert(items_view(out@) =~= items_view(items@));
                }
                Json::Array(out)
            },
            Json::Object(members) => {
                let mut out: Vec<(String, Json)> = Vec::new();
                let mut i: usize = 0;
                while i < members.len()
                    invariant
                        i <= members.len(),
                        out@.len() == i,
                        *self == Json::Object(*members),
                        forall|k: int|
                            0 <= k < i ==> (#[trigger] out@[k]).0@ == members@[k].0@ && out@[k].1@
                                == members@[k].1@,
                    decreases members.len() - i,
                {
                    assert(decreases_to!(*members => members[i as int]));
                    assert(decreases_to!(members[i as int] => members[i as int].1));
                    assert(decreases_to!(*self => self->Object_0));
                    assert(decreases_to!(*self => members[i as int].1));
                    let value = members[i].1.duplicate();
                    out.push((members[i].0.clone(), value));
                    i += 1;
                }
                proof {
                    lemma_object_view(*members);
                    lemma_object_view(out);
                    assert(members_view(out@) =~= members_view(members@));
                }
                Json::Object(out)
            },
        }
    }

    /// The JSON number for `n`.
    pub fn from_usize(n: usize) -> (r: Json)
        ensures
            r@ == JsonValue::Number(crate::text::decimal(n as nat)),
    {
        let r = Json::Number(crate::text::usize_to_string(n));
        proof {
            lemma_json_view(r);
        }
        r
    }

    /// The JSON number for `n`.
    pub fn from_u64(n: u64) -> (r: Json)
        ensures
            r@ == JsonValue::Number(crate::text::decimal(n as nat)),
    {
        let r = Json::Number(crate::text::u64_to_string(n));
        proof {
            lemma_json_view(r);
        }
        r
    }

    /// The JSON string for `text`.
    pub fn from_str(text: &str) -> (r: Json)
        ensures
            r@ == JsonValue::Str(text@),
    {
        let r = Json::Str(String::from_str(text));
        proof {
            lemma_json_view(r);
        }
        r
    }

    /// The JSON boolean for `b`.
    pub fn from_bool(b: bool) -> (r: Json)
        ensures
            r@ == JsonValue::Bool(b),
    {
        let r = Json::Bool(b);
        proof {
            lemma_json_view(r);
        }
        r
    }

    /// Whether this is `null`, an empty array or an empty object.
    pub fn is_blank(&self) -> (r: bool)
        ensures
            r == self@.is_blank(),
    {
        proof {
            lemma_json_view(*self);
        }
        match self {
            Json::Null => true,
            Json::Array(items) => items.len() == 0,
            Json::Object(members) => members.len() == 0,
            _ => false,
        }
    }
}

} // verus!
