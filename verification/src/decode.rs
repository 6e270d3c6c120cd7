//! Decoding of typed values from JSON.

use vstd::prelude::*;
use vstd::string::*;
use crate::api::error::DecodeError;
use crate::json::{items_view, lemma_array_view, lemma_json_view, Json, JsonValue};
use crate::text::{integer_of_text, parse_integer};

verus! {

/// A type whose values can be read from JSON.
pub trait FromJson: Sized {
    /// Whether `value` is what `json` decodes to. A type that is written
    /// outside the verified code leaves it open.
    open spec fn decodes(json: JsonValue, value: Self) -> bool {
        true
    }

    /// Why `json` does not decode, or `None` where it does. A type that is
    /// written outside the verified code leaves it open.
    open spec fn defect(json: JsonValue) -> Option<DecodeError> {
        arbitrary()
    }

    /// The name of the target type, for error messages.
    open spec fn spec_target() -> Seq<char> {
        arbitrary()
    }

    /// The name of the target type, for error messages.
    fn target() -> (r: &'static str)
        ensures
            r@ == Self::spec_target(),
    ;

    /// Reads a value of this type from `json`.
    fn from_json(json: &Json) -> (r: Result<Self, DecodeError>)
        ensures
            match r {
                Ok(value) => Self::defect(json@) is None && Self::decodes(json@, value),
                Err(e) => Self::defect(json@) == Some(e),
            },
    ;
}

/// The integer that a JSON number stands for, where it is one.
pub open spec fn integer_of(json: JsonValue) -> Option<int> {
    match json {
        JsonValue::Number(text) => integer_of_text(text),
        _ => None,
    }
}

/// The integer that a JSON number stands for, where it is one whose
/// magnitude a `u64` can hold.
pub fn json_integer(json: &Json) -> (r: Option<i128>)
    ensures
        r == match integer_of(json@) {
            Some(v) if -(u64::MAX as int) <= v <= u64::MAX as int => Some(v as i128),
            _ => None,
        },
{
    proof {
        lemma_json_view(*json);
    }
    match json {
        Json::Number(text) => parse_integer(text.as_str()),
        _ => None,
    }
}

/// Why `json` is no integer between `low` and `high`, or `None` where it is
/// one.
pub open spec fn integer_defect(json: JsonValue, low: int, high: int) -> Option<DecodeError> {
    match integer_of(json) {
        Some(n) if low <= n <= high => None,
        _ => Some(DecodeError::ExpectedInteger),
    }
}

impl FromJson for bool {
    open spec fn decodes(json: JsonValue, value: Self) -> bool {
        json == JsonValue::Bool(value)
    }

    open spec fn defect(json: JsonValue) -> Option<DecodeError> {
        if json is Bool {
            None
        } else {
            Some(DecodeError::ExpectedBool)
        }
    }

    open spec fn spec_target() -> Seq<char> {
        "bool"@
    }

    fn target() -> (r: &'static str) {
        "bool"
    }

    fn from_json(json: &Json) -> (r: Result<Self, DecodeError>) {
        proof {
            lemma_json_view(*json);
        }
        match json {
            Json::Bool(b) => Ok(*b),
            _ => Err(DecodeError::ExpectedBool),
        }
    }
}

impl FromJson for String {
    open spec fn decodes(json: JsonValue, value: Self) -> bool {
        json == JsonValue::Str(value@)
    }

    open spec fn defect(json: JsonValue) -> Option<DecodeError> {
        if json is Str {
            None
        } else {
            Some(DecodeError::ExpectedString)
        }
    }

    open spec fn spec_target() -> Seq<char> {
        "String"@
    }

    fn target() -> (r: &'static str) {
        "String"
    }

    fn from_json(json: &Json) -> (r: Result<Self, DecodeError>) {
        proof {
            lemma_json_view(*json);
        }
        match json {
            Json::Str(s) => Ok(s.clone()),
            _ => Err(DecodeError::ExpectedString),
        }
    }
}

impl FromJson for u8 {
    open spec fn decodes(json: JsonValue, value: Self) -> bool {
        integer_of(json) == Some(value as int)
    }

    open spec fn defect(json: JsonValue) -> Option<DecodeError> {
        integer_defect(json, 0, u8::MAX as int)
    }

    open spec fn spec_target() -> Seq<char> {
        "u8"@
    }

    fn target() -> (r: &'static str) {
        "u8"
    }

    fn from_json(json: &Json) -> (r: Result<Self, DecodeError>) {
        match json_integer(json) {
            Some(n) if 0 <= n && n <= u8::MAX as i128 => Ok(n as u8),
            _ => Err(DecodeError::ExpectedInteger),
        }
    }
}

impl FromJson for u16 {
    open spec fn decodes(json: JsonValue, value: Self) -> bool {
        integer_of(json) == Some(value as int)
    }

    open spec fn defect(json: JsonValue) -> Option<DecodeError> {
        integer_defect(json, 0, u16::MAX as int)
    }

    open spec fn spec_target() -> Seq<char> {
        "u16"@
    }

    fn target() -> (r: &'static str) {
        "u16"
    }

    fn from_json(json: &Json) -> (r: Result<Self, DecodeError>) {
        match json_integer(json) {
            Some(n) if 0 <= n && n <= u16::MAX as i128 => Ok(n as u16),
            _ => Err(DecodeError::ExpectedInteger),
        }
    }
}

impl FromJson for u32 {
    open spec fn decodes(json: JsonValue, value: Self) -> bool {
        integer_of(json) == Some(value as int)
    }

    open spec fn defect(json: JsonValue) -> Option<DecodeError> {
        integer_defect(json, 0, u32::MAX as int)
    }

    open spec fn spec_target() -> Seq<char> {
        "u32"@
    }

    fn target() -> (r: &'static str) {
        "u32"
    }

    fn from_json(json: &Json) -> (r: Result<Self, DecodeError>) {
        match json_integer(json) {
            Some(n) if 0 <= n && n <= u32::MAX as i128 => Ok(n as u32),
            _ => Err(DecodeError::ExpectedInteger),
        }
    }
}

impl FromJson for u64 {
    open spec fn decodes(json: JsonValue, value: Self) -> bool {
        integer_of(json) == Some(value as int)
    }

    open spec fn defect(json: JsonValue) -> Option<DecodeError> {
        integer_defect(json, 0, u64::MAX as int)
    }

    open spec fn spec_target() -> Seq<char> {
        "u64"@
    }

    fn target() -> (r: &'static str) {
        "u64"
    }

    fn from_json(json: &Json) -> (r: Result<Self, DecodeError>) {
        match json_integer(json) {
            Some(n) if 0 <= n && n <= u64::MAX as i128 => Ok(n as u64),
            _ => Err(DecodeError::ExpectedInteger),
        }
    }
}

impl FromJson for usize {
    open spec fn decodes(json: JsonValue, value: Self) -> bool {
        integer_of(json) == Some(value as int)
    }

    open spec fn defect(json: JsonValue) -> Option<DecodeError> {
        integer_defect(json, 0, usize::MAX as int)
    }

    open spec fn spec_target() -> Seq<char> {
        "usize"@
    }

    fn target() -> (r: &'static str) {
        "usize"
    }

    fn from_json(json: &Json) -> (r: Result<Self, DecodeError>) {
        match json_integer(json) {
            Some(n) if 0 <= n && n <= usize::MAX as i128 => Ok(n as usize),
            _ => Err(DecodeError::ExpectedInteger),
        }
    }
}

impl FromJson for i64 {
    open spec fn decodes(json: JsonValue, value: Self) -> bool {
        integer_of(json) == Some(value as int)
    }

    open spec fn defect(json: JsonValue) -> Option<DecodeError> {
        integer_defect(json, i64::MIN as int, i64::MAX as int)
    }

    open spec fn spec_target() -> Seq<char> {
        "i64"@
    }

    fn target() -> (r: &'static str) {
        "i64"
    }

    fn from_json(json: &Json) -> (r: Result<Self, DecodeError>) {
        match json_integer(json) {
            Some(n) if i64::MIN as i128 <= n && n <= i64::MAX as i128 => Ok(n as i64),
            _ => Err(DecodeError::ExpectedInteger),
        }
    }
}

/// The first defect among `items[from..]`.
pub open spec fn items_defect<T: FromJson>(items: Seq<JsonValue>, from: int) -> Option<DecodeError>
    decreases items.len() - from,
{
    if from < 0 || from >= items.len() {
        None
    } else if T::defect(items[from]) is Some {
        T::defect(items[from])
    } else {
        items_defect::<T>(items, from + 1)
    }
}

impl<T: FromJson> FromJson for Vec<T> {
    open spec fn decodes(json: JsonValue, value: Self) -> bool {
        json matches JsonValue::Array(items) && items.len() == value@.len() && forall|i: int|
            0 <= i < items.len() ==> T::decodes(#[trigger] items[i], value@[i])
    }

    open spec fn defect(json: JsonValue) -> Option<DecodeError> {
        match json {
            JsonValue::Array(items) => items_defect::<T>(items, 0),
            _ => Some(DecodeError::ExpectedArray),
        }
    }

    open spec fn spec_target() -> Seq<char> {
        "Vec"@
    }

    fn target() -> (r: &'static str) {
        "Vec"
    }

    fn from_json(json: &Json) -> (r: Result<Self, DecodeError>) {
        match json {
            Json::Array(items) => {
                proof {
                    lemma_array_view(*items);
                }
                let ghost values = items_view(items@);
                let mut out: Vec<T> = Vec::new();
                let mut i: usize = 0;
                while i < items.len()
                    invariant
                        i <= items.len(),
                        values == items_view(items@),
                        json@ == JsonValue::Array(values),
                        out@.len() == i,
                        items_defect::<T>(values, 0) == items_defect::<T>(values, i as int),
                        forall|k: int| 0 <= k < i ==> T::decodes(#[trigger] values[k], out@[k]),
                    decreases items.len() - i,
                {
                    match T::from_json(&items[i]) {
                        Ok(value) => {
                            out.push(value);
                        },
                        Err(e) => {
                            proof {
                                assert(values[i as int] == items@[i as int]@);
                                assert(items_defect::<T>(values, i as int) == Some(e));
                            }
                            return Err(e);
                        },
                    }
                    i += 1;
                }
                Ok(out)
            },
            _ => {
                proof {
                    lemma_json_view(*json);
                }
                Err(DecodeError::ExpectedArray)
            },
        }
    }
}

impl<T: FromJson> FromJson for Option<T> {
    open spec fn decodes(json: JsonValue, value: Self) -> bool {
        match value {
            Some(v) => !(json is Null) && T::decodes(json, v),
            None => json is Null,
        }
    }

    open spec fn defect(json: JsonValue) -> Option<DecodeError> {
        if json is Null {
            None
        } else {
            T::defect(json)
        }
    }

    open spec fn spec_target() -> Seq<char> {
        "Option"@
    }

    fn target() -> (r: &'static str) {
        "Option"
    }

    fn from_json(json: &Json) -> (r: Result<Self, DecodeError>) {
        proof {
            lemma_json_view(*json);
        }
        match json {
            Json::Null => Ok(None),
            _ => match T::from_json(json) {
                Ok(v) => Ok(Some(v)),
                Err(e) => Err(e),
            },
        }
    }
}

/// What the member `key` of an object holds, `null` where the object has no
/// such member.
pub open spec fn field_of(json: JsonValue, key: Seq<char>) -> JsonValue {
    match json.member(key) {
        Some(value) => value,
        None => JsonValue::Null,
    }
}

/// Why the member `key` of `json` does not decode as a `T`, or `None` where
/// it does. A member that is missing, or `null`, where `T` does not take
/// `null` is reported as missing.
pub open spec fn field_defect<T: FromJson>(json: JsonValue, key: Seq<char>) -> Option<DecodeError> {
    if !(json is Object) {
        Some(DecodeError::ExpectedObject)
    } else if json.member(key) is None && T::defect(JsonValue::Null) is Some {
        Some(DecodeError::MissingField)
    } else {
        T::defect(field_of(json, key))
    }
}

/// Whether `value` is what the member `key` of `json` decodes to.
pub open spec fn field_decodes<T: FromJson>(json: JsonValue, key: Seq<char>, value: T) -> bool {
    T::decodes(field_of(json, key), value)
}

/// Reads the member `key` of an object as a `T`. A type that takes `null`
/// takes a missing member as well.
pub fn field<T: FromJson>(json: &Json, key: &str) -> (r: Result<T, DecodeError>)
    ensures
        match r {
            Ok(value) => field_defect::<T>(json@, key@) is None && field_decodes(json@, key@, value),
            Err(e) => field_defect::<T>(json@, key@) == Some(e),
        },
{
    proof {
        lemma_json_view(*json);
    }
    match json {
        Json::Object(_) => match json.get(key) {
            Some(member) => T::from_json(member),
            None => {
                let null = Json::Null;
                proof {
                    lemma_json_view(null);
                }
                match T::from_json(&null) {
                    Ok(value) => Ok(value),
                    Err(_) => Err(DecodeError::MissingField),
                }
            },
        },
        _ => Err(DecodeError::ExpectedObject),
    }
}

/// Why the list under `key` of `json` does not decode, or `None` where it
/// does. A list that is missing is an empty one.
pub open spec fn list_defect<T: FromJson>(json: JsonValue, key: Seq<char>) -> Option<DecodeError> {
    if !(json is Object) {
        Some(DecodeError::ExpectedObject)
    } else {
        match json.member(key) {
            Some(value) => Vec::<T>::defect(value),
            None => None,
        }
    }
}

/// Whether `value` is what the list under `key` of `json` decodes to.
pub open spec fn list_decodes<T: FromJson>(json: JsonValue, key: Seq<char>, value: Vec<T>) -> bool {
    match json.member(key) {
        Some(list) => Vec::<T>::decodes(list, value),
        None => value@.len() == 0,
    }
}

/// Reads the member `key` of an object as a list of `T`; an empty list
/// where the object has no such member.
pub fn list<T: FromJson>(json: &Json, key: &str) -> (r: Result<Vec<T>, DecodeError>)
    ensures
        match r {
            Ok(value) => list_defect::<T>(json@, key@) is None && list_decodes(json@, key@, value),
            Err(e) => list_defect::<T>(json@, key@) == Some(e),
        },
{
    proof {
        lemma_json_view(*json);
    }
    match json {
        Json::Object(_) => match json.get(key) {
            Some(member) => Vec::<T>::from_json(member),
            None => Ok(Vec::new()),
        },
        _ => Err(DecodeError::ExpectedObject),
    }
}

} // verus!
