//! Markets: the countries in which content is available.

use vstd::prelude::*;
use vstd::string::*;
use crate::api::error::DecodeError;
use crate::api::params::ParamValue;
use crate::decode::FromJson;
use crate::json::{lemma_json_view, Json, JsonValue};

verus! {

/// A market: an [ISO 3166-1 alpha-2 country code](https://en.wikipedia.org/wiki/ISO_3166-1_alpha-2).
#[derive(Debug, PartialEq, Eq, Hash)]
pub struct Market {
    code: String,
}

impl Clone for Market {
    fn clone(&self) -> (r: Self)
        ensures
            r@ == self@,
    {
        Market { code: self.code.clone() }
    }
}

/// Whether `text` has the form of a country code: two capital ASCII
/// letters.
pub open spec fn is_country_code(text: Seq<char>) -> bool {
    text.len() == 2 && 'A' <= text[0] <= 'Z' && 'A' <= text[1] <= 'Z'
}

impl View for Market {
    type V = Seq<char>;

    closed spec fn view(&self) -> Seq<char> {
        self.code@
    }
}

impl Market {
    /// The market with the country code `code`; `None` where `code` has
    /// not the form of one.
    pub fn from_code(code: &str) -> (r: Option<Self>)
        ensures
            r is Some <==> is_country_code(code@),
            r matches Some(m) ==> m@ == code@,
    {
        if code.unicode_len() != 2 {
            return None;
        }
        let a = code.get_char(0);
        let b = code.get_char(1);
        if 'A' <= a && a <= 'Z' && 'A' <= b && b <= 'Z' {
            Some(Market { code: String::from_str(code) })
        } else {
            None
        }
    }

    /// The country code.
    pub fn as_str(&self) -> (r: &str)
        ensures
            r@ == self@,
    {
        self.code.as_str()
    }

    /// The country code.
    pub fn to_string(&self) -> (r: String)
        ensures
            r@ == self@,
    {
        self.code.clone()
    }
}

impl FromJson for Market {
    open spec fn decodes(json: JsonValue, value: Self) -> bool {
        json == JsonValue::Str(value@)
    }

    open spec fn defect(json: JsonValue) -> Option<DecodeError> {
        match json {
            JsonValue::Str(text) => if is_country_code(text) {
                None
            } else {
                Some(DecodeError::UnknownVariant)
            },
            _ => Some(DecodeError::ExpectedString),
        }
    }

    open spec fn spec_target() -> Seq<char> {
        "Market"@
    }

    fn target() -> (r: &'static str) {
        "Market"
    }

    fn from_json(json: &Json) -> (r: Result<Self, DecodeError>) {
        proof {
            lemma_json_view(*json);
        }
        match json {
            Json::Str(text) => match Market::from_code(text.as_str()) {
                Some(market) => Ok(market),
                None => Err(DecodeError::UnknownVariant),
            },
            _ => Err(DecodeError::ExpectedString),
        }
    }
}

impl ParamValue for Market {
    open spec fn spec_value(&self) -> Seq<char> {
        self@
    }

    fn as_value(&self) -> (r: String) {
        self.to_string()
    }
}

impl ParamValue for &Market {
    open spec fn spec_value(&self) -> Seq<char> {
        self@
    }

    fn as_value(&self) -> (r: String) {
        self.to_string()
    }
}

} // verus!
