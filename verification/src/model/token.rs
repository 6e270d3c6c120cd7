//! Access tokens.

use vstd::prelude::*;
use vstd::string::*;
use crate::api::error::DecodeError;
use crate::decode::{field, field_decodes, field_defect, FromJson};
use crate::json::{lemma_json_view, lemma_object_view, members_view, Json, JsonValue};
use crate::text::decimal;
use crate::time::{parsed_time, rfc3339_auto, Timestamp};

verus! {

impl FromJson for Timestamp {
    open spec fn decodes(json: JsonValue, value: Self) -> bool {
        json matches JsonValue::Str(text) && parsed_time(text) == Some((value.secs, value.nanos))
    }

    open spec fn defect(json: JsonValue) -> Option<DecodeError> {
        match json {
            JsonValue::Str(text) => if parsed_time(text) is Some {
                None
            } else {
                Some(DecodeError::UnknownVariant)
            },
            _ => Some(DecodeError::ExpectedString),
        }
    }

    open spec fn spec_target() -> Seq<char> {
        "Timestamp"@
    }

    fn target() -> (r: &'static str) {
        "Timestamp"
    }

    fn from_json(json: &Json) -> (r: Result<Self, DecodeError>) {
        proof {
            lemma_json_view(*json);
        }
        match json {
            Json::Str(text) => match Timestamp::parse(text.as_str()) {
                Some(time) => Ok(time),
                None => Err(DecodeError::UnknownVariant),
            },
            _ => Err(DecodeError::ExpectedString),
        }
    }
}

/// An access token, as the token endpoint of the service issues it.
#[derive(Debug, Clone, PartialEq, Eq)]
pub struct Token {
    /// An access token that can be provided in subsequent calls.
    pub access_token: String,
    /// How the access token may be used: always "Bearer".
    pub token_type: String,
    /// The time period (in seconds) for which the access token is valid.
    pub expires_in: u64,
    /// A token with which a new access token can be had when this one has
    /// expired.
    pub refresh_token: Option<String>,
    /// A space-separated list of scopes which have been granted for this
    /// access token.
    pub scope: Option<String>,
    /// The time at which the access token expires. It is absolute: whoever
    /// reads it needs not know when the token was issued.
    pub expires_at: Option<Timestamp>,
}

impl FromJson for Token {
    open spec fn decodes(json: JsonValue, value: Self) -> bool {
        &&& field_decodes::<String>(json, "access_token"@, value.access_token)
        &&& field_decodes::<String>(json, "token_type"@, value.token_type)
        &&& field_decodes::<u64>(json, "expires_in"@, value.expires_in)
        &&& field_decodes::<Option<String>>(json, "refresh_token"@, value.refresh_token)
        &&& field_decodes::<Option<String>>(json, "scope"@, value.scope)
        &&& field_decodes::<Option<Timestamp>>(json, "expires_at"@, value.expires_at)
    }

    open spec fn defect(json: JsonValue) -> Option<DecodeError> {
        if field_defect::<String>(json, "access_token"@) is Some {
            field_defect::<String>(json, "access_token"@)
        } else if field_defect::<String>(json, "token_type"@) is Some {
            field_defect::<String>(json, "token_type"@)
        } else if field_defect::<u64>(json, "expires_in"@) is Some {
            field_defect::<u64>(json, "expires_in"@)
        } else if field_defect::<Option<String>>(json, "refresh_token"@) is Some {
            field_defect::<Option<String>>(json, "refresh_token"@)
        } else if field_defect::<Option<String>>(json, "scope"@) is Some {
            field_defect::<Option<String>>(json, "scope"@)
        } else {
            field_defect::<Option<Timestamp>>(json, "expires_at"@)
        }
    }

    open spec fn spec_target() -> Seq<char> {
        "Token"@
    }

    fn target() -> (r: &'static str) {
        "Token"
    }

    fn from_json(json: &Json) -> (r: Result<Self, DecodeError>) {
        let access_token = field::<String>(json, "access_token")?;
        let token_type = field::<String>(json, "token_type")?;
        let expires_in = field::<u64>(json, "expires_in")?;
        let refresh_token = field::<Option<String>>(json, "refresh_token")?;
        let scope = field::<Option<String>>(json, "scope")?;
        let expires_at = field::<Option<Timestamp>>(json, "expires_at")?;
        Ok(Token { access_token, token_type, expires_in, refresh_token, scope, expires_at })
    }
}

/// The JSON for a text that may be absent: a string, or `null`.
pub open spec fn text_or_null(text: Option<Seq<char>>) -> JsonValue {
    match text {
        Some(t) => JsonValue::Str(t),
        None => JsonValue::Null,
    }
}

fn json_text_or_null(text: Option<&str>) -> (r: Json)
    ensures
        r@ == text_or_null(
            match text {
                Some(t) => Some(t@),
                None => None,
            },
        ),
{
    match text {
        Some(t) => Json::from_str(t),
        None => {
            let r = Json::Null;
            proof {
                lemma_json_view(r);
            }
            r
        },
    }
}

impl Token {
    /// Whether the token counts as expired at the time `now`: its expiry
    /// lies before `now`, or it has none.
    pub open spec fn spec_is_expired_at(&self, now: Timestamp) -> bool {
        match self.expires_at {
            Some(expiry) => now.is_after(expiry),
            None => true,
        }
    }

    /// Whether the token counts as expired at the time `now`.
    pub fn is_expired_at(&self, now: Timestamp) -> (r: bool)
        ensures
            r == self.spec_is_expired_at(now),
    {
        match &self.expires_at {
            Some(expiry) => now.after(expiry),
            None => true,
        }
    }

    /// Whether the token counts as expired by the clock of the machine: the
    /// verdict of [`Token::is_expired_at`] for the time that the clock says,
    /// whatever that time is.
    pub fn is_expired(&self) -> (r: bool)
        ensures
            exists|now: Timestamp| r == #[trigger] self.spec_is_expired_at(now),
            self.expires_at is None ==> r,
    {
        let now = Timestamp::now();
        let r = self.is_expired_at(now);
        assert(r == self.spec_is_expired_at(now));
        r
    }

    /// The members of the JSON object that the token is written as. The
    /// expiry is written in RFC 3339, or as `null` where there is none or
    /// it lies outside the years that the calendar covers.
    pub open spec fn spec_members(&self) -> Seq<(Seq<char>, JsonValue)> {
        seq![
            ("access_token"@, JsonValue::Str(self.access_token@)),
            ("token_type"@, JsonValue::Str(self.token_type@)),
            ("expires_in"@, JsonValue::Number(decimal(self.expires_in as nat))),
            (
                "refresh_token"@,
                text_or_null(
                    match self.refresh_token {
                        Some(t) => Some(t@),
                        None => None,
                    },
                ),
            ),
            (
                "scope"@,
                text_or_null(
                    match self.scope {
                        Some(t) => Some(t@),
                        None => None,
                    },
                ),
            ),
            (
                "expires_at"@,
                text_or_null(
                    match self.expires_at {
                        Some(t) => rfc3339_auto(t.secs, t.nanos),
                        None => None,
                    },
                ),
            ),
        ]
    }

    /// The token as a JSON object.
    pub fn to_json(&self) -> (r: Json)
        ensures
            r@ == JsonValue::Object(self.spec_members()),
    {
        let expiry = match &self.expires_at {
            Some(t) => t.to_rfc3339_precise(),
            None => None,
        };
        let mut members: Vec<(String, Json)> = Vec::new();
        members.push((String::from_str("access_token"), Json::from_str(self.access_token.as_str())));
        members.push((String::from_str("token_type"), Json::from_str(self.token_type.as_str())));
        members.push((String::from_str("expires_in"), Json::from_u64(self.expires_in)));
        members.push(
            (
                String::from_str("refresh_token"),
                json_text_or_null(
                    match &self.refresh_token {
                        Some(t) => Some(t.as_str()),
                        None => None,
                    },
                ),
            ),
        );
        members.push(
            (
                String::from_str("scope"),
                json_text_or_null(
                    match &self.scope {
                        Some(t) => Some(t.as_str()),
                        None => None,
                    },
                ),
            ),
        );
        members.push(
            (
                String::from_str("expires_at"),
                json_text_or_null(
                    match &expiry {
                        Some(t) => Some(t.as_str()),
                        None => None,
                    },
                ),
            ),
        );
        proof {
            lemma_object_view(members);
            assert(members_view(members@) =~= self.spec_members());
        }
        Json::Object(members)
    }
}

} // verus!
