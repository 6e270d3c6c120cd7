//! Users.

use vstd::prelude::*;
use vstd::string::*;
use crate::api::error::DecodeError;
use crate::decode::{field, field_decodes, field_defect, FromJson};
use crate::json::{lemma_json_view, Json, JsonValue};
use crate::text::str_eq;
use crate::model::markets::Market;
use crate::model::misc::ExternalUrls;
use crate::model::misc::Followers;
use crate::model::misc::Image;
use crate::model::misc::ItemType;

verus! {

/// The user's Spotify subscription type.
#[derive(Debug, Clone, Copy, PartialEq, Eq, Structural)]
pub enum SubscriptionType {
    Free,
    Premium,
}

impl SubscriptionType {
    /// The value that the service writes as `text`.
    pub open spec fn named(text: Seq<char>) -> Option<Self> {
        if text == "free"@ {
            Some(SubscriptionType::Free)
        }         else if text == "open"@ {
            Some(SubscriptionType::Free)
        }         else if text == "premium"@ {
            Some(SubscriptionType::Premium)
        } else {
            None
        }
    }

    /// The value that the service writes as `text`.
    pub fn from_name(text: &str) -> (r: Option<Self>)
        ensures
            r == Self::named(text@),
    {
        if str_eq(text, "free") {
            Some(SubscriptionType::Free)
        }         else if str_eq(text, "open") {
            Some(SubscriptionType::Free)
        }         else if str_eq(text, "premium") {
            Some(SubscriptionType::Premium)
        } else {
            None
        }
    }
}

impl FromJson for SubscriptionType {
    open spec fn decodes(json: JsonValue, value: Self) -> bool {
        json matches JsonValue::Str(text) && Self::named(text) == Some(value)
    }

    open spec fn defect(json: JsonValue) -> Option<DecodeError> {
        match json {
            JsonValue::Str(text) => if Self::named(text) is Some {
                None
            } else {
                Some(DecodeError::UnknownVariant)
            },
            _ => Some(DecodeError::ExpectedString),
        }
    }

    open spec fn spec_target() -> Seq<char> {
        "SubscriptionType"@
    }

    fn target() -> (r: &'static str) {
        "SubscriptionType"
    }

    fn from_json(json: &Json) -> (r: Result<Self, DecodeError>) {
        proof {
            lemma_json_view(*json);
        }
        match json {
            Json::Str(text) => match Self::from_name(text.as_str()) {
                Some(value) => Ok(value),
                None => Err(DecodeError::UnknownVariant),
            },
            _ => Err(DecodeError::ExpectedString),
        }
    }
}

impl SubscriptionType {
    /// The text that this value is displayed as.
    pub open spec fn spec_text(&self) -> Seq<char> {
        match self {
            SubscriptionType::Free => "Free"@,
            SubscriptionType::Premium => "Premium"@,
        }
    }

    /// The text that this value is displayed as.
    pub fn as_str(&self) -> (r: &'static str)
        ensures
            r@ == self.spec_text(),
    {
        match self {
            SubscriptionType::Free => "Free",
            SubscriptionType::Premium => "Premium",
        }
    }

    /// The text that this value is displayed as.
    pub fn to_string(&self) -> (r: String)
        ensures
            r@ == self.spec_text(),
    {
        String::from_str(self.as_str())
    }
}

/// The user's explicit content settings. This field is only available when the current user has granted access to the user-read-private scope.
#[derive(Debug, Clone, PartialEq, Eq)]
pub struct ExplicitContent {
    /// When true, indicates that explicit content should not be played.
    pub filter_enabled: bool,
    /// When true, indicates that the explicit content setting is locked and can't be changed by the user.
    pub filter_locked: bool,
}

impl FromJson for ExplicitContent {
    open spec fn decodes(json: JsonValue, value: Self) -> bool {
        &&& field_decodes::<bool>(json, "filter_enabled"@, value.filter_enabled)
        &&& field_decodes::<bool>(json, "filter_locked"@, value.filter_locked)
    }

    open spec fn defect(json: JsonValue) -> Option<DecodeError> {
        if field_defect::<bool>(json, "filter_enabled"@) is Some {
            field_defect::<bool>(json, "filter_enabled"@)
        } else {
            field_defect::<bool>(json, "filter_locked"@)
        }
    }

    open spec fn spec_target() -> Seq<char> {
        "ExplicitContent"@
    }

    fn target() -> (r: &'static str) {
        "ExplicitContent"
    }

    fn from_json(json: &Json) -> (r: Result<Self, DecodeError>) {
        let filter_enabled = field::<bool>(json, "filter_enabled")?;
        let filter_locked = field::<bool>(json, "filter_locked")?;
        Ok(ExplicitContent { filter_enabled, filter_locked })
    }
}

/// The currently authenticated user's profile.
///
/// Contains additional private information compared to [`UserProfile`],
/// such as email and country (requires appropriate scopes).
#[derive(Debug, Clone, PartialEq, Eq)]
pub struct CurrentUserProfile {
    /// The country of the user, as set in the user's account profile.
    /// An [ISO 3166-1 alpha-2 country code](http://en.wikipedia.org/wiki/ISO_3166-1_alpha-2).
    /// This field is only available when the current user has granted access to the [user-read-private scope](https://developer.spotify.com/documentation/web-api/concepts/scopes#list-of-scopes).
    pub country: Option<Market>,
    /// The name displayed on the user's profile. None if not available.
    pub display_name: Option<String>,
    /// The user's email address, as entered by the user when creating their account.
    /// Important! This email address is unverified; there is no proof that it actually belongs to the user.
    /// This field is only available when the current user has granted access to the [user-read-email scope](https://developer.spotify.com/documentation/web-api/concepts/scopes#list-of-scopes).
    pub email: Option<String>,
    /// The user's explicit content settings.
    /// This field is only available when the current user has granted access to the user-read-private scope.
    pub explicit_content: Option<ExplicitContent>,
    /// Known external URLs for this user.
    pub external_urls: ExternalUrls,
    /// Information about the followers of the user.
    pub followers: Followers,
    /// A link to the Web API endpoint for this user.
    pub href: String,
    /// The [Spotify user ID](https://developer.spotify.com/documentation/web-api/concepts/spotify-uris-ids) for the user.
    pub id: String,
    /// The user's profile images.
    pub images: Vec<Image>,
    /// The user's Spotify subscription level: "premium", "free", etc.
    /// (The subscription level "open" can be considered the same as "free".)
    /// This field is only available when the current user has granted access to the [user-read-private scope](https://developer.spotify.com/documentation/web-api/concepts/scopes#list-of-scopes).
    pub product: Option<SubscriptionType>,
    /// The object type: "user".
    pub type_: ItemType,
    /// The [Spotify URI](https://developer.spotify.com/documentation/web-api/concepts/spotify-uris-ids) for the user.
    pub uri: String,
}

impl FromJson for CurrentUserProfile {
    open spec fn decodes(json: JsonValue, value: Self) -> bool {
        &&& field_decodes::<Option<Market>>(json, "country"@, value.country)
        &&& field_decodes::<Option<String>>(json, "display_name"@, value.display_name)
        &&& field_decodes::<Option<String>>(json, "email"@, value.email)
        &&& field_decodes::<Option<ExplicitContent>>(json, "explicit_content"@, value.explicit_content)
        &&& field_decodes::<ExternalUrls>(json, "external_urls"@, value.external_urls)
        &&& field_decodes::<Followers>(json, "followers"@, value.followers)
        &&& field_decodes::<String>(json, "href"@, value.href)
        &&& field_decodes::<String>(json, "id"@, value.id)
        &&& field_decodes::<Vec<Image>>(json, "images"@, value.images)
        &&& field_decodes::<Option<SubscriptionType>>(json, "product"@, value.product)
        &&& field_decodes::<ItemType>(json, "type"@, value.type_)
        &&& field_decodes::<String>(json, "uri"@, value.uri)
    }

    open spec fn defect(json: JsonValue) -> Option<DecodeError> {
        if field_defect::<Option<Market>>(json, "country"@) is Some {
            field_defect::<Option<Market>>(json, "country"@)
        } else if field_defect::<Option<String>>(json, "display_name"@) is Some {
            field_defect::<Option<String>>(json, "display_name"@)
        } else if field_defect::<Option<String>>(json, "email"@) is Some {
            field_defect::<Option<String>>(json, "email"@)
        } else if field_defect::<Option<ExplicitContent>>(json, "explicit_content"@) is Some {
            field_defect::<Option<ExplicitContent>>(json, "explicit_content"@)
        } else if field_defect::<ExternalUrls>(json, "external_urls"@) is Some {
            field_defect::<ExternalUrls>(json, "external_urls"@)
        } else if field_defect::<Followers>(json, "followers"@) is Some {
            field_defect::<Followers>(json, "followers"@)
        } else if field_defect::<String>(json, "href"@) is Some {
            field_defect::<String>(json, "href"@)
        } else if field_defect::<String>(json, "id"@) is Some {
            field_defect::<String>(json, "id"@)
        } else if field_defect::<Vec<Image>>(json, "images"@) is Some {
            field_defect::<Vec<Image>>(json, "images"@)
        } else if field_defect::<Option<SubscriptionType>>(json, "product"@) is Some {
            field_defect::<Option<SubscriptionType>>(json, "product"@)
        } else if field_defect::<ItemType>(json, "type"@) is Some {
            field_defect::<ItemType>(json, "type"@)
        } else {
            field_defect::<String>(json, "uri"@)
        }
    }

    open spec fn spec_target() -> Seq<char> {
        "CurrentUserProfile"@
    }

    fn target() -> (r: &'static str) {
        "CurrentUserProfile"
    }

    fn from_json(json: &Json) -> (r: Result<Self, DecodeError>) {
        let country = field::<Option<Market>>(json, "country")?;
        let display_name = field::<Option<String>>(json, "display_name")?;
        let email = field::<Option<String>>(json, "email")?;
        let explicit_content = field::<Option<ExplicitContent>>(json, "explicit_content")?;
        let external_urls = field::<ExternalUrls>(json, "external_urls")?;
        let followers = field::<Followers>(json, "followers")?;
        let href = field::<String>(json, "href")?;
        let id = field::<String>(json, "id")?;
        let images = field::<Vec<Image>>(json, "images")?;
        let product = field::<Option<SubscriptionType>>(json, "product")?;
        let type_ = field::<ItemType>(json, "type")?;
        let uri = field::<String>(json, "uri")?;
        Ok(CurrentUserProfile { country, display_name, email, explicit_content, external_urls, followers, href, id, images, product, type_, uri })
    }
}

/// A public user profile.
#[derive(Debug, Clone, PartialEq, Eq)]
pub struct UserProfile {
    /// The name displayed on the user's profile. None if not available.
    pub display_name: Option<String>,
    /// Known public external URLs for this user.
    pub external_urls: ExternalUrls,
    /// Information about the followers of this user.
    pub followers: Followers,
    /// A link to the Web API endpoint for this user.
    pub href: String,
    /// The [Spotify user ID](https://developer.spotify.com/documentation/web-api/concepts/spotify-uris-ids) for the user.
    pub id: String,
    /// The user's profile images.
    pub images: Vec<Image>,
    /// The object type: "user"
    pub type_: ItemType,
    /// The [Spotify URI](https://developer.spotify.com/documentation/web-api/concepts/spotify-uris-ids) for the user.
    pub uri: String,
}

impl FromJson for UserProfile {
    open spec fn decodes(json: JsonValue, value: Self) -> bool {
        &&& field_decodes::<Option<String>>(json, "display_name"@, value.display_name)
        &&& field_decodes::<ExternalUrls>(json, "external_urls"@, value.external_urls)
        &&& field_decodes::<Followers>(json, "followers"@, value.followers)
        &&& field_decodes::<String>(json, "href"@, value.href)
        &&& field_decodes::<String>(json, "id"@, value.id)
        &&& field_decodes::<Vec<Image>>(json, "images"@, value.images)
        &&& field_decodes::<ItemType>(json, "type"@, value.type_)
        &&& field_decodes::<String>(json, "uri"@, value.uri)
    }

    open spec fn defect(json: JsonValue) -> Option<DecodeError> {
        if field_defect::<Option<String>>(json, "display_name"@) is Some {
            field_defect::<Option<String>>(json, "display_name"@)
        } else if field_defect::<ExternalUrls>(json, "external_urls"@) is Some {
            field_defect::<ExternalUrls>(json, "external_urls"@)
        } else if field_defect::<Followers>(json, "followers"@) is Some {
            field_defect::<Followers>(json, "followers"@)
        } else if field_defect::<String>(json, "href"@) is Some {
            field_defect::<String>(json, "href"@)
        } else if field_defect::<String>(json, "id"@) is Some {
            field_defect::<String>(json, "id"@)
        } else if field_defect::<Vec<Image>>(json, "images"@) is Some {
            field_defect::<Vec<Image>>(json, "images"@)
        } else if field_defect::<ItemType>(json, "type"@) is Some {
            field_defect::<ItemType>(json, "type"@)
        } else {
            field_defect::<String>(json, "uri"@)
        }
    }

    open spec fn spec_target() -> Seq<char> {
        "UserProfile"@
    }

    fn target() -> (r: &'static str) {
        "UserProfile"
    }

    fn from_json(json: &Json) -> (r: Result<Self, DecodeError>) {
        let display_name = field::<Option<String>>(json, "display_name")?;
        let external_urls = field::<ExternalUrls>(json, "external_urls")?;
        let followers = field::<Followers>(json, "followers")?;
        let href = field::<String>(json, "href")?;
        let id = field::<String>(json, "id")?;
        let images = field::<Vec<Image>>(json, "images")?;
        let type_ = field::<ItemType>(json, "type")?;
        let uri = field::<String>(json, "uri")?;
        Ok(UserProfile { display_name, external_urls, followers, href, id, images, type_, uri })
    }
}

/// A simplified user reference (used in playlist ownership, etc.).
#[derive(Debug, Clone, PartialEq, Eq)]
pub struct UserReference {
    /// Known public external URLs for this user.
    pub external_urls: ExternalUrls,
    /// Information about the followers of this user.
    pub followers: Option<Followers>,
    /// A link to the Web API endpoint for this user.
    pub href: String,
    /// The Spotify user ID for this user.
    pub id: String,
    /// The object type: "user"
    pub type_: ItemType,
    /// The [Spotify URI](https://developer.spotify.com/documentation/web-api/concepts/spotify-uris-ids) for the user.
    pub uri: String,
    /// The name displayed on the user's profile. None if not available.
    pub display_name: Option<String>,
}

impl FromJson for UserReference {
    open spec fn decodes(json: JsonValue, value: Self) -> bool {
        &&& field_decodes::<ExternalUrls>(json, "external_urls"@, value.external_urls)
        &&& field_decodes::<Option<Followers>>(json, "followers"@, value.followers)
        &&& field_decodes::<String>(json, "href"@, value.href)
        &&& field_decodes::<String>(json, "id"@, value.id)
        &&& field_decodes::<ItemType>(json, "type"@, value.type_)
        &&& field_decodes::<String>(json, "uri"@, value.uri)
        &&& field_decodes::<Option<String>>(json, "display_name"@, value.display_name)
    }

    open spec fn defect(json: JsonValue) -> Option<DecodeError> {
        if field_defect::<ExternalUrls>(json, "external_urls"@) is Some {
            field_defect::<ExternalUrls>(json, "external_urls"@)
        } else if field_defect::<Option<Followers>>(json, "followers"@) is Some {
            field_defect::<Option<Followers>>(json, "followers"@)
        } else if field_defect::<String>(json, "href"@) is Some {
            field_defect::<String>(json, "href"@)
        } else if field_defect::<String>(json, "id"@) is Some {
            field_defect::<String>(json, "id"@)
        } else if field_defect::<ItemType>(json, "type"@) is Some {
            field_defect::<ItemType>(json, "type"@)
        } else if field_defect::<String>(json, "uri"@) is Some {
            field_defect::<String>(json, "uri"@)
        } else {
            field_defect::<Option<String>>(json, "display_name"@)
        }
    }

    open spec fn spec_target() -> Seq<char> {
        "UserReference"@
    }

    fn target() -> (r: &'static str) {
        "UserReference"
    }

    fn from_json(json: &Json) -> (r: Result<Self, DecodeError>) {
        let external_urls = field::<ExternalUrls>(json, "external_urls")?;
        let followers = field::<Option<Followers>>(json, "followers")?;
        let href = field::<String>(json, "href")?;
        let id = field::<String>(json, "id")?;
        let type_ = field::<ItemType>(json, "type")?;
        let uri = field::<String>(json, "uri")?;
        let display_name = field::<Option<String>>(json, "display_name")?;
        Ok(UserReference { external_urls, followers, href, id, type_, uri, display_name })
    }
}

} // verus!
