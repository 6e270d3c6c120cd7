//! Browse categories.

use vstd::prelude::*;
use vstd::string::*;
use crate::api::error::DecodeError;
use crate::decode::{field, field_decodes, field_defect, FromJson};
use crate::json::{Json, JsonValue};
use crate::model::misc::Icon;
use crate::model::misc::Page;

verus! {

/// A category used to tag items in Spotify.
///
/// Categories appear in the Spotify player's "Browse" tab and can be used
/// to discover playlists and other content grouped by theme or genre.
#[derive(Debug, Clone, PartialEq, Eq)]
pub struct Category {
    /// A link to the Web API endpoint returning full details of the category.
    pub href: String,
    /// The category icon, in various sizes.
    pub icons: Vec<Icon>,
    /// The [Spotify category ID](https://developer.spotify.com/documentation/web-api/concepts/spotify-uris-ids) of the category.
    pub id: String,
    /// The name of the category.
    pub name: String,
}

impl FromJson for Category {
    open spec fn decodes(json: JsonValue, value: Self) -> bool {
        &&& field_decodes::<String>(json, "href"@, value.href)
        &&& field_decodes::<Vec<Icon>>(json, "icons"@, value.icons)
        &&& field_decodes::<String>(json, "id"@, value.id)
        &&& field_decodes::<String>(json, "name"@, value.name)
    }

    open spec fn defect(json: JsonValue) -> Option<DecodeError> {
        if field_defect::<String>(json, "href"@) is Some {
            field_defect::<String>(json, "href"@)
        } else if field_defect::<Vec<Icon>>(json, "icons"@) is Some {
            field_defect::<Vec<Icon>>(json, "icons"@)
        } else if field_defect::<String>(json, "id"@) is Some {
            field_defect::<String>(json, "id"@)
        } else {
            field_defect::<String>(json, "name"@)
        }
    }

    open spec fn spec_target() -> Seq<char> {
        "Category"@
    }

    fn target() -> (r: &'static str) {
        "Category"
    }

    fn from_json(json: &Json) -> (r: Result<Self, DecodeError>) {
        let href = field::<String>(json, "href")?;
        let icons = field::<Vec<Icon>>(json, "icons")?;
        let id = field::<String>(json, "id")?;
        let name = field::<String>(json, "name")?;
        Ok(Category { href, icons, id, name })
    }
}

/// A list of categories used to tag items in Spotify (on, for example, the Spotify player’s “Browse” tab).
#[derive(Debug, Clone, PartialEq, Eq)]
pub struct Categories {
    pub categories: Page<Category>,
}

impl FromJson for Categories {
    open spec fn decodes(json: JsonValue, value: Self) -> bool {
        &&& field_decodes::<Page<Category>>(json, "categories"@, value.categories)
    }

    open spec fn defect(json: JsonValue) -> Option<DecodeError> {
        field_defect::<Page<Category>>(json, "categories"@)
    }

    open spec fn spec_target() -> Seq<char> {
        "Categories"@
    }

    fn target() -> (r: &'static str) {
        "Categories"
    }

    fn from_json(json: &Json) -> (r: Result<Self, DecodeError>) {
        let categories = field::<Page<Category>>(json, "categories")?;
        Ok(Categories { categories })
    }
}

} // verus!
