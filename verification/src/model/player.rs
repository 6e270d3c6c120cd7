//! Playback: devices, state, history and queue.

use vstd::prelude::*;
use vstd::string::*;
use crate::api::error::DecodeError;
use crate::decode::{field, field_decodes, field_defect, list, list_decodes, list_defect, FromJson};
use crate::json::{lemma_json_view, Json, JsonValue};
use crate::text::str_eq;
use crate::model::episodes::Episode;
use crate::model::id::ContextType;
use crate::model::id::EpisodeId;
use crate::model::id::TrackId;
use crate::model::misc::Cursors;
use crate::model::misc::ExternalUrls;
use crate::model::misc::ItemType;
use crate::model::misc::TrackItem;
use crate::model::tracks::Track;
use crate::api::params::ParamValue;

verus! {

/// A playback device (speaker, phone, computer, etc.).
#[derive(Debug, Clone, PartialEq, Eq)]
pub struct Device {
    /// The device ID. This ID is unique and persistent to some extent.
    /// However, this is not guaranteed and any cached `device_id` should periodically be cleared out and refetched as necessary.
    pub id: Option<String>,
    /// If this device is the currently active device.
    pub is_active: bool,
    /// If this device is currently in a private session.
    pub is_private_session: bool,
    /// Whether controlling this device is restricted.
    /// At present if this is "true" then no Web API commands will be accepted by this device.
    pub is_restricted: bool,
    /// A human-readable name for the device. Some devices have a name that the user can configure (e.g. "Loudest speaker")
    /// and some devices have a generic name associated with the manufacturer or device model.
    pub name: String,
    /// Device type, such as "computer", "smartphone" or "speaker".
    pub type_: String,
    /// The current volume in percent.
    pub volume_percent: Option<u8>,
    /// If this device can be used to set the volume.
    pub supports_volume: bool,
}

impl FromJson for Device {
    open spec fn decodes(json: JsonValue, value: Self) -> bool {
        &&& field_decodes::<Option<String>>(json, "id"@, value.id)
        &&& field_decodes::<bool>(json, "is_active"@, value.is_active)
        &&& field_decodes::<bool>(json, "is_private_session"@, value.is_private_session)
        &&& field_decodes::<bool>(json, "is_restricted"@, value.is_restricted)
        &&& field_decodes::<String>(json, "name"@, value.name)
        &&& field_decodes::<String>(json, "type"@, value.type_)
        &&& field_decodes::<Option<u8>>(json, "volume_percent"@, value.volume_percent)
        &&& field_decodes::<bool>(json, "supports_volume"@, value.supports_volume)
    }

    open spec fn defect(json: JsonValue) -> Option<DecodeError> {
        if field_defect::<Option<String>>(json, "id"@) is Some {
            field_defect::<Option<String>>(json, "id"@)
        } else if field_defect::<bool>(json, "is_active"@) is Some {
            field_defect::<bool>(json, "is_active"@)
        } else if field_defect::<bool>(json, "is_private_session"@) is Some {
            field_defect::<bool>(json, "is_private_session"@)
        } else if field_defect::<bool>(json, "is_restricted"@) is Some {
            field_defect::<bool>(json, "is_restricted"@)
        } else if field_defect::<String>(json, "name"@) is Some {
            field_defect::<String>(json, "name"@)
        } else if field_defect::<String>(json, "type"@) is Some {
            field_defect::<String>(json, "type"@)
        } else if field_defect::<Option<u8>>(json, "volume_percent"@) is Some {
            field_defect::<Option<u8>>(json, "volume_percent"@)
        } else {
            field_defect::<bool>(json, "supports_volume"@)
        }
    }

    open spec fn spec_target() -> Seq<char> {
        "Device"@
    }

    fn target() -> (r: &'static str) {
        "Device"
    }

    fn from_json(json: &Json) -> (r: Result<Self, DecodeError>) {
        let id = field::<Option<String>>(json, "id")?;
        let is_active = field::<bool>(json, "is_active")?;
        let is_private_session = field::<bool>(json, "is_private_session")?;
        let is_restricted = field::<bool>(json, "is_restricted")?;
        let name = field::<String>(json, "name")?;
        let type_ = field::<String>(json, "type")?;
        let volume_percent = field::<Option<u8>>(json, "volume_percent")?;
        let supports_volume = field::<bool>(json, "supports_volume")?;
        Ok(Device { id, is_active, is_private_session, is_restricted, name, type_, volume_percent, supports_volume })
    }
}

/// A list of available playback devices.
#[derive(Debug, Clone, PartialEq, Eq)]
pub struct Devices {
    /// The list of devices.
    pub devices: Vec<Device>,
}

impl FromJson for Devices {
    open spec fn decodes(json: JsonValue, value: Self) -> bool {
        &&& list_decodes::<Device>(json, "devices"@, value.devices)
    }

    open spec fn defect(json: JsonValue) -> Option<DecodeError> {
        list_defect::<Device>(json, "devices"@)
    }

    open spec fn spec_target() -> Seq<char> {
        "Devices"@
    }

    fn target() -> (r: &'static str) {
        "Devices"
    }

    fn from_json(json: &Json) -> (r: Result<Self, DecodeError>) {
        let devices = list::<Device>(json, "devices")?;
        Ok(Devices { devices })
    }
}

/// The repeat mode state for playback.
#[derive(Debug, Clone, Copy, PartialEq, Eq, Structural)]
pub enum RepeatState {
    Track,
    Context,
    Off,
}

impl RepeatState {
    /// The value that the service writes as `text`.
    pub open spec fn named(text: Seq<char>) -> Option<Self> {
        if text == "track"@ {
            Some(RepeatState::Track)
        }         else if text == "context"@ {
            Some(RepeatState::Context)
        }         else if text == "off"@ {
            Some(RepeatState::Off)
        } else {
            None
        }
    }

    /// The value that the service writes as `text`.
    pub fn from_name(text: &str) -> (r: Option<Self>)
        ensures
            r == Self::named(text@),
    {
        if str_eq(text, "track") {
            Some(RepeatState::Track)
        }         else if str_eq(text, "context") {
            Some(RepeatState::Context)
        }         else if str_eq(text, "off") {
            Some(RepeatState::Off)
        } else {
            None
        }
    }
}

impl FromJson for RepeatState {
    open spec fn decodes(json: JsonValue, value: Self) -> bool {
        json matches JsonValue::Str(text) && Self::named(text) == Some(value)
    }

    open spec fn defect(json: JsonValue) -> Option<DecodeError> {
        match json {
            JsonValue::Str(text) => if Self::named(text) is Some {
                None
            } else {
                Some(DecodeError::UnknownVariant)
            },
            _ => Some(DecodeError::ExpectedString),
        }
    }

    open spec fn spec_target() -> Seq<char> {
        "RepeatState"@
    }

    fn target() -> (r: &'static str) {
        "RepeatState"
    }

    fn from_json(json: &Json) -> (r: Result<Self, DecodeError>) {
        proof {
            lemma_json_view(*json);
        }
        match json {
            Json::Str(text) => match Self::from_name(text.as_str()) {
                Some(value) => Ok(value),
                None => Err(DecodeError::UnknownVariant),
            },
            _ => Err(DecodeError::ExpectedString),
        }
    }
}

impl RepeatState {
    /// The text that this value is displayed as.
    pub open spec fn spec_text(&self) -> Seq<char> {
        match self {
            RepeatState::Track => "track"@,
            RepeatState::Context => "context"@,
            RepeatState::Off => "off"@,
        }
    }

    /// The text that this value is displayed as.
    pub fn as_str(&self) -> (r: &'static str)
        ensures
            r@ == self.spec_text(),
    {
        match self {
            RepeatState::Track => "track",
            RepeatState::Context => "context",
            RepeatState::Off => "off",
        }
    }

    /// The text that this value is displayed as.
    pub fn to_string(&self) -> (r: String)
        ensures
            r@ == self.spec_text(),
    {
        String::from_str(self.as_str())
    }
}

/// The playback context (album, playlist, artist, etc.).
#[derive(Debug, Clone, PartialEq, Eq)]
pub struct Context {
    /// The object type.
    pub type_: ItemType,
    /// A link to the Web API endpoint providing full details of the track.
    pub href: Option<String>,
    /// External URLs for this context.
    pub external_urls: ExternalUrls,
    /// The Spotify URI for the context.
    pub uri: String,
}

impl FromJson for Context {
    open spec fn decodes(json: JsonValue, value: Self) -> bool {
        &&& field_decodes::<ItemType>(json, "type"@, value.type_)
        &&& field_decodes::<Option<String>>(json, "href"@, value.href)
        &&& field_decodes::<ExternalUrls>(json, "external_urls"@, value.external_urls)
        &&& field_decodes::<String>(json, "uri"@, value.uri)
    }

    open spec fn defect(json: JsonValue) -> Option<DecodeError> {
        if field_defect::<ItemType>(json, "type"@) is Some {
            field_defect::<ItemType>(json, "type"@)
        } else if field_defect::<Option<String>>(json, "href"@) is Some {
            field_defect::<Option<String>>(json, "href"@)
        } else if field_defect::<ExternalUrls>(json, "external_urls"@) is Some {
            field_defect::<ExternalUrls>(json, "external_urls"@)
        } else {
            field_defect::<String>(json, "uri"@)
        }
    }

    open spec fn spec_target() -> Seq<char> {
        "Context"@
    }

    fn target() -> (r: &'static str) {
        "Context"
    }

    fn from_json(json: &Json) -> (r: Result<Self, DecodeError>) {
        let type_ = field::<ItemType>(json, "type")?;
        let href = field::<Option<String>>(json, "href")?;
        let external_urls = field::<ExternalUrls>(json, "external_urls")?;
        let uri = field::<String>(json, "uri")?;
        Ok(Context { type_, href, external_urls, uri })
    }
}

/// The type of the currently playing item.
#[derive(Debug, Clone, Copy, PartialEq, Eq, Structural)]
pub enum CurrentlyPlayingType {
    Track,
    Episode,
    Ad,
    Unknown,
}

impl CurrentlyPlayingType {
    /// The value that the service writes as `text`.
    pub open spec fn named(text: Seq<char>) -> Option<Self> {
        if text == "track"@ {
            Some(CurrentlyPlayingType::Track)
        }         else if text == "episode"@ {
            Some(CurrentlyPlayingType::Episode)
        }         else if text == "ad"@ {
            Some(CurrentlyPlayingType::Ad)
        }         else if text == "unknown"@ {
            Some(CurrentlyPlayingType::Unknown)
        } else {
            None
        }
    }

    /// The value that the service writes as `text`.
    pub fn from_name(text: &str) -> (r: Option<Self>)
        ensures
            r == Self::named(text@),
    {
        if str_eq(text, "track") {
            Some(CurrentlyPlayingType::Track)
        }         else if str_eq(text, "episode") {
            Some(CurrentlyPlayingType::Episode)
        }         else if str_eq(text, "ad") {
            Some(CurrentlyPlayingType::Ad)
        }         else if str_eq(text, "unknown") {
            Some(CurrentlyPlayingType::Unknown)
        } else {
            None
        }
    }
}

impl FromJson for CurrentlyPlayingType {
    open spec fn decodes(json: JsonValue, value: Self) -> bool {
        json matches JsonValue::Str(text) && Self::named(text) == Some(value)
    }

    open spec fn defect(json: JsonValue) -> Option<DecodeError> {
        match json {
            JsonValue::Str(text) => if Self::named(text) is Some {
                None
            } else {
                Some(DecodeError::UnknownVariant)
            },
            _ => Some(DecodeError::ExpectedString),
        }
    }

    open spec fn spec_target() -> Seq<char> {
        "CurrentlyPlayingType"@
    }

    fn target() -> (r: &'static str) {
        "CurrentlyPlayingType"
    }

    fn from_json(json: &Json) -> (r: Result<Self, DecodeError>) {
        proof {
            lemma_json_view(*json);
        }
        match json {
            Json::Str(text) => match Self::from_name(text.as_str()) {
                Some(value) => Ok(value),
                None => Err(DecodeError::UnknownVariant),
            },
            _ => Err(DecodeError::ExpectedString),
        }
    }
}

/// The current playback state including device, track, and progress.
#[derive(Debug, Clone, PartialEq, Eq)]
pub struct PlaybackState {
    /// The device that is currently active.
    pub device: Device,
    /// off, track, context
    pub repeat_state: RepeatState,
    /// If shuffle is on or off.
    pub shuffle_state: bool,
    /// The context object.
    pub context: Option<Context>,
    /// Unix Millisecond Timestamp when data was fetched.
    pub timestamp: Option<i64>,
    /// Progress into the currently playing track or episode.
    pub progress_ms: Option<u32>,
    /// If something is currently playing, return true.
    pub is_playing: bool,
    /// The currently playing track or episode.
    pub item: Option<TrackItem>,
    /// The object type of the currently playing item. Can be one of track, episode, ad or unknown.
    pub currently_playing_type: CurrentlyPlayingType,
    /// Allows to update the user interface based on which playback actions are available within the current context.
    pub actions: Actions,
}

impl FromJson for PlaybackState {
    open spec fn decodes(json: JsonValue, value: Self) -> bool {
        &&& field_decodes::<Device>(json, "device"@, value.device)
        &&& field_decodes::<RepeatState>(json, "repeat_state"@, value.repeat_state)
        &&& field_decodes::<bool>(json, "shuffle_state"@, value.shuffle_state)
        &&& field_decodes::<Option<Context>>(json, "context"@, value.context)
        &&& field_decodes::<Option<i64>>(json, "timestamp"@, value.timestamp)
        &&& field_decodes::<Option<u32>>(json, "progress_ms"@, value.progress_ms)
        &&& field_decodes::<bool>(json, "is_playing"@, value.is_playing)
        &&& field_decodes::<Option<TrackItem>>(json, "item"@, value.item)
        &&& field_decodes::<CurrentlyPlayingType>(json, "currently_playing_type"@, value.currently_playing_type)
        &&& field_decodes::<Actions>(json, "actions"@, value.actions)
    }

    open spec fn defect(json: JsonValue) -> Option<DecodeError> {
        if field_defect::<Device>(json, "device"@) is Some {
            field_defect::<Device>(json, "device"@)
        } else if field_defect::<RepeatState>(json, "repeat_state"@) is Some {
            field_defect::<RepeatState>(json, "repeat_state"@)
        } else if field_defect::<bool>(json, "shuffle_state"@) is Some {
            field_defect::<bool>(json, "shuffle_state"@)
        } else if field_defect::<Option<Context>>(json, "context"@) is Some {
            field_defect::<Option<Context>>(json, "context"@)
        } else if field_defect::<Option<i64>>(json, "timestamp"@) is Some {
            field_defect::<Option<i64>>(json, "timestamp"@)
        } else if field_defect::<Option<u32>>(json, "progress_ms"@) is Some {
            field_defect::<Option<u32>>(json, "progress_ms"@)
        } else if field_defect::<bool>(json, "is_playing"@) is Some {
            field_defect::<bool>(json, "is_playing"@)
        } else if field_defect::<Option<TrackItem>>(json, "item"@) is Some {
            field_defect::<Option<TrackItem>>(json, "item"@)
        } else if field_defect::<CurrentlyPlayingType>(json, "currently_playing_type"@) is Some {
            field_defect::<CurrentlyPlayingType>(json, "currently_playing_type"@)
        } else {
            field_defect::<Actions>(json, "actions"@)
        }
    }

    open spec fn spec_target() -> Seq<char> {
        "PlaybackState"@
    }

    fn target() -> (r: &'static str) {
        "PlaybackState"
    }

    fn from_json(json: &Json) -> (r: Result<Self, DecodeError>) {
        let device = field::<Device>(json, "device")?;
        let repeat_state = field::<RepeatState>(json, "repeat_state")?;
        let shuffle_state = field::<bool>(json, "shuffle_state")?;
        let context = field::<Option<Context>>(json, "context")?;
        let timestamp = field::<Option<i64>>(json, "timestamp")?;
        let progress_ms = field::<Option<u32>>(json, "progress_ms")?;
        let is_playing = field::<bool>(json, "is_playing")?;
        let item = field::<Option<TrackItem>>(json, "item")?;
        let currently_playing_type = field::<CurrentlyPlayingType>(json, "currently_playing_type")?;
        let actions = field::<Actions>(json, "actions")?;
        Ok(PlaybackState { device, repeat_state, shuffle_state, context, timestamp, progress_ms, is_playing, item, currently_playing_type, actions })
    }
}

/// Available playback actions in the current context.
#[derive(Debug, Clone, PartialEq, Eq)]
pub struct Actions {
    /// Interrupting playback.
    pub interrupting_playback: Option<bool>,
    /// Pausing playback.
    pub pausing: Option<bool>,
    /// Resuming playback.
    pub resuming: Option<bool>,
    /// Seeking playback location.
    pub seeking: Option<bool>,
    /// Skipping to the next context.
    pub skipping_next: Option<bool>,
    /// Skipping to the previous context.
    pub skipping_prev: Option<bool>,
    /// Toggling repeat context flag.
    pub toggling_repeat_context: Option<bool>,
    /// Toggling shuffle flag.
    pub toggling_shuffle: Option<bool>,
    /// Toggling repeat track flag.
    pub toggling_repeat_track: Option<bool>,
    /// Transferring playback between devices.
    pub transferring_playback: Option<bool>,
}

impl FromJson for Actions {
    open spec fn decodes(json: JsonValue, value: Self) -> bool {
        &&& field_decodes::<Option<bool>>(json, "interrupting_playback"@, value.interrupting_playback)
        &&& field_decodes::<Option<bool>>(json, "pausing"@, value.pausing)
        &&& field_decodes::<Option<bool>>(json, "resuming"@, value.resuming)
        &&& field_decodes::<Option<bool>>(json, "seeking"@, value.seeking)
        &&& field_decodes::<Option<bool>>(json, "skipping_next"@, value.skipping_next)
        &&& field_decodes::<Option<bool>>(json, "skipping_prev"@, value.skipping_prev)
        &&& field_decodes::<Option<bool>>(json, "toggling_repeat_context"@, value.toggling_repeat_context)
        &&& field_decodes::<Option<bool>>(json, "toggling_shuffle"@, value.toggling_shuffle)
        &&& field_decodes::<Option<bool>>(json, "toggling_repeat_track"@, value.toggling_repeat_track)
        &&& field_decodes::<Option<bool>>(json, "transferring_playback"@, value.transferring_playback)
    }

    open spec fn defect(json: JsonValue) -> Option<DecodeError> {
        if field_defect::<Option<bool>>(json, "interrupting_playback"@) is Some {
            field_defect::<Option<bool>>(json, "interrupting_playback"@)
        } else if field_defect::<Option<bool>>(json, "pausing"@) is Some {
            field_defect::<Option<bool>>(json, "pausing"@)
        } else if field_defect::<Option<bool>>(json, "resuming"@) is Some {
            field_defect::<Option<bool>>(json, "resuming"@)
        } else if field_defect::<Option<bool>>(json, "seeking"@) is Some {
            field_defect::<Option<bool>>(json, "seeking"@)
        } else if field_defect::<Option<bool>>(json, "skipping_next"@) is Some {
            field_defect::<Option<bool>>(json, "skipping_next"@)
        } else if field_defect::<Option<bool>>(json, "skipping_prev"@) is Some {
            field_defect::<Option<bool>>(json, "skipping_prev"@)
        } else if field_defect::<Option<bool>>(json, "toggling_repeat_context"@) is Some {
            field_defect::<Option<bool>>(json, "toggling_repeat_context"@)
        } else if field_defect::<Option<bool>>(json, "toggling_shuffle"@) is Some {
            field_defect::<Option<bool>>(json, "toggling_shuffle"@)
        } else if field_defect::<Option<bool>>(json, "toggling_repeat_track"@) is Some {
            field_defect::<Option<bool>>(json, "toggling_repeat_track"@)
        } else {
            field_defect::<Option<bool>>(json, "transferring_playback"@)
        }
    }

    open spec fn spec_target() -> Seq<char> {
        "Actions"@
    }

    fn target() -> (r: &'static str) {
        "Actions"
    }

    fn from_json(json: &Json) -> (r: Result<Self, DecodeError>) {
        let interrupting_playback = field::<Option<bool>>(json, "interrupting_playback")?;
        let pausing = field::<Option<bool>>(json, "pausing")?;
        let resuming = field::<Option<bool>>(json, "resuming")?;
        let seeking = field::<Option<bool>>(json, "seeking")?;
        let skipping_next = field::<Option<bool>>(json, "skipping_next")?;
        let skipping_prev = field::<Option<bool>>(json, "skipping_prev")?;
        let toggling_repeat_context = field::<Option<bool>>(json, "toggling_repeat_context")?;
        let toggling_shuffle = field::<Option<bool>>(json, "toggling_shuffle")?;
        let toggling_repeat_track = field::<Option<bool>>(json, "toggling_repeat_track")?;
        let transferring_playback = field::<Option<bool>>(json, "transferring_playback")?;
        Ok(Actions { interrupting_playback, pausing, resuming, seeking, skipping_next, skipping_prev, toggling_repeat_context, toggling_shuffle, toggling_repeat_track, transferring_playback })
    }
}

/// Information about the currently playing track or episode.
#[derive(Debug, Clone, PartialEq, Eq)]
pub struct CurrentlyPlaying {
    /// The context object.
    pub context: Option<Context>,
    /// Unix Millisecond Timestamp when data was fetched.
    pub timestamp: Option<i64>,
    /// Progress into the currently playing track or episode.
    pub progress_ms: Option<u32>,
    /// If something is currently playing, return true.
    pub is_playing: bool,
    /// The currently playing track or episode.
    pub item: Option<TrackItem>,
    /// The object type of the currently playing item. Can be one of track, episode, ad or unknown.
    pub currently_playing_type: CurrentlyPlayingType,
    /// Allows to update the user interface based on which playback actions are available within the current context.
    pub actions: Actions,
}

impl FromJson for CurrentlyPlaying {
    open spec fn decodes(json: JsonValue, value: Self) -> bool {
        &&& field_decodes::<Option<Context>>(json, "context"@, value.context)
        &&& field_decodes::<Option<i64>>(json, "timestamp"@, value.timestamp)
        &&& field_decodes::<Option<u32>>(json, "progress_ms"@, value.progress_ms)
        &&& field_decodes::<bool>(json, "is_playing"@, value.is_playing)
        &&& field_decodes::<Option<TrackItem>>(json, "item"@, value.item)
        &&& field_decodes::<CurrentlyPlayingType>(json, "currently_playing_type"@, value.currently_playing_type)
        &&& field_decodes::<Actions>(json, "actions"@, value.actions)
    }

    open spec fn defect(json: JsonValue) -> Option<DecodeError> {
        if field_defect::<Option<Context>>(json, "context"@) is Some {
            field_defect::<Option<Context>>(json, "context"@)
        } else if field_defect::<Option<i64>>(json, "timestamp"@) is Some {
            field_defect::<Option<i64>>(json, "timestamp"@)
        } else if field_defect::<Option<u32>>(json, "progress_ms"@) is Some {
            field_defect::<Option<u32>>(json, "progress_ms"@)
        } else if field_defect::<bool>(json, "is_playing"@) is Some {
            field_defect::<bool>(json, "is_playing"@)
        } else if field_defect::<Option<TrackItem>>(json, "item"@) is Some {
            field_defect::<Option<TrackItem>>(json, "item"@)
        } else if field_defect::<CurrentlyPlayingType>(json, "currently_playing_type"@) is Some {
            field_defect::<CurrentlyPlayingType>(json, "currently_playing_type"@)
        } else {
            field_defect::<Actions>(json, "actions"@)
        }
    }

    open spec fn spec_target() -> Seq<char> {
        "CurrentlyPlaying"@
    }

    fn target() -> (r: &'static str) {
        "CurrentlyPlaying"
    }

    fn from_json(json: &Json) -> (r: Result<Self, DecodeError>) {
        let context = field::<Option<Context>>(json, "context")?;
        let timestamp = field::<Option<i64>>(json, "timestamp")?;
        let progress_ms = field::<Option<u32>>(json, "progress_ms")?;
        let is_playing = field::<bool>(json, "is_playing")?;
        let item = field::<Option<TrackItem>>(json, "item")?;
        let currently_playing_type = field::<CurrentlyPlayingType>(json, "currently_playing_type")?;
        let actions = field::<Actions>(json, "actions")?;
        Ok(CurrentlyPlaying { context, timestamp, progress_ms, is_playing, item, currently_playing_type, actions })
    }
}

/// A track in the user's play history.
#[derive(Debug, Clone, PartialEq, Eq)]
pub struct PlayHistory {
    /// The track the user listened to.
    pub track: Track,
    /// The date and time the track was played.
    pub played_at: String,
    /// The context the track was played from.
    pub context: Context,
}

impl FromJson for PlayHistory {
    open spec fn decodes(json: JsonValue, value: Self) -> bool {
        &&& field_decodes::<Track>(json, "track"@, value.track)
        &&& field_decodes::<String>(json, "played_at"@, value.played_at)
        &&& field_decodes::<Context>(json, "context"@, value.context)
    }

    open spec fn defect(json: JsonValue) -> Option<DecodeError> {
        if field_defect::<Track>(json, "track"@) is Some {
            field_defect::<Track>(json, "track"@)
        } else if field_defect::<String>(json, "played_at"@) is Some {
            field_defect::<String>(json, "played_at"@)
        } else {
            field_defect::<Context>(json, "context"@)
        }
    }

    open spec fn spec_target() -> Seq<char> {
        "PlayHistory"@
    }

    fn target() -> (r: &'static str) {
        "PlayHistory"
    }

    fn from_json(json: &Json) -> (r: Result<Self, DecodeError>) {
        let track = field::<Track>(json, "track")?;
        let played_at = field::<String>(json, "played_at")?;
        let context = field::<Context>(json, "context")?;
        Ok(PlayHistory { track, played_at, context })
    }
}

/// A list of recently played tracks.
#[derive(Debug, Clone, PartialEq, Eq)]
pub struct RecentlyPlayedTracks {
    /// A link to the Web API endpoint returning the full result of the request.
    pub href: String,
    /// The maximum number of items in the response (as set in the query or by default).
    pub limit: usize,
    /// URL to the next page of items.
    pub next: Option<String>,
    /// The cursors used to find the next set of items.
    pub cursors: Option<Cursors>,
    /// The total number of items available to return.
    pub total: Option<usize>,
    /// The play history items.
    pub items: Vec<PlayHistory>,
}

impl FromJson for RecentlyPlayedTracks {
    open spec fn decodes(json: JsonValue, value: Self) -> bool {
        &&& field_decodes::<String>(json, "href"@, value.href)
        &&& field_decodes::<usize>(json, "limit"@, value.limit)
        &&& field_decodes::<Option<String>>(json, "next"@, value.next)
        &&& field_decodes::<Option<Cursors>>(json, "cursors"@, value.cursors)
        &&& field_decodes::<Option<usize>>(json, "total"@, value.total)
        &&& field_decodes::<Vec<PlayHistory>>(json, "items"@, value.items)
    }

    open spec fn defect(json: JsonValue) -> Option<DecodeError> {
        if field_defect::<String>(json, "href"@) is Some {
            field_defect::<String>(json, "href"@)
        } else if field_defect::<usize>(json, "limit"@) is Some {
            field_defect::<usize>(json, "limit"@)
        } else if field_defect::<Option<String>>(json, "next"@) is Some {
            field_defect::<Option<String>>(json, "next"@)
        } else if field_defect::<Option<Cursors>>(json, "cursors"@) is Some {
            field_defect::<Option<Cursors>>(json, "cursors"@)
        } else if field_defect::<Option<usize>>(json, "total"@) is Some {
            field_defect::<Option<usize>>(json, "total"@)
        } else {
            field_defect::<Vec<PlayHistory>>(json, "items"@)
        }
    }

    open spec fn spec_target() -> Seq<char> {
        "RecentlyPlayedTracks"@
    }

    fn target() -> (r: &'static str) {
        "RecentlyPlayedTracks"
    }

    fn from_json(json: &Json) -> (r: Result<Self, DecodeError>) {
        let href = field::<String>(json, "href")?;
        let limit = field::<usize>(json, "limit")?;
        let next = field::<Option<String>>(json, "next")?;
        let cursors = field::<Option<Cursors>>(json, "cursors")?;
        let total = field::<Option<usize>>(json, "total")?;
        let items = field::<Vec<PlayHistory>>(json, "items")?;
        Ok(RecentlyPlayedTracks { href, limit, next, cursors, total, items })
    }
}

/// The user's playback queue.
#[derive(Debug, Clone, PartialEq, Eq)]
pub struct Queue {
    /// The currently playing track or episode.
    pub currently_playing: Option<TrackItem>,
    /// The tracks or episodes in the queue.
    pub queue: Vec<TrackItem>,
}

impl FromJson for Queue {
    open spec fn decodes(json: JsonValue, value: Self) -> bool {
        &&& field_decodes::<Option<TrackItem>>(json, "currently_playing"@, value.currently_playing)
        &&& field_decodes::<Vec<TrackItem>>(json, "queue"@, value.queue)
    }

    open spec fn defect(json: JsonValue) -> Option<DecodeError> {
        if field_defect::<Option<TrackItem>>(json, "currently_playing"@) is Some {
            field_defect::<Option<TrackItem>>(json, "currently_playing"@)
        } else {
            field_defect::<Vec<TrackItem>>(json, "queue"@)
        }
    }

    open spec fn spec_target() -> Seq<char> {
        "Queue"@
    }

    fn target() -> (r: &'static str) {
        "Queue"
    }

    fn from_json(json: &Json) -> (r: Result<Self, DecodeError>) {
        let currently_playing = field::<Option<TrackItem>>(json, "currently_playing")?;
        let queue = field::<Vec<TrackItem>>(json, "queue")?;
        Ok(Queue { currently_playing, queue })
    }
}

/// An offset for starting playback at a specific position or URI.
#[derive(Debug, Clone, PartialEq, Eq)]
pub enum Offset {
    Position(usize),
    Uri(ContextType),
}

/// A time range for querying recently played tracks.
#[derive(Debug, Clone, PartialEq, Eq)]
pub enum QueryRange {
    Before(i64),
    After(i64),
}

/// An item that can be added to a playlist (track or episode).
#[derive(Debug, Clone, PartialEq, Eq)]
pub enum PlaylistItem {
    Track(TrackId),
    Episode(EpisodeId),
}

impl vstd::std_specs::convert::FromSpecImpl<usize> for Offset {
    open spec fn obeys_from_spec() -> bool {
        true
    }

    open spec fn from_spec(position: usize) -> Self {
        Offset::Position(position)
    }
}

impl From<usize> for Offset {
    fn from(position: usize) -> (r: Self) {
        Offset::Position(position)
    }
}

impl vstd::std_specs::convert::FromSpecImpl<TrackId> for PlaylistItem {
    open spec fn obeys_from_spec() -> bool {
        true
    }

    open spec fn from_spec(track: TrackId) -> Self {
        PlaylistItem::Track(track)
    }
}

impl From<TrackId> for PlaylistItem {
    fn from(track: TrackId) -> (r: Self) {
        PlaylistItem::Track(track)
    }
}

impl vstd::std_specs::convert::FromSpecImpl<EpisodeId> for PlaylistItem {
    open spec fn obeys_from_spec() -> bool {
        true
    }

    open spec fn from_spec(episode: EpisodeId) -> Self {
        PlaylistItem::Episode(episode)
    }
}

impl From<EpisodeId> for PlaylistItem {
    fn from(episode: EpisodeId) -> (r: Self) {
        PlaylistItem::Episode(episode)
    }
}

impl PlaylistItem {
    /// The Spotify URI of the item.
    pub open spec fn spec_text(&self) -> Seq<char> {
        match self {
            PlaylistItem::Track(track) => track.spec_uri(),
            PlaylistItem::Episode(episode) => episode.spec_uri(),
        }
    }

    /// The Spotify URI of the item.
    pub fn to_string(&self) -> (r: String)
        ensures
            r@ == self.spec_text(),
    {
        match self {
            PlaylistItem::Track(track) => track.uri(),
            PlaylistItem::Episode(episode) => episode.uri(),
        }
    }
}

impl ParamValue for RepeatState {
    open spec fn spec_value(&self) -> Seq<char> {
        self.spec_text()
    }

    fn as_value(&self) -> (r: String) {
        self.to_string()
    }
}

impl ParamValue for PlaylistItem {
    open spec fn spec_value(&self) -> Seq<char> {
        self.spec_text()
    }

    fn as_value(&self) -> (r: String) {
        self.to_string()
    }
}

} // verus!
