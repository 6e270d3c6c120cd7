use spotify_web_api::api::error::DecodeError;
use spotify_web_api::api::ParamValue;
use spotify_web_api::decode::FromJson;
use spotify_web_api::json::Json;
use spotify_web_api::model::{
    AlbumId, AlbumType, Artist, ContextType, CopyrightType, FollowType, Image, ItemType, Market,
    Offset, Page, PlaylistItem, RepeatState, SearchType, SimplifiedArtist, SubscriptionType,
    TimeRange, TrackId, TrackItem,
};

#[test]
fn album_types_have_two_names() {
    assert_eq!(
        AlbumType::all(),
        vec![AlbumType::Album, AlbumType::Single, AlbumType::Compilation, AlbumType::AppearsOn]
    );
    assert_eq!(AlbumType::AppearsOn.snake_case(), "appears_on");
    assert_eq!(AlbumType::AppearsOn.to_string(), "Appears on");
    assert_eq!(AlbumType::Album.snake_case(), "album");
    assert_eq!((&AlbumType::Single).as_value(), "single");
    assert_eq!((&AlbumType::AppearsOn).as_value(), "appears_on");
    assert_eq!((&AlbumType::Album).as_value(), "album");
    assert_eq!((&AlbumType::Compilation).as_value(), "compilation");
    assert_eq!(AlbumType::from_name("appears_on"), Some(AlbumType::AppearsOn));
    assert_eq!(AlbumType::from_name("APPEARS_ON"), Some(AlbumType::AppearsOn));
    assert_eq!(AlbumType::from_name("Appears on"), None);
}

#[test]
fn search_types_are_listed() {
    assert_eq!(SearchType::all().len(), 7);
    assert_eq!(SearchType::all()[0], SearchType::Album);
    assert_eq!(SearchType::all()[6], SearchType::Audiobook);
    assert_eq!(SearchType::Audiobook.to_string(), "audiobook");
}

#[test]
fn names_of_the_service_are_read() {
    let name = |text: &str| Json::Str(text.to_string());
    assert_eq!(ItemType::from_json(&name("track")), Ok(ItemType::Track));
    assert_eq!(ItemType::from_json(&name("Track")), Err(DecodeError::UnknownVariant));
    assert_eq!(ItemType::from_json(&Json::Null), Err(DecodeError::ExpectedString));
    assert_eq!(CopyrightType::from_json(&name("P")), Ok(CopyrightType::P));
    assert_eq!(CopyrightType::from_json(&name("p")), Err(DecodeError::UnknownVariant));
    assert_eq!(SubscriptionType::from_json(&name("open")), Ok(SubscriptionType::Free));
    assert_eq!(SubscriptionType::from_json(&name("free")), Ok(SubscriptionType::Free));
    assert_eq!(TimeRange::from_json(&name("short_term")), Ok(TimeRange::ShortTerm));
    assert_eq!(TimeRange::default(), TimeRange::MediumTerm);
    assert_eq!(TimeRange::LongTerm.to_string(), "long_term");
    assert_eq!(FollowType::User.as_value(), "user");
    assert_eq!(RepeatState::Context.as_value(), "context");
    assert_eq!(ItemType::Collection.to_string(), "collection");
}

#[test]
fn markets_are_country_codes() {
    assert_eq!(Market::from_code("SE").unwrap().as_str(), "SE");
    assert_eq!(Market::from_code("se"), None);
    assert_eq!(Market::from_code("SWE"), None);
    assert_eq!(Market::from_code(""), None);
    assert_eq!(Market::from_json(&Json::Str("CA".to_string())).unwrap().to_string(), "CA");
    assert_eq!(Market::from_json(&Json::Str("ca".to_string())), Err(DecodeError::UnknownVariant));
    assert_eq!((&Market::from_code("BR").unwrap()).as_value(), "BR");
    assert_eq!(Market::from_code("IT").unwrap().clone(), Market::from_code("IT").unwrap());
}

#[test]
fn contexts_and_items_have_uris() {
    let album = AlbumId::from_id("2up3OPMp9Tb4dAKM2erWXQ").unwrap();
    assert_eq!(ContextType::from(album.clone()).uri(), "spotify:album:2up3OPMp9Tb4dAKM2erWXQ");
    assert_eq!(ContextType::Album(album).uri(), "spotify:album:2up3OPMp9Tb4dAKM2erWXQ");
    let track = TrackId::from_id("60zbztYPxtTQLLcPVjnEZG").unwrap();
    let item = PlaylistItem::from(track);
    assert_eq!(item.to_string(), "spotify:track:60zbztYPxtTQLLcPVjnEZG");
    assert_eq!(item.as_value(), "spotify:track:60zbztYPxtTQLLcPVjnEZG");
    assert_eq!(Offset::from(3), Offset::Position(3));
}

const ARTIST: &str = r#"{
    "external_urls": {"spotify": "https://open.spotify.com/artist/x"},
    "followers": {"href": null, "total": 42},
    "genres": ["Prog rock"],
    "href": "https://api.spotify.com/v1/artists/x",
    "id": "x",
    "images": [{"url": "https://i.scdn.co/image/x", "height": 300, "width": 300}],
    "name": "The artist",
    "popularity": 7,
    "type": "artist",
    "uri": "spotify:artist:x"
}"#;

#[test]
fn decoded_values_hold_what_the_document_holds() {
    let artist = Artist::from_json(&Json::parse_str(ARTIST).unwrap()).unwrap();
    assert_eq!(artist.name, "The artist");
    assert_eq!(artist.followers.total, 42);
    assert_eq!(artist.followers.href, None);
    assert_eq!(artist.genres, vec!["Prog rock"]);
    assert_eq!(
        artist.images,
        vec![Image { url: "https://i.scdn.co/image/x".to_string(), height: Some(300), width: Some(300) }]
    );
    assert_eq!(artist.type_, ItemType::Artist);

    let simplified = SimplifiedArtist::from(artist.clone());
    assert_eq!(simplified.id, artist.id);
    assert_eq!(simplified.name, artist.name);
    assert_eq!(simplified.external_urls, artist.external_urls);
    assert_eq!(simplified.uri, "spotify:artist:x");
}

#[test]
fn documents_that_lack_a_member_are_refused() {
    let without_name = ARTIST.replace(r#""name": "The artist","#, "");
    assert_eq!(
        Artist::from_json(&Json::parse_str(&without_name).unwrap()),
        Err(DecodeError::MissingField)
    );
    let wrong_total = ARTIST.replace("42", "\"42\"");
    assert_eq!(
        Artist::from_json(&Json::parse_str(&wrong_total).unwrap()),
        Err(DecodeError::ExpectedInteger)
    );
    assert_eq!(Artist::from_json(&Json::Array(vec![])), Err(DecodeError::ExpectedObject));
}

#[test]
fn pages_are_read_with_their_items() {
    let page = Page::<bool>::from_json(
        &Json::parse_str(
            r#"{"href": "h", "limit": 2, "next": null, "offset": 4, "previous": "p", "total": 6, "items": [true, false]}"#,
        )
        .unwrap(),
    )
    .unwrap();
    assert_eq!(page.items, vec![true, false]);
    assert_eq!(page.next, None);
    assert_eq!(page.previous.as_deref(), Some("p"));
    assert_eq!((page.limit, page.offset, page.total), (2, 4, 6));
    assert_eq!(
        Page::<bool>::from_json(&Json::parse_str(r#"{"href": "h", "limit": 2}"#).unwrap()),
        Err(DecodeError::MissingField)
    );
}

#[test]
fn items_that_play_are_tracks_or_episodes() {
    let track = r#"{
        "album": {"album_type": "album", "total_tracks": 1, "external_urls": {"spotify": "s"},
            "href": "h", "id": "a", "images": [], "name": "n", "type": "album", "uri": "u", "artists": []},
        "artists": [], "disc_number": 1, "duration_ms": 1000, "explicit": true,
        "external_ids": {}, "external_urls": {"spotify": "https://open.spotify.com/track/t"},
        "href": "https://api.spotify.com/v1/tracks/t", "id": "t", "name": "The track",
        "popularity": 1, "track_number": 1, "type": "track", "uri": "spotify:track:t", "is_local": false
    }"#;
    let item = TrackItem::from_json(&Json::parse_str(track).unwrap()).unwrap();
    assert!(matches!(item, TrackItem::Track(_)));
    assert_eq!(item.id(), "t");
    assert_eq!(item.name(), "The track");
    assert!(!item.is_playable());
    assert_eq!(item.duration_ms(), 1000);
    assert_eq!(item.external_url(), "https://open.spotify.com/track/t");
    assert_eq!(item.href(), "https://api.spotify.com/v1/tracks/t");
    assert_eq!(item.restrictions(), None);
    assert!(item.explicit());
    assert_eq!(item.uri(), "spotify:track:t");
    assert_eq!(TrackItem::from_json(&Json::Null), Err(DecodeError::UnknownVariant));
}
