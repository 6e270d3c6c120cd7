use spotify_web_api::model::{IdError, IdType, TrackId, UserId};

#[test]
fn test_id() {
    let id = "6rqhFgbbKwnb9MLmUQDhG6";
    let track_id = TrackId::from_id(id).unwrap();
    assert_eq!(track_id.id(), id);

    let bad_id = "6rqhFgbbKwnb9MLmUQDhG";
    let track_id = TrackId::from_id(bad_id);
    assert_eq!(
        track_id,
        Err(IdError::InvalidLength {
            got: 21,
            expected: 22
        })
    );
}

#[test]
fn test_id_from_uri() {
    let uri = "spotify:track:6rqhFgbbKwnb9MLmUQDhG6";
    let track_id = TrackId::from_uri(uri).unwrap();
    assert_eq!(track_id.id(), "6rqhFgbbKwnb9MLmUQDhG6");

    let bad_uri = "spotify:track:6rqhFgbbKwnb9MLmUQDhG";
    let track_id = TrackId::from_uri(bad_uri);
    assert_eq!(
        track_id,
        Err(IdError::InvalidLength {
            got: 21,
            expected: 22
        })
    );
}

#[test]
fn id_with_other_characters_is_refused() {
    assert_eq!(TrackId::from_id("6rqhFgbbKwnb9MLmUQDh-6"), Err(IdError::InvalidFormat));
    assert_eq!(TrackId::from_id("6rqhFgbbKwnb9MLmUQDhé"), Err(IdError::InvalidFormat));
}

#[test]
fn uri_of_another_resource_is_refused() {
    assert_eq!(
        TrackId::from_uri("spotify:album:6rqhFgbbKwnb9MLmUQDhG6"),
        Err(IdError::InvalidFormat)
    );
}

#[test]
fn id_gives_its_uri_and_type() {
    let track = TrackId::from_id("6rqhFgbbKwnb9MLmUQDhG6").unwrap();
    assert_eq!(track.uri(), "spotify:track:6rqhFgbbKwnb9MLmUQDhG6");
    assert_eq!(track._type(), IdType::Track);
}

#[test]
fn user_id_is_taken_as_it_is() {
    let user = UserId::from_id("smedjan").unwrap();
    assert_eq!(user.id(), "smedjan");
    assert_eq!(user.uri(), "spotify:user:smedjan");
    assert_eq!(UserId::from_uri("spotify:user:smedjan").unwrap().id(), "smedjan");
}

#[test]
fn id_errors_describe_themselves() {
    assert_eq!(IdError::InvalidFormat.to_string(), "The ID is not in correct format.");
    assert_eq!(
        IdError::InvalidLength { got: 21, expected: 22 }.to_string(),
        "The ID is not the correct length. Got 21, expected 22."
    );
}

#[test]
fn uri_parses_back_to_its_id() {
    let track = TrackId::from_id("6rqhFgbbKwnb9MLmUQDhG6").unwrap();
    assert_eq!(TrackId::from_uri(&track.uri()), Ok(track.clone()));
    assert_eq!(TrackId::from_id(track.id()), Ok(track.clone()));
    let user = UserId::from_id("a user:with colons").unwrap();
    assert_eq!(UserId::from_uri(&user.uri()), Ok(user));
}
