use spotify_web_api::api::{FormParams, QueryParams};
use spotify_web_api::urls::{append_pair, cost_of_pairs, extend_pairs, find_value, pair_fits};
use url::Url;

fn pairs_of(url: &Url) -> Vec<(String, String)> {
    url.query_pairs()
        .map(|(k, v)| (k.into_owned(), v.into_owned()))
        .collect()
}

fn owned(pairs: &[(&str, &str)]) -> Vec<(String, String)> {
    pairs
        .iter()
        .map(|(k, v)| (k.to_string(), v.to_string()))
        .collect()
}

#[test]
fn query_round_trip_keeps_order_and_repeated_keys() {
    let mut params = QueryParams::new();
    params
        .push("ids", &"a,b")
        .push("ids", &"c")
        .push("q", &"rock & roll = 100%")
        .push("empty", &"")
        .push_opt("market", Some("SE"))
        .push_opt("absent", None::<&str>)
        .push("snowman", &"\u{2603}+x y");

    let mut url = Url::parse("https://api.spotify.com/v1/search").unwrap();
    assert!(params.add_to_url(&mut url));

    assert_eq!(
        pairs_of(&url),
        owned(&[
            ("ids", "a,b"),
            ("ids", "c"),
            ("q", "rock & roll = 100%"),
            ("empty", ""),
            ("market", "SE"),
            ("snowman", "\u{2603}+x y"),
        ])
    );
    assert_eq!(url.path(), "/v1/search");
}

#[test]
fn parameters_come_after_the_query_that_is_there() {
    let mut params = QueryParams::new();
    params.push("limit", &50usize).push("offset", &0usize);

    let mut url = Url::parse("https://api.spotify.com/v1/me/albums?market=SE#top").unwrap();
    assert!(params.add_to_url(&mut url));

    assert_eq!(
        url.as_str(),
        "https://api.spotify.com/v1/me/albums?market=SE&limit=50&offset=0#top"
    );
}

#[test]
fn extending_params_from_a_list() {
    let mut params = QueryParams::new();
    params.extend(&vec![("a".to_string(), 1u32), ("b".to_string(), 2u32)]);
    assert_eq!(params.pairs(), &owned(&[("a", "1"), ("b", "2")]));

    let mut form = FormParams::new();
    form.push("x", &true).extend(&vec![("y".to_string(), "z")]);
    let (mime, body) = form.into_body().unwrap().unwrap();
    assert_eq!(mime, "application/x-www-form-urlencoded");
    assert_eq!(body, b"x=true&y=z");
}

#[test]
fn form_body_is_url_encoded() {
    let mut form = FormParams::new();
    form.push("grant_type", &"authorization_code")
        .push("redirect_uri", &"https://example.com/cb?x=1")
        .push_opt("scope", Some("a b"))
        .push_opt("none", None::<&str>);
    let (_, body) = form.into_body().unwrap().unwrap();
    assert_eq!(
        String::from_utf8(body).unwrap(),
        "grant_type=authorization_code&redirect_uri=https%3A%2F%2Fexample.com%2Fcb%3Fx%3D1&scope=a+b"
    );
}

#[test]
fn appending_a_pair() {
    let mut url = Url::parse("https://example.com/a").unwrap();
    assert!(pair_fits(&url, "k", "v"));
    assert!(append_pair(&mut url, "k", "v w"));
    assert_eq!(url.as_str(), "https://example.com/a?k=v+w");
    assert!(extend_pairs(&mut url, &owned(&[("k", "2"), ("l", "")])));
    assert_eq!(pairs_of(&url), owned(&[("k", "v w"), ("k", "2"), ("l", "")]));
}

#[test]
fn cost_of_pairs_counts_three_bytes_for_one() {
    assert_eq!(cost_of_pairs(&owned(&[])), Some(1));
    assert_eq!(cost_of_pairs(&owned(&[("ab", "c")])), Some(13));
    assert_eq!(cost_of_pairs(&owned(&[("ab", "c"), ("", "")])), Some(16));
    assert_eq!(cost_of_pairs(&owned(&[("\u{2603}", "")])), Some(13));
}

#[test]
fn adding_parameters_changes_the_query_only() {
    let mut params = QueryParams::new();
    params.push("q", &"a b").push("q", &"#/?");

    let mut url = Url::parse("https://user:pw@example.com:8443/a/b?x=1#frag").unwrap();
    assert!(params.add_to_url(&mut url));
    assert_eq!(url.scheme(), "https");
    assert_eq!(url.host_str(), Some("example.com"));
    assert_eq!(url.path(), "/a/b");
    assert_eq!(url.fragment(), Some("frag"));
    assert_eq!(spotify_web_api::urls::scheme(&url), "https");
    assert_eq!(spotify_web_api::urls::host(&url), Some("example.com".to_string()));
    assert_eq!(spotify_web_api::urls::fragment(&url), Some("frag".to_string()));
    assert_eq!(
        url.as_str(),
        "https://user:pw@example.com:8443/a/b?x=1&q=a+b&q=%23%2F%3F#frag"
    );

    let plain = Url::parse("mailto:someone@example.com").unwrap();
    assert_eq!(spotify_web_api::urls::host(&plain), None);
    assert_eq!(spotify_web_api::urls::fragment(&plain), None);
}

#[test]
fn no_parameters_open_the_query_all_the_same() {
    let mut url = Url::parse("https://api.spotify.com/v1/me/player").unwrap();
    assert!(QueryParams::new().add_to_url(&mut url));
    assert_eq!(url.as_str(), "https://api.spotify.com/v1/me/player?");
    assert!(QueryParams::from_url(&url).pairs().is_empty());
    assert!(extend_pairs(&mut url, &owned(&[])));
    assert_eq!(url.as_str(), "https://api.spotify.com/v1/me/player?");
}

#[test]
fn first_value_of_a_key() {
    let pairs = owned(&[("a", "1"), ("b", "2"), ("a", "3")]);
    assert_eq!(find_value(&pairs, "a"), Some("1"));
    assert_eq!(find_value(&pairs, "b"), Some("2"));
    assert_eq!(find_value(&pairs, "c"), None);
}

#[test]
fn parameters_are_read_back_from_the_url() {
    let mut params = QueryParams::new();
    params
        .push("ids", &"a,b")
        .push("ids", &"a,b")
        .push("q", &"caf\u{e9} & co=+%")
        .push("", &"");

    let mut url = Url::parse("https://api.spotify.com/v1/search").unwrap();
    assert!(params.add_to_url(&mut url));
    assert_eq!(QueryParams::from_url(&url).pairs(), params.pairs());

    // What the query held before stays in front.
    assert!(params.add_to_url(&mut url));
    let twice: Vec<(String, String)> =
        params.pairs().iter().chain(params.pairs().iter()).cloned().collect();
    assert_eq!(QueryParams::from_url(&url).pairs(), &twice);
    assert_eq!(spotify_web_api::urls::query_pairs(&url), twice);
}
