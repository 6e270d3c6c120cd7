use spotify_web_api::api::endpoint::{Endpoint, Pageable};
use spotify_web_api::api::error::{BodyError, DecodeError};
use spotify_web_api::api::paged::lazy::PageCursor;
use spotify_web_api::api::{self, Method, Pagination, Query, QueryParams};
use spotify_web_api::decode::FromJson;
use spotify_web_api::json::Json;
use spotify_web_api::test::client::{ExpectedUrl, PagedTestClient};
use url::Url;

#[derive(Debug, Default)]
struct Dummy;

impl Endpoint for Dummy {
    fn method(&self) -> Method {
        Method::Get
    }

    fn endpoint(&self) -> String {
        "paged_dummy".into()
    }

    fn parameters(&self) -> QueryParams {
        QueryParams::new()
    }

    fn body(&self) -> Result<Option<(&'static str, Vec<u8>)>, BodyError> {
        Ok(None)
    }
}

impl Pageable for Dummy {}

#[derive(Debug, Clone)]
struct DummyResult {
    value: u8,
}

impl FromJson for DummyResult {
    fn target() -> &'static str {
        "DummyResult"
    }

    fn from_json(json: &Json) -> Result<Self, DecodeError> {
        match json.get("value") {
            Some(value) => Ok(DummyResult { value: u8::from_json(value)? }),
            None => Err(DecodeError::MissingField),
        }
    }
}

fn dummies(last: u8) -> Vec<Json> {
    (0..=last)
        .map(|value| Json::Object(vec![("value".to_string(), Json::from_usize(value as usize))]))
        .collect()
}

fn client(last: u8) -> PagedTestClient {
    let endpoint = ExpectedUrl::builder()
        .endpoint("paged_dummy")
        .paginated(true)
        .build()
        .unwrap();
    PagedTestClient::new_raw(endpoint, dummies(last))
}

#[test]
fn page_next_url() {
    let url = Url::parse("https://example.com/foobar").unwrap();
    let page_keyset_first = PageCursor::First;
    let page_keyset_next = PageCursor::Next(url.clone());
    let page_done = PageCursor::Done;

    assert_eq!(page_keyset_first.next_url(), None);
    assert_eq!(page_keyset_next.next_url(), Some(&url));
    assert_eq!(page_done.next_url(), None);
}

#[test]
fn pagination_limit() {
    let client = client(255);

    let res: Vec<DummyResult> = api::paged(Dummy, Pagination::Limit(3))
        .iter(&client)
        .collect()
        .unwrap();

    assert_eq!(res.len(), 3);

    for (i, value) in res.iter().enumerate() {
        assert_eq!(value.value, i as u8);
    }
}

#[test]
fn pagination_all() {
    let client = client(55);

    let res: Vec<DummyResult> = api::paged(Dummy, Pagination::All)
        .iter(&client)
        .collect()
        .unwrap();

    assert_eq!(res.len(), 56);

    for (i, value) in res.iter().enumerate() {
        assert_eq!(value.value, i as u8);
    }
}

#[test]
fn pagination_limit_async() {
    let client = client(255);

    let res: Vec<DummyResult> = api::paged(Dummy, Pagination::Limit(3)).query(&client).unwrap();

    assert_eq!(res.len(), 3);
    for (i, value) in res.iter().enumerate() {
        assert_eq!(value.value, i as u8);
    }
}

#[test]
fn pagination_limit_and_offset_async() {
    let client = client(255);

    let res: Vec<DummyResult> = api::paged_with_limit_and_offset(Dummy, 5, 15)
        .query(&client)
        .unwrap();

    assert_eq!(res.len(), 5);
    for (i, value) in res.iter().enumerate() {
        assert_eq!(value.value, (i + 15) as u8);
    }
}

#[test]
fn pagination_all_async() {
    let client = client(55);

    let res: Vec<DummyResult> = api::paged(Dummy, Pagination::All).query(&client).unwrap();

    assert_eq!(res.len(), 56);
    for (i, value) in res.iter().enumerate() {
        assert_eq!(value.value, i as u8);
    }
}

#[test]
fn limit_of_two_pages_walks_two_pages() {
    let client = client(255);

    let res: Vec<DummyResult> = api::paged(Dummy, Pagination::Limit(100)).query(&client).unwrap();

    assert_eq!(res.len(), 100);
    for (i, value) in res.iter().enumerate() {
        assert_eq!(value.value, i as u8);
    }
}

#[test]
fn page_size_is_capped() {
    assert_eq!(Pagination::Limit(100).limit(), 50);
    assert_eq!(Pagination::Limit(7).limit(), 7);
    assert_eq!(Pagination::All.limit(), 50);
    assert_eq!(Pagination::Page { limit: 51, offset: 3 }.limit(), 50);
    assert_eq!(Pagination::Page { limit: 5, offset: 3 }.offset(), 3);
    assert_eq!(Pagination::Limit(5).offset(), 0);
}

#[test]
fn helpers_cap_the_limit() {
    assert_eq!(api::paged_with_limit(Dummy, 100).pagination, Pagination::Limit(50));
    assert_eq!(
        api::paged_with_limit_and_offset(Dummy, 100, 7).pagination,
        Pagination::Page { limit: 50, offset: 7 }
    );
    assert_eq!(api::paged_all(Dummy).pagination, Pagination::All);
}

#[test]
fn last_page_is_a_short_page_or_a_filled_limit() {
    assert!(Pagination::All.is_last_page(49, 49));
    assert!(!Pagination::All.is_last_page(50, 1000));
    assert!(Pagination::Limit(3).is_last_page(3, 3));
    assert!(!Pagination::Limit(100).is_last_page(50, 50));
    assert!(Pagination::Limit(100).is_last_page(50, 100));
    assert!(Pagination::Page { limit: 5, offset: 15 }.is_last_page(5, 5));
    assert!(Pagination::Limit(0).is_last_page(0, 0));
}

#[test]
fn owning_iterator_yields_the_same_items() {
    let client = client(120);

    let mut iter = api::paged(Dummy, Pagination::All).into_lazy_iter::<_, DummyResult>(&client);
    let mut values = Vec::new();
    while let Some(item) = iter.next() {
        values.push(item.unwrap().value);
    }
    assert_eq!(values, (0..=120).collect::<Vec<u8>>());
    // The sequence has ended for good.
    assert!(iter.next().is_none());
    assert!(PageCursor::Done.is_done());
    assert!(!PageCursor::First.is_done());
}

#[test]
fn walk_past_the_end_of_the_data_is_empty() {
    let client = client(9);

    let res: Vec<DummyResult> = api::paged(Dummy, Pagination::Page { limit: 5, offset: 20 })
        .query(&client)
        .unwrap();
    assert!(res.is_empty());

    let res: Vec<DummyResult> = api::paged(Dummy, Pagination::Page { limit: 5, offset: 7 })
        .query(&client)
        .unwrap();
    assert_eq!(res.iter().map(|r| r.value).collect::<Vec<_>>(), vec![7, 8, 9]);

    let res: Vec<DummyResult> = api::paged(Dummy, Pagination::Limit(0)).query(&client).unwrap();
    assert!(res.is_empty());
}

#[test]
fn failure_of_a_page_ends_the_walk_with_its_error() {
    let endpoint = ExpectedUrl::builder()
        .endpoint("paged_dummy")
        .paginated(true)
        .build()
        .unwrap();
    let items = vec![Json::Bool(true), Json::Null];
    let client = PagedTestClient::new_raw(endpoint, items);

    let res: Result<Vec<bool>, _> = api::paged(Dummy, Pagination::All).query(&client);
    assert!(matches!(
        res,
        Err(api::ApiError::DataType { source: DecodeError::ExpectedBool, typename: "Page" })
    ));

    let mut iter = api::paged(Dummy, Pagination::All).into_lazy_iter::<_, Option<bool>>(&client);
    assert!(matches!(iter.next(), Some(Ok(Some(true)))));
    assert!(matches!(iter.next(), Some(Ok(None))));
    assert!(iter.next().is_none());
}

#[test]
fn collecting_goes_on_from_where_the_walk_is() {
    let client = client(120);

    let paged = api::paged(Dummy, Pagination::All);
    let mut iter = paged.iter::<_, DummyResult>(&client);
    assert_eq!(iter.next().unwrap().unwrap().value, 0);
    assert_eq!(iter.next().unwrap().unwrap().value, 1);
    let rest = iter.collect().unwrap();
    assert_eq!(
        rest.iter().map(|r| r.value).collect::<Vec<_>>(),
        (2..=120).collect::<Vec<u8>>()
    );
}
