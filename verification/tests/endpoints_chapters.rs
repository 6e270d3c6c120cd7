use spotify_web_api::api::chapters::{GetChapter};
use spotify_web_api::api::{self, Query as _};
use spotify_web_api::test::client::{ExpectedUrl, SingleTestClient};

#[test]
fn test_get_chapter_endpoint() {
    let endpoint = ExpectedUrl::builder()
        .endpoint("chapters/0D5wENdkdwbqlrHoaJ9g29")
        .build()
        .unwrap();

    let client = SingleTestClient::new_raw(endpoint, "");

    let endpoint = GetChapter::from("0D5wENdkdwbqlrHoaJ9g29");

    api::ignore(endpoint).query(&client).unwrap();
}
