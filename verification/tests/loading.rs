use podcast_core::feed::{get_episodes, Feed, ParsePolicy};
use podcast_core::loader::{load, Fetched, LoadError};
use std::path::PathBuf;

const FEED: &str = "<rss version=\"2.0\"><channel><item><title>\u{e9}t\u{e9}</title><enclosure url=\"u\"/></item></channel></rss>";

fn url() -> Feed {
    Feed::Url("http://example.com/feed.xml".to_string())
}

fn path() -> Feed {
    Feed::Path(PathBuf::from("feeds/valid_basic.xml"))
}

#[test]
fn a_200_answer_in_utf8_is_the_text() {
    let fetched = Fetched::Response { status_code: 200, body: FEED.as_bytes().to_vec() };
    assert_eq!(load(&url(), fetched), Ok(FEED.to_string()));
}

#[test]
fn another_status_is_a_network_error() {
    for status_code in [404, 500, 301, 201, 0, -1] {
        let fetched = Fetched::Response { status_code, body: FEED.as_bytes().to_vec() };
        assert_eq!(load(&url(), fetched), Err(LoadError::NetworkError));
    }
}

#[test]
fn a_failed_request_is_a_network_error() {
    assert_eq!(load(&url(), Fetched::Failed), Err(LoadError::NetworkError));
    assert_eq!(load(&url(), Fetched::File { text: FEED.to_string() }), Err(LoadError::NetworkError));
}

#[test]
fn a_body_that_is_not_utf8_is_an_encoding_error() {
    let fetched = Fetched::Response { status_code: 200, body: vec![0x3c, 0xff, 0xfe, 0x3e] };
    assert_eq!(load(&url(), fetched), Err(LoadError::EncodingError));
    let cut = Fetched::Response { status_code: 200, body: vec![0xc3] };
    assert_eq!(load(&url(), cut), Err(LoadError::EncodingError));
}

#[test]
fn the_status_is_judged_before_the_body() {
    let fetched = Fetched::Response { status_code: 503, body: vec![0xff] };
    assert_eq!(load(&url(), fetched), Err(LoadError::NetworkError));
}

#[test]
fn a_file_that_was_read_is_the_text() {
    assert_eq!(load(&path(), Fetched::File { text: FEED.to_string() }), Ok(FEED.to_string()));
}

#[test]
fn a_file_that_was_not_read_is_an_io_error() {
    assert_eq!(load(&path(), Fetched::Failed), Err(LoadError::IoError));
    let fetched = Fetched::Response { status_code: 200, body: FEED.as_bytes().to_vec() };
    assert_eq!(load(&path(), fetched), Err(LoadError::IoError));
}

#[test]
fn get_episodes_parses_what_was_loaded() {
    let fetched = Fetched::Response { status_code: 200, body: FEED.as_bytes().to_vec() };
    let episodes = get_episodes(url(), fetched, ParsePolicy::default()).unwrap();
    assert_eq!(episodes.len(), 1);
    assert_eq!(episodes[0].title(), "\u{e9}t\u{e9}");
    let episodes = get_episodes(path(), Fetched::File { text: FEED.to_string() }, ParsePolicy::default()).unwrap();
    assert_eq!(episodes.len(), 1);
}

#[test]
fn get_episodes_passes_load_errors_on() {
    let fetched = Fetched::Response { status_code: 404, body: vec![] };
    assert_eq!(get_episodes(url(), fetched, ParsePolicy::default()), Err(LoadError::NetworkError));
    let fetched = Fetched::Response { status_code: 200, body: vec![0x80] };
    assert_eq!(get_episodes(url(), fetched, ParsePolicy::default()), Err(LoadError::EncodingError));
}

#[test]
fn get_episodes_takes_a_text_that_is_no_feed_for_an_empty_list() {
    let fetched = Fetched::Response { status_code: 200, body: b"<html/>".to_vec() };
    assert_eq!(get_episodes(url(), fetched, ParsePolicy::default()), Ok(vec![]));
    let fetched = Fetched::File { text: "no xml".to_string() };
    assert_eq!(get_episodes(path(), fetched, ParsePolicy::default()), Ok(vec![]));
}

#[test]
#[should_panic]
fn test_feed_load_error() {
    let feed = Feed::Path(PathBuf::from("notfound"));
    let _episodes = get_episodes(feed, Fetched::Failed, ParsePolicy::default()).unwrap();
}
