use apod_cache::date::Date;
use apod_cache::error::{ApodError, ParseFault};
use apod_cache::fetch::{build_request_url, response_to_record, validate_record_date};
use apod_cache::record::{select_image_url, Record};
use apod_cache::resolve::{get_wallpaper_url, prefetch_range, resolve, store_fetched};
use apod_cache::store::{initialize, lookup, Store};

// No server listens here, so any attempted request fails at once: a test
// that succeeds through this base URL has provably used the cache alone.
const DEAD_BASE_URL: &str = "http://127.0.0.1:9/apod";

fn sample_record(date: &str, hdurl: Option<&str>, url: &str) -> Record {
    Record {
        copyright: None,
        date: String::from(date),
        explanation: String::from("an explanation"),
        hdurl: hdurl.map(String::from),
        media_type: String::from("image"),
        service_version: String::from("v1"),
        title: String::from("a title"),
        url: String::from(url),
    }
}

fn empty_store() -> Store {
    initialize(":memory:").ok().unwrap()
}

#[test]
fn request_url_carries_key_and_iso_date() {
    let date = Date::new(2022, 1, 1).unwrap();
    let url = build_request_url("http://x/apod", "k", &date);
    assert_eq!(url, "http://x/apod?api_key=k&date=2022-01-01");
}

#[test]
fn populating_a_missing_date_caches_one_record() {
    let mut store = empty_store();
    assert!(lookup(&store, &String::from("2022-01-01")).ok().unwrap().is_none());
    let fetched = sample_record("2022-01-01", Some("http://x/hi.jpg"), "http://x/lo.jpg");
    let rec = store_fetched(&mut store, fetched, false).ok().unwrap();
    assert_eq!(rec.date, "2022-01-01");
    let cached = lookup(&store, &String::from("2022-01-01")).ok().unwrap().unwrap();
    assert_eq!(cached.date, "2022-01-01");
    assert_eq!(cached.hdurl.as_deref(), Some("http://x/hi.jpg"));
    assert_eq!(select_image_url(&cached), "http://x/hi.jpg");
}

#[test]
fn video_entries_fall_back_to_the_standard_url() {
    let mut rec = sample_record("2022-01-02", None, "http://x/video.mp4");
    rec.media_type = String::from("video");
    assert_eq!(select_image_url(&rec), "http://x/video.mp4");
}

#[test]
fn resolving_a_cached_date_uses_no_network() {
    let mut store = empty_store();
    let fetched = sample_record("2022-01-01", Some("http://x/hi.jpg"), "http://x/lo.jpg");
    store_fetched(&mut store, fetched, true).ok().unwrap();
    let date = Date::new(2022, 1, 1).unwrap();
    // The base URL is unreachable: only the cache can answer.
    let first = resolve(&mut store, DEAD_BASE_URL, "k", &date, false).ok().unwrap();
    let second = resolve(&mut store, DEAD_BASE_URL, "k", &date, false).ok().unwrap();
    assert_eq!(first.date, second.date);
    assert_eq!(first.title, second.title);
    assert_eq!(first.explanation, second.explanation);
    assert_eq!(first.hdurl, second.hdurl);
    assert_eq!(first.url, second.url);
    assert_eq!(first.hdurl.as_deref(), Some("http://x/hi.jpg"));
    let url = get_wallpaper_url(&mut store, DEAD_BASE_URL, "k", &date).ok().unwrap();
    assert_eq!(url, "http://x/hi.jpg");
}

#[test]
fn a_404_response_is_an_api_error_and_caches_nothing() {
    let url = String::from("http://x/apod?api_key=k&date=2022-01-03");
    match response_to_record(url.clone(), 404, "whatever the body holds") {
        Err(ApodError::API(a)) => {
            assert_eq!(a.status_code, 404);
            assert_eq!(a.url, url);
        },
        _ => panic!("a non-2xx status must be an API error"),
    }
    let store = empty_store();
    assert!(lookup(&store, &String::from("2022-01-03")).ok().unwrap().is_none());
}

#[test]
fn a_2xx_body_parses_into_a_record() {
    let body = "{\"date\":\"2022-01-01\",\"explanation\":\"an explanation\",\
                \"hdurl\":\"http://x/hi.jpg\",\"media_type\":\"image\",\
                \"service_version\":\"v1\",\"title\":\"a title\",\"url\":\"http://x/lo.jpg\"}";
    let rec = response_to_record(String::from("u"), 200, body).ok().unwrap();
    assert_eq!(rec.date, "2022-01-01");
    assert_eq!(rec.hdurl.as_deref(), Some("http://x/hi.jpg"));
    assert!(rec.copyright.is_none());
}

#[test]
fn a_malformed_2xx_body_is_a_parse_fault() {
    assert!(matches!(
        response_to_record(String::from("u"), 200, "not json at all"),
        Err(ApodError::Parse(_))
    ));
    assert!(matches!(
        response_to_record(String::from("u"), 200, "{\"date\":\"2022-01-01\"}"),
        Err(ApodError::Parse(_))
    ));
}

#[test]
fn an_unreachable_service_fails_resolution_and_caches_nothing() {
    let mut store = empty_store();
    let date = Date::new(2022, 1, 3).unwrap();
    match resolve(&mut store, DEAD_BASE_URL, "k", &date, false) {
        Err(ApodError::Transport(_)) | Err(ApodError::Io(_)) => {},
        _ => panic!("an unreachable service must fail resolution"),
    }
    assert!(lookup(&store, &String::from("2022-01-03")).ok().unwrap().is_none());
}

#[test]
fn an_empty_or_inverted_range_issues_no_requests() {
    let mut store = empty_store();
    let a = Date::new(2022, 1, 2).unwrap();
    let b = Date::new(2022, 1, 1).unwrap();
    // The base URL is unreachable, so success shows nothing was requested.
    assert!(prefetch_range(&mut store, DEAD_BASE_URL, "k", &a, &b, false).is_ok());
    assert!(prefetch_range(&mut store, DEAD_BASE_URL, "k", &a, &a, false).is_ok());
}

#[test]
fn a_range_over_cached_dates_succeeds_without_network() {
    let mut store = empty_store();
    store_fetched(&mut store, sample_record("2022-01-01", None, "http://x/a.jpg"), true)
        .ok()
        .unwrap();
    store_fetched(&mut store, sample_record("2022-01-02", None, "http://x/b.jpg"), true)
        .ok()
        .unwrap();
    let start = Date::new(2022, 1, 1).unwrap();
    let end = Date::new(2022, 1, 3).unwrap();
    assert!(prefetch_range(&mut store, DEAD_BASE_URL, "k", &start, &end, false).is_ok());
}

#[test]
fn a_range_ending_on_an_uncached_date_fails_fast_and_keeps_earlier_dates() {
    let mut store = empty_store();
    store_fetched(&mut store, sample_record("2022-01-01", None, "http://x/a.jpg"), true)
        .ok()
        .unwrap();
    let start = Date::new(2022, 1, 1).unwrap();
    let end = Date::new(2022, 1, 3).unwrap();
    assert!(prefetch_range(&mut store, DEAD_BASE_URL, "k", &start, &end, false).is_err());
    assert!(lookup(&store, &String::from("2022-01-01")).ok().unwrap().is_some());
    assert!(lookup(&store, &String::from("2022-01-02")).ok().unwrap().is_none());
}

#[test]
fn a_fatal_insert_failure_surfaces_as_a_storage_error() {
    let mut store = empty_store();
    store_fetched(&mut store, sample_record("2022-01-01", None, "http://x/a.jpg"), true)
        .ok()
        .unwrap();
    // The same date again: the insert must fail; under the fatal policy the
    // error surfaces, under the default policy the record still comes back.
    let dup = sample_record("2022-01-01", None, "http://x/b.jpg");
    assert!(matches!(
        store_fetched(&mut store, dup, true),
        Err(ApodError::Storage(_))
    ));
    let dup = sample_record("2022-01-01", None, "http://x/b.jpg");
    let rec = store_fetched(&mut store, dup, false).ok().unwrap();
    assert_eq!(rec.url, "http://x/b.jpg");
    // The cache keeps the first record.
    let cached = lookup(&store, &String::from("2022-01-01")).ok().unwrap().unwrap();
    assert_eq!(cached.url, "http://x/a.jpg");
}

#[test]
fn a_record_for_another_date_is_a_parse_fault() {
    let rec = sample_record("2022-01-02", None, "http://x/a.jpg");
    match validate_record_date(rec, &String::from("2022-01-01")) {
        Err(ApodError::Parse(ParseFault::DateMismatch(held))) => {
            assert_eq!(held, "2022-01-02");
        },
        _ => panic!("a mismatched date must be a parse fault"),
    }
    let rec = sample_record("2022-01-01", None, "http://x/a.jpg");
    let back = validate_record_date(rec, &String::from("2022-01-01")).ok().unwrap();
    assert_eq!(back.date, "2022-01-01");
    assert_eq!(back.url, "http://x/a.jpg");
}
