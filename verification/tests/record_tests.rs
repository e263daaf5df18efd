use apod_cache::date::Date;
use apod_cache::error::{ApodError, ParseFault};
use apod_cache::filename::{get_file_extension, get_wallpaper_dir};
use apod_cache::record::{record_from_raw, select_image_url, RawRecord, Record};

fn sample_record(date: &str, hdurl: Option<&str>, url: &str) -> Record {
    Record {
        copyright: Some(String::from("someone")),
        date: String::from(date),
        explanation: String::from("an explanation"),
        hdurl: hdurl.map(String::from),
        media_type: String::from("image"),
        service_version: String::from("v1"),
        title: String::from("a title"),
        url: String::from(url),
    }
}

#[test]
fn url_policy_prefers_hdurl() {
    let rec = sample_record("2022-01-01", Some("http://x/hi.jpg"), "http://x/lo.jpg");
    assert_eq!(select_image_url(&rec), "http://x/hi.jpg");
}

#[test]
fn url_policy_falls_back_to_url() {
    let mut rec = sample_record("2022-01-02", None, "http://x/video.mp4");
    rec.media_type = String::from("video");
    assert_eq!(select_image_url(&rec), "http://x/video.mp4");
}

fn full_raw() -> RawRecord {
    RawRecord {
        copyright: None,
        date: Some(String::from("2022-01-01")),
        explanation: Some(String::from("an explanation")),
        hdurl: Some(String::from("http://x/hi.jpg")),
        media_type: Some(String::from("image")),
        service_version: Some(String::from("v1")),
        title: Some(String::from("a title")),
        url: Some(String::from("http://x/lo.jpg")),
    }
}

#[test]
fn complete_raw_fields_become_a_record() {
    let rec = record_from_raw(full_raw()).ok().unwrap();
    assert_eq!(rec.date, "2022-01-01");
    assert_eq!(rec.explanation, "an explanation");
    assert_eq!(rec.hdurl.as_deref(), Some("http://x/hi.jpg"));
    assert_eq!(rec.media_type, "image");
    assert_eq!(rec.service_version, "v1");
    assert_eq!(rec.title, "a title");
    assert_eq!(rec.url, "http://x/lo.jpg");
    assert!(rec.copyright.is_none());
}

#[test]
fn optional_fields_may_be_absent() {
    let mut raw = full_raw();
    raw.copyright = None;
    raw.hdurl = None;
    let rec = record_from_raw(raw).ok().unwrap();
    assert!(rec.hdurl.is_none());
}

#[test]
fn missing_required_field_is_a_parse_fault() {
    let mut raw = full_raw();
    raw.url = None;
    match record_from_raw(raw) {
        Err(ApodError::Parse(ParseFault::MissingField(name))) => assert_eq!(name, "url"),
        _ => panic!("a missing url must be a parse fault"),
    }
    let mut raw = full_raw();
    raw.date = None;
    match record_from_raw(raw) {
        Err(ApodError::Parse(ParseFault::MissingField(name))) => assert_eq!(name, "date"),
        _ => panic!("a missing date must be a parse fault"),
    }
}

#[test]
fn extension_is_the_text_after_the_last_dot() {
    assert_eq!(get_file_extension("http://x/a.jpg"), "jpg");
    assert_eq!(get_file_extension("a.b.png"), "png");
    assert_eq!(get_file_extension("picture."), "");
}

#[test]
fn wallpaper_dir_appends_unpadded_day_month_year() {
    let date = Date::new(2022, 1, 5).unwrap();
    let dir = get_wallpaper_dir("http://x/pic.png", "/tmp/wp/", &date);
    assert_eq!(dir, "/tmp/wp/5_1_2022.png");
    let date = Date::new(1999, 11, 30).unwrap();
    let dir = get_wallpaper_dir("http://x/p.a.jpeg", "base_", &date);
    assert_eq!(dir, "base_30_11_1999.jpeg");
}
