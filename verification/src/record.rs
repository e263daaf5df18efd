//! The daily picture record, its mathematical view, and the URL policy.

use vstd::prelude::*;

use crate::error::{ApodError, ParseFault};

verus! {

/// One daily entry: the metadata the remote service reports for a calendar
/// date.  `date` is the unique key, in `YYYY-MM-DD` form; `hdurl` is present
/// exactly when a higher-resolution static image exists.
pub struct Record {
    pub copyright: Option<String>,
    pub date: String,
    pub explanation: String,
    pub hdurl: Option<String>,
    pub media_type: String,
    pub service_version: String,
    pub title: String,
    pub url: String,
}

/// The mathematical content of a `Record`: each field as a character
/// sequence.
pub struct RecordView {
    pub copyright: Option<Seq<char>>,
    pub date: Seq<char>,
    pub explanation: Seq<char>,
    pub hdurl: Option<Seq<char>>,
    pub media_type: Seq<char>,
    pub service_version: Seq<char>,
    pub title: Seq<char>,
    pub url: Seq<char>,
}

impl View for Record {
    type V = RecordView;

    open spec fn view(&self) -> RecordView {
        RecordView {
            copyright: match self.copyright {
                Some(c) => Some(c@),
                None => None,
            },
            date: self.date@,
            explanation: self.explanation@,
            hdurl: match self.hdurl {
                Some(h) => Some(h@),
                None => None,
            },
            media_type: self.media_type@,
            service_version: self.service_version@,
            title: self.title@,
            url: self.url@,
        }
    }
}

/// The URL policy: the higher-resolution variant when present, otherwise the
/// standard URL.  Entries without `hdurl` (historically, videos) thus fall
/// back to `url`; no branching on `media_type` takes place.
pub open spec fn selected_url(r: RecordView) -> Seq<char> {
    match r.hdurl {
        Some(h) => h,
        None => r.url,
    }
}

/// Returns `record.hdurl` when it is present, otherwise `record.url`.
pub fn select_image_url(record: &Record) -> (u: String)
    ensures
        u@ == selected_url(record@),
{
    match &record.hdurl {
        Some(h) => h.clone(),
        None => record.url.clone(),
    }
}

/// Law: for every record, the selected URL is the `hdurl` field when that
/// field is present, and the `url` field otherwise.
pub proof fn lemma_url_policy(r: RecordView)
    ensures
        r.hdurl matches Some(h) ==> selected_url(r) == h,
        r.hdurl is None ==> selected_url(r) == r.url,
{
}

/// The string fields found in a response body, before the required ones are
/// checked for presence.
pub struct RawRecord {
    pub copyright: Option<String>,
    pub date: Option<String>,
    pub explanation: Option<String>,
    pub hdurl: Option<String>,
    pub media_type: Option<String>,
    pub service_version: Option<String>,
    pub title: Option<String>,
    pub url: Option<String>,
}

/// The mathematical content of a `RawRecord`: each present field as a
/// character sequence.
pub struct RawRecordView {
    pub copyright: Option<Seq<char>>,
    pub date: Option<Seq<char>>,
    pub explanation: Option<Seq<char>>,
    pub hdurl: Option<Seq<char>>,
    pub media_type: Option<Seq<char>>,
    pub service_version: Option<Seq<char>>,
    pub title: Option<Seq<char>>,
    pub url: Option<Seq<char>>,
}

impl View for RawRecord {
    type V = RawRecordView;

    open spec fn view(&self) -> RawRecordView {
        RawRecordView {
            copyright: match self.copyright {
                Some(c) => Some(c@),
                None => None,
            },
            date: match self.date {
                Some(f) => Some(f@),
                None => None,
            },
            explanation: match self.explanation {
                Some(f) => Some(f@),
                None => None,
            },
            hdurl: match self.hdurl {
                Some(h) => Some(h@),
                None => None,
            },
            media_type: match self.media_type {
                Some(f) => Some(f@),
                None => None,
            },
            service_version: match self.service_version {
                Some(f) => Some(f@),
                None => None,
            },
            title: match self.title {
                Some(f) => Some(f@),
                None => None,
            },
            url: match self.url {
                Some(f) => Some(f@),
                None => None,
            },
        }
    }
}

/// Whether every field the record format requires is present.  `copyright`
/// and `hdurl` stay optional.
pub open spec fn raw_complete(r: RawRecordView) -> bool {
    &&& r.date is Some
    &&& r.explanation is Some
    &&& r.media_type is Some
    &&& r.service_version is Some
    &&& r.title is Some
    &&& r.url is Some
}

/// The record a complete set of raw fields denotes.
pub open spec fn raw_record_of(r: RawRecordView) -> RecordView
    recommends
        raw_complete(r),
{
    RecordView {
        copyright: r.copyright,
        date: r.date->Some_0,
        explanation: r.explanation->Some_0,
        hdurl: r.hdurl,
        media_type: r.media_type->Some_0,
        service_version: r.service_version->Some_0,
        title: r.title->Some_0,
        url: r.url->Some_0,
    }
}

/// The parse fault reported when a required string field is absent.
fn missing_field(name: &str) -> (e: ApodError)
    ensures
        e is Parse,
{
    ApodError::Parse(ParseFault::MissingField(name.to_owned()))
}

/// Validates the raw fields of a response body: a record comes back exactly
/// when every required field is present, and it carries those fields
/// unchanged; otherwise the absence is a parse fault.
pub fn record_from_raw(raw: RawRecord) -> (r: Result<Record, ApodError>)
    ensures
        r is Ok <==> raw_complete(raw@),
        r matches Ok(rec) ==> rec@ == raw_record_of(raw@),
        r matches Err(e) ==> e is Parse,
{
    let RawRecord { copyright, date, explanation, hdurl, media_type, service_version, title, url } =
        raw;
    let date = match date {
        Some(f) => f,
        None => {
            return Err(missing_field("date"));
        },
    };
    let explanation = match explanation {
        Some(f) => f,
        None => {
            return Err(missing_field("explanation"));
        },
    };
    let media_type = match media_type {
        Some(f) => f,
        None => {
            return Err(missing_field("media_type"));
        },
    };
    let service_version = match service_version {
        Some(f) => f,
        None => {
            return Err(missing_field("service_version"));
        },
    };
    let title = match title {
        Some(f) => f,
        None => {
            return Err(missing_field("title"));
        },
    };
    let url = match url {
        Some(f) => f,
        None => {
            return Err(missing_field("url"));
        },
    };
    Ok(Record { copyright, date, explanation, hdurl, media_type, service_version, title, url })
}

} // verus!
