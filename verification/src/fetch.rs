//! The remote fetcher: one GET per date, and the turning of a response into
//! a record.
//!
//! Only the network call and the JSON decoding are trusted.  The decoded
//! fields are a function of the body text alone and carry the name
//! `parsed_fields`, so which status codes succeed, which fields a body must
//! carry, what the resulting record holds, and that it answers for the
//! requested date are all verified, in `response_to_record`,
//! `record_from_raw` and `validate_record_date`.

use vstd::prelude::*;

use crate::date::{iso_of, Date};
use crate::error::{APIError, ApodError, ParseFault};
use crate::record::{
    raw_complete, raw_record_of, record_from_raw, RawRecord, RawRecordView, Record,
};

verus! {

/// The record fields serde_json finds in the body text: nothing when the
/// body is not well-formed JSON, otherwise, for each key, the string the
/// body's top-level object maps it to, where it does.  A function of the
/// body text alone.
pub uninterp spec fn parsed_fields(body: Seq<char>) -> Option<RawRecordView>;

/// The request URL for one date: the base URL carrying the key and the ISO
/// date as query parameters.
pub open spec fn request_url(base: Seq<char>, key: Seq<char>, d: Date) -> Seq<char> {
    base + "?api_key="@ + key + "&date="@ + iso_of(d)
}

/// Builds the request URL for one date.
pub fn build_request_url(base_url: &str, api_key: &str, date: &Date) -> (u: String)
    requires
        date.valid(),
    ensures
        u@ == request_url(base_url@, api_key@, *date),
{
    let mut u = base_url.to_owned();
    u.append("?api_key=");
    u.append(api_key);
    u.append("&date=");
    let iso = date.iso_string();
    u.append(iso.as_str());
    assert(u@ =~= request_url(base_url@, api_key@, *date));
    u
}

/// Relies on ureq::get and Request::call: one blocking GET, no retries.  A
/// response comes back as its status code and body text; ureq reports a
/// non-2xx status as Error::Status, carrying that code, and for such a
/// response the body comes back empty -- it is discarded here, and no
/// verified caller reads it.  A connection failure or an unreadable body
/// comes back as an error.
#[verifier::external_body]
fn http_get(url: &str) -> (r: Result<(u16, String), ApodError>)
    ensures
        r matches Err(e) ==> e is Transport || e is Io,
{
    match ureq::get(url).call() {
        Ok(resp) => {
            let status = resp.status();
            match resp.into_string() {
                Ok(body) => Ok((status, body)),
                Err(e) => Err(ApodError::Io(e)),
            }
        },
        Err(ureq::Error::Status(code, _)) => Ok((code, String::new())),
        Err(ureq::Error::Transport(t)) => Err(ApodError::Transport(t)),
    }
}

/// Relies on serde_json::from_str, Value::get and Value::as_str: decodes
/// the body text and pulls out the record's string fields, all total and
/// deterministic, so the outcome is exactly `parsed_fields` of the body:
/// an error for a body that is not well-formed JSON, otherwise each field's
/// string where the body's top-level object holds one under that key.
#[verifier::external_body]
fn parse_body(body: &str) -> (r: Result<RawRecord, serde_json::Error>)
    ensures
        r matches Ok(raw) ==> parsed_fields(body@) == Some(raw@),
        r is Err ==> parsed_fields(body@) is None,
{
    let v: serde_json::Value = serde_json::from_str(body)?;
    let f = |k: &str| v.get(k).and_then(|x| x.as_str()).map(|s| s.to_owned());
    Ok(RawRecord {
        copyright: f("copyright"), date: f("date"), explanation: f("explanation"),
        hdurl: f("hdurl"), media_type: f("media_type"),
        service_version: f("service_version"), title: f("title"), url: f("url"),
    })
}

/// Turns one response into a record: a non-2xx status is an API error
/// carrying that status and the requested URL, whatever the body holds; a
/// 2xx body yields a record exactly when it parses as JSON holding every
/// required field, and the record carries those fields; anything else is a
/// parse fault.
pub fn response_to_record(url: String, status: u16, body: &str) -> (r: Result<Record, ApodError>)
    ensures
        !(200 <= status < 300) ==> (r matches Err(e) && e matches ApodError::API(a)
            && a.status_code == status && a.url@ == url@),
        200 <= status < 300 ==> (r is Ok <==> (parsed_fields(body@) matches Some(raw)
            && raw_complete(raw))),
        r matches Ok(rec) ==> (parsed_fields(body@) matches Some(raw) && rec@ == raw_record_of(
            raw,
        )),
        200 <= status < 300 ==> (r matches Err(e) ==> e is Parse),
{
    if !(200 <= status && status < 300) {
        return Err(ApodError::API(APIError { url, status_code: status }));
    }
    let raw = match parse_body(body) {
        Ok(raw) => raw,
        Err(e) => {
            return Err(ApodError::Parse(ParseFault::Json(e)));
        },
    };
    record_from_raw(raw)
}

/// Accepts a record exactly when its date field is the requested date
/// string; a record answering for any other date is a structurally
/// unexpected body, a parse fault carrying the date the body held.
pub fn validate_record_date(record: Record, date_key: &String) -> (r: Result<Record, ApodError>)
    ensures
        r is Ok <==> record@.date == date_key@,
        r matches Ok(rec) ==> rec@ == record@,
        r matches Err(e) ==> e is Parse,
{
    if record.date == *date_key {
        Ok(record)
    } else {
        Err(ApodError::Parse(ParseFault::DateMismatch(record.date)))
    }
}

/// Fetches the record for one date: builds the request URL, issues a single
/// GET, and decodes the response.  A record comes back only for that very
/// date.  The store is never touched, so no failure here is a storage
/// error; an API error carries exactly the URL that was requested and the
/// non-2xx status that came back.
pub fn fetch(base_url: &str, api_key: &str, date: &Date) -> (r: Result<Record, ApodError>)
    requires
        date.valid(),
    ensures
        r matches Ok(rec) ==> rec@.date == iso_of(*date),
        r matches Err(e) ==> !(e is Storage),
        r matches Err(e) ==> (e matches ApodError::API(a) ==> a.url@ == request_url(
            base_url@,
            api_key@,
            *date,
        ) && !(200 <= a.status_code < 300)),
{
    let url = build_request_url(base_url, api_key, date);
    let (status, body) = match http_get(url.as_str()) {
        Ok(p) => p,
        Err(e) => {
            return Err(e);
        },
    };
    let record = match response_to_record(url, status, body.as_str()) {
        Ok(rec) => rec,
        Err(e) => {
            return Err(e);
        },
    };
    validate_record_date(record, &date.iso_string())
}

} // verus!
