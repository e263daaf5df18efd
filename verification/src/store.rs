//! The record store: a persistent, date-keyed table of records.
//!
//! The store is modelled by a map from date strings to records,
//! `db_records`.  The table's `UNIQUE` constraint on the date column keeps
//! at most one record per date, which is why a map models it faithfully;
//! rows are only ever inserted, never updated or deleted.

use vstd::prelude::*;

use crate::error::{ApodError, StorageFault};
use crate::record::{Record, RecordView};

verus! {

/// Declares rusqlite's connection type: the handle the store works through.
#[verifier::external_type_specification]
#[verifier::external_body]
pub struct ExConnection(rusqlite::Connection);

/// The contents of the store behind `conn`: the record each date string is
/// mapped to.
pub uninterp spec fn db_records(conn: rusqlite::Connection) -> Map<Seq<char>, RecordView>;

/// A handle on the persistent store.  Its view is the date-keyed map of the
/// records it holds.
pub struct Store {
    conn: rusqlite::Connection,
}

impl View for Store {
    type V = Map<Seq<char>, RecordView>;

    closed spec fn view(&self) -> Map<Seq<char>, RecordView> {
        db_records(self.conn)
    }
}

/// Whether the rows of `rows` are exactly the records of `m`: every row is
/// in `m` under its date, and every date of `m` names some row.
pub open spec fn rows_match(rows: Seq<Record>, m: Map<Seq<char>, RecordView>) -> bool {
    &&& forall|i: int|
        0 <= i < rows.len() ==> m.contains_pair((#[trigger] rows[i])@.date, rows[i]@)
    &&& forall|k: Seq<char>|
        #[trigger] m.dom().contains(k) ==> exists|i: int| 0 <= i < rows.len() && rows[i]@.date == k
}

/// Relies on rusqlite::Connection::open, Connection::execute and
/// Connection::query_row: opens or creates the database file at `location`,
/// creates the record table when it is absent (a no-op when it exists, per
/// sqlite's CREATE TABLE IF NOT EXISTS), and hands back the table's stored
/// CREATE text from sqlite_master -- sqlite keeps the text the table was
/// actually created with, so `initialize` can check the shape of a
/// pre-existing table.  All three report failure through `rusqlite::Error`.
#[verifier::external_body]
fn open_and_init(location: &str) -> (r: Result<(Store, String), rusqlite::Error>) {
    let conn = rusqlite::Connection::open(location)?;
    conn.execute(
        "CREATE TABLE IF NOT EXISTS apod (id INTEGER PRIMARY KEY, copyright TEXT, \
         date TEXT NOT NULL UNIQUE, explanation TEXT NOT NULL, hdurl TEXT, \
         media_type TEXT NOT NULL, service_version TEXT NOT NULL, \
         title TEXT NOT NULL, url TEXT NOT NULL)",
        [],
    )?;
    let sql = "SELECT sql FROM sqlite_master WHERE type = 'table' AND name = 'apod'";
    let schema: String = conn.query_row(sql, [], |row| row.get(0))?;
    Ok((Store { conn }, schema))
}

/// Relies on rusqlite::Connection::execute and the UNIQUE constraint on the
/// date column -- every `Store` comes from `initialize`, which accepts only
/// the exact record schema, so the constraint is in force: a single INSERT
/// adds the row exactly when no row with that date exists, fails on a
/// duplicate date, and a failed statement writes nothing (sqlite statements
/// are atomic).
#[verifier::external_body]
fn insert_row(store: &mut Store, record: &Record) -> (r: Result<(), rusqlite::Error>)
    ensures
        r is Ok ==> !db_records(old(store).conn).dom().contains(record@.date) && db_records(
            final(store).conn,
        ) == db_records(old(store).conn).insert(record@.date, record@),
        r is Err ==> db_records(final(store).conn) == db_records(old(store).conn),
        db_records(old(store).conn).dom().contains(record@.date) ==> r is Err,
{
    let r = store.conn.execute(
        "INSERT INTO apod (copyright, date, explanation, hdurl, media_type, \
         service_version, title, url) VALUES (?1, ?2, ?3, ?4, ?5, ?6, ?7, ?8)",
        (&record.copyright, &record.date, &record.explanation, &record.hdurl,
         &record.media_type, &record.service_version, &record.title, &record.url),
    );
    match r {
        Ok(_) => Ok(()),
        Err(e) => Err(e),
    }
}

/// Relies on rusqlite::Connection::prepare, Statement::query_map and
/// Row::get, and on the UNIQUE date column of the schema that `initialize`
/// enforces (so no two rows share a date): SELECT over the whole table
/// hands back one `Record` per stored row, its columns moved into the
/// record's fields unchanged; a row whose columns cannot be read as the
/// expected text types is an error.
#[verifier::external_body]
fn query_all_rows(store: &Store) -> (r: Result<Vec<Record>, rusqlite::Error>)
    ensures
        r matches Ok(rows) ==> rows_match(rows@, db_records(store.conn)),
{
    let mut stmt = store.conn.prepare(
        "SELECT copyright, date, explanation, hdurl, media_type, service_version, \
         title, url FROM apod",
    )?;
    let rows = stmt.query_map([], |row| {
        Ok(Record {
            copyright: row.get(0)?, date: row.get(1)?, explanation: row.get(2)?,
            hdurl: row.get(3)?, media_type: row.get(4)?, service_version: row.get(5)?,
            title: row.get(6)?, url: row.get(7)?,
        })
    })?;
    rows.collect()
}

/// Opens or creates persistent storage at `location`, creating the record
/// schema when it is absent; safe to call on every run.  A pre-existing
/// `apod` table is accepted only when its stored CREATE text is exactly the
/// record schema -- in particular its UNIQUE date column, which the insert
/// contract rests on -- and is otherwise an incompatible-schema storage
/// error.  Every failure is a storage error.
pub fn initialize(location: &str) -> (r: Result<Store, ApodError>)
    ensures
        r matches Err(e) ==> e is Storage,
{
    let (store, schema) = match open_and_init(location) {
        Ok(p) => p,
        Err(e) => {
            return Err(ApodError::Storage(StorageFault::Engine(e)));
        },
    };
    let expected = "CREATE TABLE apod (id INTEGER PRIMARY KEY, copyright TEXT, \
         date TEXT NOT NULL UNIQUE, explanation TEXT NOT NULL, hdurl TEXT, \
         media_type TEXT NOT NULL, service_version TEXT NOT NULL, \
         title TEXT NOT NULL, url TEXT NOT NULL)".to_owned();
    if schema == expected {
        Ok(store)
    } else {
        Err(ApodError::Storage(StorageFault::IncompatibleSchema(schema)))
    }
}

/// Looks a date up in the store: the record stored under the ISO date
/// string `date_key`, or `None` when the store holds no such record.  Every
/// failure is a storage error, and the store is never changed.
pub fn lookup(store: &Store, date_key: &String) -> (r: Result<Option<Record>, ApodError>)
    ensures
        r matches Ok(Some(rec)) ==> store@.contains_pair(date_key@, rec@) && rec@.date
            == date_key@,
        r matches Ok(None) ==> !store@.dom().contains(date_key@),
        r matches Err(e) ==> e is Storage,
{
    let mut rows = match query_all_rows(store) {
        Ok(rows) => rows,
        Err(e) => {
            return Err(ApodError::Storage(StorageFault::Engine(e)));
        },
    };
    let n = rows.len();
    let mut i: usize = 0;
    while i < n
        invariant
            n == rows@.len(),
            rows_match(rows@, store@),
            0 <= i <= n,
            forall|j: int| 0 <= j < i ==> (#[trigger] rows@[j])@.date != date_key@,
        decreases n - i,
    {
        if rows[i].date == *date_key {
            let rec = rows.remove(i);
            return Ok(Some(rec));
        }
        i += 1;
    }
    proof {
        if store@.dom().contains(date_key@) {
            let j = choose|j: int| 0 <= j < rows@.len() && rows@[j]@.date == date_key@;
            assert(false);
        }
    }
    Ok(None)
}

/// Persists a new record under its date.  Success means the date was absent
/// and the store now maps it to this record; on failure (a duplicate date,
/// or an I/O fault) nothing is written.
pub fn insert(store: &mut Store, record: &Record) -> (r: Result<(), ApodError>)
    ensures
        r is Ok ==> !old(store)@.dom().contains(record@.date) && final(store)@ == old(
            store,
        )@.insert(record@.date, record@),
        r matches Err(e) ==> e is Storage && final(store)@ == old(store)@,
        old(store)@.dom().contains(record@.date) ==> r is Err,
{
    match insert_row(store, record) {
        Ok(u) => Ok(u),
        Err(e) => Err(ApodError::Storage(StorageFault::Engine(e))),
    }
}

} // verus!
