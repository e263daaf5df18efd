//! The fetch-or-cache resolver and the range driver.
//!
//! A date is resolved from the store when it is cached there, and fetched,
//! persisted and returned otherwise.  A cache hit leaves the store exactly
//! as it was and can only fail inside the storage engine: the network is
//! never consulted for a cached date.  Every error propagates unchanged
//! and leaves the store as it was.

use vstd::prelude::*;

use crate::date::{dates_in_range, day_index, iso_of, lemma_day_index_injective, Date};
use crate::error::ApodError;
use crate::fetch::{fetch, request_url};
use crate::record::{select_image_url, selected_url, Record, RecordView};
use crate::store::{insert, lookup, Store};

verus! {

/// Whether `m2` extends `m1`: everything cached in `m1` is still cached,
/// unchanged.  The store only ever grows; no record is updated or lost.
pub open spec fn extends_map(
    m2: Map<Seq<char>, RecordView>,
    m1: Map<Seq<char>, RecordView>,
) -> bool {
    forall|k: Seq<char>|
        #[trigger] m1.dom().contains(k) ==> m2.dom().contains(k) && m2[k] == m1[k]
}

/// Completes a cache miss, given the record the fetcher produced: the
/// record is persisted under its own date string and handed back.  When the
/// insert fails and such failures are non-fatal (the default policy), the
/// record is still handed back and the store is left as it was; when they
/// are fatal, the storage error comes back instead.
pub fn store_fetched(store: &mut Store, fetched: Record, insert_failure_fatal: bool) -> (r: Result<
    Record,
    ApodError,
>)
    ensures
        extends_map(final(store)@, old(store)@),
        r matches Ok(rec) ==> rec@ == fetched@,
        r matches Ok(rec) ==> final(store)@ == old(store)@.insert(fetched@.date, fetched@)
            || final(store)@ == old(store)@,
        insert_failure_fatal && r is Ok ==> final(store)@ == old(store)@.insert(
            fetched@.date,
            fetched@,
        ),
        r matches Err(e) ==> e is Storage && insert_failure_fatal && final(store)@ == old(store)@,
        !insert_failure_fatal ==> r is Ok,
{
    match insert(store, &fetched) {
        Ok(_) => Ok(fetched),
        Err(e) => {
            if insert_failure_fatal {
                Err(e)
            } else {
                Ok(fetched)
            }
        },
    }
}

/// Returns the cached record for `date` when the store holds one -- leaving
/// the store untouched and consulting nothing else -- and otherwise
/// fetches, persists and returns the day's record, which answers for that
/// very date.  Errors propagate unchanged -- an API error carries exactly
/// the requested URL and its non-2xx status -- and never leave a partial
/// write behind; a failed insert after a successful fetch is fatal only
/// under `insert_failure_fatal`.
pub fn resolve(
    store: &mut Store,
    base_url: &str,
    api_key: &str,
    date: &Date,
    insert_failure_fatal: bool,
) -> (r: Result<Record, ApodError>)
    requires
        date.valid(),
    ensures
        extends_map(final(store)@, old(store)@),
        old(store)@.dom().contains(iso_of(*date)) ==> (r matches Ok(rec) && rec@ == old(
            store,
        )@[iso_of(*date)] && final(store)@ == old(store)@) || (r matches Err(e) && e is Storage),
        r is Err ==> final(store)@ == old(store)@,
        r matches Err(e) ==> (e matches ApodError::API(a) ==> a.url@ == request_url(
            base_url@,
            api_key@,
            *date,
        ) && !(200 <= a.status_code < 300)),
        r matches Ok(rec) ==> rec@.date == iso_of(*date),
        r matches Ok(rec) ==> (!old(store)@.dom().contains(iso_of(*date)) ==> final(store)@ == old(
            store,
        )@.insert(iso_of(*date), rec@) || (!insert_failure_fatal && final(store)@ == old(store)@)),
        r matches Ok(rec) ==> (insert_failure_fatal ==> final(store)@.contains_pair(
            iso_of(*date),
            rec@,
        )),
{
    let key = date.iso_string();
    match lookup(store, &key) {
        Ok(Some(rec)) => {
            return Ok(rec);
        },
        Ok(None) => {},
        Err(e) => {
            return Err(e);
        },
    }
    let fetched = match fetch(base_url, api_key, date) {
        Ok(rec) => rec,
        Err(e) => {
            return Err(e);
        },
    };
    store_fetched(store, fetched, insert_failure_fatal)
}

/// Resolves a date and selects its best image URL: the higher-resolution
/// variant when the record carries one, the standard URL otherwise.  On a
/// store holding the date it answers from that very record without network
/// or writes, or fails inside the engine; every failure -- propagated
/// unchanged, API errors carrying exactly the requested URL and status --
/// leaves the store as it was.  Insert failures after a successful fetch
/// are non-fatal here, the default policy: the fetched record's URL still
/// comes back.
pub fn get_wallpaper_url(store: &mut Store, base_url: &str, api_key: &str, date: &Date) -> (r:
    Result<String, ApodError>)
    requires
        date.valid(),
    ensures
        extends_map(final(store)@, old(store)@),
        r is Err ==> final(store)@ == old(store)@,
        r matches Err(e) ==> (e matches ApodError::API(a) ==> a.url@ == request_url(
            base_url@,
            api_key@,
            *date,
        ) && !(200 <= a.status_code < 300)),
        old(store)@.dom().contains(iso_of(*date)) ==> (r matches Ok(u) && u@ == selected_url(
            old(store)@[iso_of(*date)],
        ) && final(store)@ == old(store)@) || (r matches Err(e) && e is Storage),
        r matches Ok(u) ==> (exists|rec: RecordView|
            {
                &&& u@ == #[trigger] selected_url(rec)
                &&& rec.date == iso_of(*date)
                &&& final(store)@ == old(store)@.insert(iso_of(*date), rec) || final(store)@
                    == old(store)@
            }),
{
    let rec = match resolve(store, base_url, api_key, date, false) {
        Ok(rec) => rec,
        Err(e) => {
            return Err(e);
        },
    };
    let u = select_image_url(&rec);
    Ok(u)
}

/// Walks `[start, end)` in ascending order and resolves every date, warming
/// the cache.  Fail-fast: the first error ends the walk and comes back, and
/// the dates resolved before it stay cached -- the store only ever grows.
/// Under the fatal-insert policy, success means every date of the range is
/// cached afterwards.  An empty or inverted range resolves no dates,
/// touches nothing, and succeeds.
pub fn prefetch_range(
    store: &mut Store,
    base_url: &str,
    api_key: &str,
    start: &Date,
    end: &Date,
    insert_failure_fatal: bool,
) -> (r: Result<(), ApodError>)
    requires
        start.valid(),
        end.valid(),
    ensures
        extends_map(final(store)@, old(store)@),
        day_index(*start) >= day_index(*end) ==> r is Ok && final(store)@ == old(store)@,
        insert_failure_fatal && r is Ok ==> forall|d: Date|
            d.valid() && day_index(*start) <= #[trigger] day_index(d) < day_index(*end)
                ==> final(store)@.dom().contains(#[trigger] iso_of(d)),
{
    let dates = dates_in_range(start, end);
    if dates.len() == 0 {
        return Ok(());
    }
    let n = dates.len();
    let mut i: usize = 0;
    while i < n
        invariant
            n == dates@.len(),
            0 <= i <= n,
            day_index(*start) < day_index(*end),
            forall|j: int|
                0 <= j < n ==> (#[trigger] dates@[j]).valid() && day_index(dates@[j]) == day_index(
                    *start,
                ) + j,
            extends_map(store@, old(store)@),
            insert_failure_fatal ==> forall|j: int|
                0 <= j < i ==> store@.dom().contains(iso_of(#[trigger] dates@[j])),
        decreases n - i,
    {
        let d = dates[i];
        match resolve(store, base_url, api_key, &d, insert_failure_fatal) {
            Ok(_) => {},
            Err(e) => {
                return Err(e);
            },
        }
        i += 1;
    }
    proof {
        if insert_failure_fatal {
            assert forall|d: Date|
                d.valid() && day_index(*start) <= #[trigger] day_index(d) < day_index(
                    *end,
                ) implies store@.dom().contains(#[trigger] iso_of(d)) by {
                let j = day_index(d) - day_index(*start);
                lemma_day_index_injective(d, dates@[j]);
            }
        }
    }
    Ok(())
}

/// Law: populating a date is idempotent.  When a miss on date `d` is
/// completed with a record carrying `d`'s own date string, the store then
/// maps that date string to that record; by `resolve`'s contract on a store
/// containing the date, every later resolution of `d` that yields a record
/// yields this one, without touching the network.
pub proof fn lemma_populate_then_hit(m: Map<Seq<char>, RecordView>, d: Date, rec: RecordView)
    requires
        rec.date == iso_of(d),
    ensures
        m.insert(rec.date, rec).dom().contains(iso_of(d)),
        m.insert(rec.date, rec)[iso_of(d)] == rec,
{
}

/// Law: two resolutions of a cached date return value-identical records:
/// each returns the record the store maps the date to, and a hit leaves the
/// store unchanged.
pub proof fn lemma_resolve_idempotent(
    m: Map<Seq<char>, RecordView>,
    d: Date,
    r1: RecordView,
    r2: RecordView,
)
    requires
        m.dom().contains(iso_of(d)),
        r1 == m[iso_of(d)],
        r2 == m[iso_of(d)],
    ensures
        r1 == r2,
{
}

} // verus!
