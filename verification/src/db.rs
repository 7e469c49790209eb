//! The canonical identity of a status, and the durable store of identities
//! already seen.

use std::path::Path;
use std::sync::Mutex;
use std::sync::MutexGuard;
use vstd::prelude::*;

use crate::clock::unix_now;
use crate::json::JsonTree;
use crate::json::JsonValue;

verus! {

/// The identity under which `status` is deduplicated.
///
/// A status that carries a non-null `reblog` is a re-share: its identity is
/// the `uri` of the re-shared status, whatever the outer status says of
/// itself. Any other status is identified by its own `uri`. Where the field
/// that decides is missing or holds no string, the status has no identity.
pub open spec fn spec_dedup_uri(status: JsonTree) -> Option<Seq<char>> {
    match status.spec_member("reblog"@) {
        Some(reblog) => if reblog is Null {
            status.spec_text_member("uri"@)
        } else {
            reblog.spec_text_member("uri"@)
        },
        None => status.spec_text_member("uri"@),
    }
}

/// A re-share collapses to what it shares: where `status` carries the
/// non-null `original` as its `reblog`, its identity is the `uri` of
/// `original`, and its own `uri` does not count.
pub proof fn lemma_reshare_collapses(status: JsonTree, original: JsonTree)
    requires
        status.spec_member("reblog"@) == Some(original),
        !(original is Null),
    ensures
        spec_dedup_uri(status) == original.spec_text_member("uri"@),
{
}

/// A status whose `reblog` is missing or null is identified by its own
/// `uri`.
pub proof fn lemma_plain_status_keeps_own_identity(status: JsonTree)
    requires
        status.spec_member("reblog"@) is None || status.spec_member("reblog"@) == Some(
            JsonTree::Null,
        ),
    ensures
        spec_dedup_uri(status) == status.spec_text_member("uri"@),
{
}

/// Extracts the identity under which `status` is deduplicated.
pub fn extract_dedup_uri(status: &JsonValue) -> (r: Option<&str>)
    ensures
        match r {
            Some(uri) => spec_dedup_uri(status@) == Some(uri@),
            None => spec_dedup_uri(status@) is None,
        },
{
    match status.member("reblog") {
        Some(reblog) => {
            if !reblog.is_null() {
                return reblog.text_member("uri");
            }
        },
        None => {},
    }
    status.text_member("uri")
}

/// `rusqlite::Connection`, a connection to an SQLite database. Opaque here.
#[verifier::external_type_specification]
#[verifier::external_body]
pub struct ExConnection(rusqlite::Connection);

/// `rusqlite::Error`, what a failed database call reports. Opaque here.
#[verifier::external_type_specification]
#[verifier::external_body]
pub struct ExSqlError(rusqlite::Error);

/// `rusqlite::CachedStatement`, a compiled statement that goes back to the
/// connection's cache when dropped. Opaque here.
#[verifier::external_type_specification]
#[verifier::external_body]
pub struct ExCachedStatement<'conn>(rusqlite::CachedStatement<'conn>);

/// `std::sync::Mutex`. Opaque here.
#[verifier::external_type_specification]
#[verifier::external_body]
#[verifier::reject_recursive_types(T)]
pub struct ExMutex<T: ?Sized>(Mutex<T>);

/// `std::sync::MutexGuard`, which holds the lock until it is dropped.
/// Opaque here.
#[verifier::external_type_specification]
#[verifier::external_body]
#[verifier::reject_recursive_types(T)]
pub struct ExMutexGuard<'a, T: ?Sized + 'a>(MutexGuard<'a, T>);

/// A value bound to a positional parameter of an SQL statement.
enum SqlParam<'a> {
    Text(&'a str),
    Integer(i64),
}

/// `Connection::open`: opens the database at `path`, creating it if absent.
/// Whether it succeeds depends on the file system; nothing is claimed.
#[verifier::external_body]
fn sql_open<P: AsRef<Path>>(path: P) -> Result<rusqlite::Connection, rusqlite::Error> {
    rusqlite::Connection::open(path)
}

/// `Connection::pragma_update` on the main schema: sets pragma `name` to the
/// text `value`. The outcome is the database's; nothing is claimed.
#[verifier::external_body]
fn sql_pragma_update(conn: &rusqlite::Connection, name: &str, value: &str) -> Result<
    (),
    rusqlite::Error,
> {
    conn.pragma_update(None, name, value)
}

/// `Connection::execute`: runs one statement with `params` bound by position
/// and returns the number of rows that the database reports as changed. The
/// outcome depends on what the database holds; nothing is claimed.
#[verifier::external_body]
fn sql_execute(conn: &rusqlite::Connection, sql: &str, params: &Vec<SqlParam>) -> Result<
    usize,
    rusqlite::Error,
> {
    conn.execute(
        sql,
        rusqlite::params_from_iter(
            params.iter().map(
                |p|
                    match p {
                        SqlParam::Text(s) => rusqlite::types::Value::Text(s.to_string()),
                        SqlParam::Integer(i) => rusqlite::types::Value::Integer(*i),
                    },
            ),
        ),
    )
}

/// `Connection::prepare_cached`: compiles `sql`, or takes the compiled
/// statement from the connection's cache. Nothing is claimed of the outcome.
#[verifier::external_body]
fn sql_prepare_cached<'conn>(conn: &'conn rusqlite::Connection, sql: &str) -> Result<
    rusqlite::CachedStatement<'conn>,
    rusqlite::Error,
> {
    conn.prepare_cached(sql)
}

/// `Statement::exists`: runs the query with `params` bound by position and
/// says whether it yields a row. The outcome depends on what the database
/// holds; nothing is claimed.
#[verifier::external_body]
fn sql_exists(stmt: &mut rusqlite::CachedStatement<'_>, params: &Vec<SqlParam>) -> Result<
    bool,
    rusqlite::Error,
> {
    stmt.exists(
        rusqlite::params_from_iter(
            params.iter().map(
                |p|
                    match p {
                        SqlParam::Text(s) => rusqlite::types::Value::Text(s.to_string()),
                        SqlParam::Integer(i) => rusqlite::types::Value::Integer(*i),
                    },
            ),
        ),
    )
}

/// `Mutex::new`: a lock that guards `conn`.
#[verifier::external_body]
fn mutex_new(conn: rusqlite::Connection) -> Mutex<rusqlite::Connection> {
    Mutex::new(conn)
}

/// `Mutex::lock`: waits for the lock and returns its guard. A lock that was
/// poisoned by a panic elsewhere is taken all the same.
#[verifier::external_body]
fn mutex_lock<'a>(lock: &'a Mutex<rusqlite::Connection>) -> MutexGuard<'a, rusqlite::Connection> {
    lock.lock().unwrap_or_else(std::sync::PoisonError::into_inner)
}

/// `Deref::deref` on the guard: the connection that the lock guards.
#[verifier::external_body]
fn guarded<'a>(guard: &'a MutexGuard<'_, rusqlite::Connection>) -> &'a rusqlite::Connection {
    guard
}

/// Why a store operation failed. Each variant carries the database's error.
#[derive(Debug)]
pub enum StoreError {
    /// The store could not be opened or its schema could not be created.
    Init(rusqlite::Error),
    /// A lookup failed.
    Query(rusqlite::Error),
    /// An insert or a delete failed.
    Write(rusqlite::Error),
}

/// What an insert that leaves existing rows alone says about an identity:
/// no row changed means that the identity was there before.
pub open spec fn spec_already_seen(inserted: Result<usize, rusqlite::Error>) -> Result<
    bool,
    StoreError,
> {
    match inserted {
        Ok(rows_changed) => Ok(rows_changed == 0),
        Err(e) => Err(StoreError::Write(e)),
    }
}

/// Reads the outcome of the conditional insert: `Ok(true)` where the
/// identity was already stored, `Ok(false)` where this insert stored it.
pub fn already_seen(inserted: Result<usize, rusqlite::Error>) -> (r: Result<bool, StoreError>)
    ensures
        r == spec_already_seen(inserted),
{
    match inserted {
        Ok(rows_changed) => Ok(rows_changed == 0),
        Err(e) => Err(StoreError::Write(e)),
    }
}

/// The stamp below which entries are evicted, for entries older than
/// `max_age_secs` at time `now`; it stops at the least stamp there is.
/// `None` stands for "evict everything", which an age of zero asks for.
pub open spec fn spec_eviction_cutoff(now: u64, max_age_secs: u64) -> Option<i64> {
    if max_age_secs == 0 {
        None
    } else if now - max_age_secs < i64::MIN {
        Some(i64::MIN)
    } else if now - max_age_secs > i64::MAX {
        Some(i64::MAX)
    } else {
        Some((now - max_age_secs) as i64)
    }
}

/// Computes the eviction cutoff for an age limit at time `now`.
pub fn eviction_cutoff(now: u64, max_age_secs: u64) -> (r: Option<i64>)
    ensures
        r == spec_eviction_cutoff(now, max_age_secs),
{
    if max_age_secs == 0 {
        None
    } else if now >= max_age_secs {
        let diff: u64 = now - max_age_secs;
        if diff > 0x7fff_ffff_ffff_ffff {
            Some(i64::MAX)
        } else {
            Some(diff as i64)
        }
    } else {
        let below: u64 = max_age_secs - now;
        if below >= 0x8000_0000_0000_0000 {
            Some(i64::MIN)
        } else {
            Some(-(below as i64))
        }
    }
}

/// The first-seen stamp stored for an identity marked at time `now`.
pub open spec fn spec_stamp(now: u64) -> i64 {
    if now > i64::MAX {
        i64::MAX
    } else {
        now as i64
    }
}

/// Computes the first-seen stamp for time `now`.
pub fn stamp(now: u64) -> (r: i64)
    ensures
        r == spec_stamp(now),
{
    if now > 0x7fff_ffff_ffff_ffff {
        i64::MAX
    } else {
        now as i64
    }
}

/// An entry that is no older than the age limit is not below the cutoff,
/// so the eviction leaves it in place: for an entry marked at time
/// `marked_at` and an eviction at the later time `now`, with an age limit
/// that is not zero.
pub proof fn lemma_recent_entry_stays(marked_at: u64, now: u64, max_age_secs: u64)
    requires
        marked_at <= now,
        max_age_secs > 0,
        now - marked_at <= max_age_secs,
    ensures
        spec_eviction_cutoff(now, max_age_secs) matches Some(cutoff) && !(spec_stamp(marked_at)
            < cutoff),
{
}

/// An entry that is older than the age limit is below the cutoff, so the
/// eviction removes it: for times that fit the stamp and an age limit that
/// is not zero.
pub proof fn lemma_old_entry_goes(marked_at: u64, now: u64, max_age_secs: u64)
    requires
        marked_at <= now <= i64::MAX,
        max_age_secs > 0,
        now - marked_at > max_age_secs,
    ensures
        spec_eviction_cutoff(now, max_age_secs) matches Some(cutoff) && spec_stamp(marked_at)
            < cutoff,
{
}

/// An age limit of zero asks for every entry to go, whatever the time.
pub proof fn lemma_zero_age_evicts_all(now: u64)
    ensures
        spec_eviction_cutoff(now, 0) is None,
{
}

/// The durable table of identities already seen, each with the time at which
/// it was first seen. Every operation runs under the store's own lock, so a
/// store can be shared between threads as it is.
pub struct SeenUriStore {
    conn: Mutex<rusqlite::Connection>,
}

impl SeenUriStore {
    /// Opens the store at `path`, creating the database, the table and the
    /// index on the first-seen column where they do not exist yet.
    ///
    /// Every failure is reported as `StoreError::Init`.
    pub fn open<P: AsRef<Path>>(path: P) -> (r: Result<SeenUriStore, StoreError>)
        ensures
            r matches Err(e) ==> e is Init,
    {
        let conn = match open_step(sql_open(path)) {
            Ok(conn) => conn,
            Err(e) => {
                return Err(e);
            },
        };
        match open_step(sql_pragma_update(&conn, "journal_mode", "WAL")) {
            Ok(_) => {},
            Err(e) => {
                return Err(e);
            },
        }
        let none: Vec<SqlParam> = Vec::new();
        let table = sql_execute(
            &conn,
            "CREATE TABLE IF NOT EXISTS seen_uris (
                uri TEXT PRIMARY KEY,
                first_seen INTEGER NOT NULL
            )",
            &none,
        );
        match open_step(table) {
            Ok(_) => {},
            Err(e) => {
                return Err(e);
            },
        }
        let index = sql_execute(
            &conn,
            "CREATE INDEX IF NOT EXISTS idx_first_seen ON seen_uris(first_seen)",
            &none,
        );
        match open_step(index) {
            Ok(_) => {},
            Err(e) => {
                return Err(e);
            },
        }
        Ok(SeenUriStore { conn: mutex_new(conn) })
    }

    /// Whether `uri` is stored. A failure is reported as `StoreError::Query`.
    pub fn is_seen(&self, uri: &str) -> (r: Result<bool, StoreError>)
        ensures
            r matches Err(e) ==> e is Query,
    {
        let guard = mutex_lock(&self.conn);
        let conn = guarded(&guard);
        let mut stmt = match sql_prepare_cached(conn, "SELECT 1 FROM seen_uris WHERE uri = ?") {
            Ok(stmt) => stmt,
            Err(e) => {
                return lookup_answer(Err(e));
            },
        };
        let mut params: Vec<SqlParam> = Vec::new();
        params.push(SqlParam::Text(uri));
        let found = sql_exists(&mut stmt, &params);
        lookup_answer(found)
    }

    /// Runs the conditional insert of `uri` with the current time as its
    /// first-seen stamp: one statement that stores the pair unless `uri` is
    /// stored already, and leaves an existing entry as it is.
    fn insert_if_absent(&self, uri: &str) -> (r: Result<usize, rusqlite::Error>) {
        let now = stamp(unix_now());
        let guard = mutex_lock(&self.conn);
        let mut params: Vec<SqlParam> = Vec::new();
        params.push(SqlParam::Text(uri));
        params.push(SqlParam::Integer(now));
        sql_execute(
            guarded(&guard),
            "INSERT OR IGNORE INTO seen_uris (uri, first_seen) VALUES (?, ?)",
            &params,
        )
    }

    /// Stores `uri` unless it is stored already. That it was there before
    /// is no error. A failure is reported as `StoreError::Write`.
    pub fn mark_seen(&self, uri: &str) -> (r: Result<(), StoreError>)
        ensures
            r matches Err(e) ==> e is Write,
    {
        marked(self.insert_if_absent(uri))
    }

    /// Stores `uri` unless it is stored already, and says which was the
    /// case: `Ok(true)` where it was there before, `Ok(false)` where this
    /// call stored it. Check and insert are one statement, so no other call
    /// can come between them. A failure is reported as `StoreError::Write`.
    pub fn check_and_mark(&self, uri: &str) -> (r: Result<bool, StoreError>)
        ensures
            r matches Err(e) ==> e is Write,
            exists|inserted: Result<usize, rusqlite::Error>|
                r == #[trigger] spec_already_seen(inserted),
    {
        let inserted = self.insert_if_absent(uri);
        let seen = already_seen(inserted);
        assert(seen == spec_already_seen(inserted));
        seen
    }

    /// Removes the entries first seen more than `max_age_secs` seconds ago
    /// and returns how many the database reports as removed. An age of zero
    /// removes every entry. A failure is reported as `StoreError::Write`.
    pub fn cleanup(&self, max_age_secs: u64) -> (r: Result<usize, StoreError>)
        ensures
            r matches Err(e) ==> e is Write,
    {
        let guard = mutex_lock(&self.conn);
        let mut params: Vec<SqlParam> = Vec::new();
        let removed = match eviction_cutoff(unix_now(), max_age_secs) {
            None => sql_execute(guarded(&guard), "DELETE FROM seen_uris", &params),
            Some(cutoff) => {
                params.push(SqlParam::Integer(cutoff));
                sql_execute(guarded(&guard), "DELETE FROM seen_uris WHERE first_seen < ?", &params)
            },
        };
        removed_count(removed)
    }
}

/// What one step of opening the store comes to: what the step gave where
/// the database did it, else an `Init` error that carries the database's
/// error.
pub open spec fn spec_open_step<T>(step: Result<T, rusqlite::Error>) -> Result<T, StoreError> {
    match step {
        Ok(value) => Ok(value),
        Err(e) => Err(StoreError::Init(e)),
    }
}

/// Reads the outcome of one step of opening the store.
pub fn open_step<T>(step: Result<T, rusqlite::Error>) -> (r: Result<T, StoreError>)
    ensures
        r == spec_open_step(step),
{
    match step {
        Ok(value) => Ok(value),
        Err(e) => Err(StoreError::Init(e)),
    }
}

/// What a lookup comes to: the database's answer where it gave one, else a
/// `Query` error that carries the database's error.
pub open spec fn spec_lookup_answer(found: Result<bool, rusqlite::Error>) -> Result<
    bool,
    StoreError,
> {
    match found {
        Ok(found) => Ok(found),
        Err(e) => Err(StoreError::Query(e)),
    }
}

/// Reads the outcome of a lookup.
pub fn lookup_answer(found: Result<bool, rusqlite::Error>) -> (r: Result<bool, StoreError>)
    ensures
        r == spec_lookup_answer(found),
{
    match found {
        Ok(found) => Ok(found),
        Err(e) => Err(StoreError::Query(e)),
    }
}

/// What marking comes to: success where the database ran the insert,
/// whether it stored a row or found the identity in place; else a `Write`
/// error that carries the database's error.
pub open spec fn spec_marked(inserted: Result<usize, rusqlite::Error>) -> Result<(), StoreError> {
    match inserted {
        Ok(_) => Ok(()),
        Err(e) => Err(StoreError::Write(e)),
    }
}

/// Reads the outcome of the conditional insert for a caller who only marks.
pub fn marked(inserted: Result<usize, rusqlite::Error>) -> (r: Result<(), StoreError>)
    ensures
        r == spec_marked(inserted),
{
    match inserted {
        Ok(_) => Ok(()),
        Err(e) => Err(StoreError::Write(e)),
    }
}

/// What an eviction comes to: the number of rows that the database reports
/// as removed, else a `Write` error that carries the database's error.
pub open spec fn spec_removed_count(deleted: Result<usize, rusqlite::Error>) -> Result<
    usize,
    StoreError,
> {
    match deleted {
        Ok(count) => Ok(count),
        Err(e) => Err(StoreError::Write(e)),
    }
}

/// Reads the outcome of an eviction.
pub fn removed_count(deleted: Result<usize, rusqlite::Error>) -> (r: Result<usize, StoreError>)
    ensures
        r == spec_removed_count(deleted),
{
    match deleted {
        Ok(count) => Ok(count),
        Err(e) => Err(StoreError::Write(e)),
    }
}

} // verus!
