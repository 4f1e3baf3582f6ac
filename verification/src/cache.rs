//! The SQLite-backed cache of messages waiting for the remote broker.
//!
//! Messages are kept in the table `msg_queue`, ordered by an autoincrement
//! id, so that they are replayed oldest first. Before a message is stored
//! the cache applies its policy: QoS 0 messages are skipped unless the
//! configuration caches them, and a full cache either drops its oldest
//! messages or refuses the new one.
//!
//! What the database holds is not modelled here: the contracts of the
//! functions that talk to SQLite say what holds whatever SQLite answers,
//! and the decisions taken on its answers are functions of their own with
//! exact contracts.

use vstd::prelude::*;
use vstd::string::*;

use crate::config::{CacheConfig, EvictionPolicy, SynchronousMode};
use crate::error::{BridgeError, Result};
use crate::text::decimal;
use crate::text::decimal_string;

verus! {

/// An open SQLite connection.
#[verifier::external_type_specification]
#[verifier::external_body]
pub struct ExConnection(rusqlite::Connection);

/// A cached MQTT message waiting to be delivered to the remote broker.
#[derive(Debug, Clone, PartialEq, Eq)]
pub struct CachedMessage {
    /// Unique message id (autoincrement), which orders the cache
    pub id: i64,
    /// MQTT topic, as bytes
    pub topic: Vec<u8>,
    /// Message payload
    pub payload: Vec<u8>,
    /// QoS level (0, 1 or 2)
    pub qos: u8,
    /// Whether the message is to be retained
    pub retain: bool,
    /// Unix time at which the message was cached
    pub ts_enqueued: i64,
}

/// What the cache does with a message offered to it.
#[derive(Debug, Clone, Copy, PartialEq, Eq)]
pub enum EnqueueDecision {
    /// The message is not cached (QoS 0 while QoS 0 is not cached).
    Skip,
    /// The cache is full and refuses the message.
    Reject,
    /// The message is stored after the `evict` oldest messages are deleted.
    Insert { evict: usize },
}

/// The decision on a message of QoS `qos` offered to a cache that holds
/// `row_count` messages.
pub open spec fn spec_enqueue_decision(config: CacheConfig, qos: u8, row_count: usize) -> EnqueueDecision {
    if qos == 0 && !config.cache_qos0 {
        EnqueueDecision::Skip
    } else if config.max_rows > 0 && row_count >= config.max_rows {
        match config.eviction {
            EvictionPolicy::DropOldest => EnqueueDecision::Insert {
                evict: (row_count - config.max_rows + 1) as usize,
            },
            EvictionPolicy::RejectNew => EnqueueDecision::Reject,
        }
    } else {
        EnqueueDecision::Insert { evict: 0 }
    }
}

/// The number of messages the cache holds after the decision is carried
/// out on a cache of `row_count` messages.
pub open spec fn rows_after(decision: EnqueueDecision, row_count: nat) -> int {
    match decision {
        EnqueueDecision::Skip => row_count as int,
        EnqueueDecision::Reject => row_count as int,
        EnqueueDecision::Insert { evict } => row_count - evict + 1,
    }
}

/// The message of the error for a full cache that refuses new messages.
pub open spec fn cache_full_message(max_rows: usize) -> Seq<char> {
    "Cache at max_rows limit: "@ + decimal(max_rows as nat)
}

/// The value of SQLite's `synchronous` pragma for a mode.
pub open spec fn spec_synchronous_value(mode: SynchronousMode) -> Seq<char> {
    match mode {
        SynchronousMode::Full => "FULL"@,
        SynchronousMode::Normal => "NORMAL"@,
        SynchronousMode::Off => "OFF"@,
    }
}

/// The decision on a message of QoS `qos` offered to a cache that holds
/// `row_count` messages (see [`spec_enqueue_decision`]).
pub fn enqueue_decision(config: &CacheConfig, qos: u8, row_count: usize) -> (d: EnqueueDecision)
    ensures
        d == spec_enqueue_decision(*config, qos, row_count),
{
    if qos == 0 && !config.cache_qos0 {
        return EnqueueDecision::Skip;
    }
    if config.max_rows > 0 && row_count >= config.max_rows {
        match config.eviction {
            EvictionPolicy::DropOldest => EnqueueDecision::Insert {
                evict: row_count - config.max_rows + 1,
            },
            EvictionPolicy::RejectNew => EnqueueDecision::Reject,
        }
    } else {
        EnqueueDecision::Insert { evict: 0 }
    }
}

/// A bounded cache does not grow past its bound: when a message is stored,
/// the messages evicted first are at most those the cache holds, and
/// afterwards it holds at most `max_rows` messages. A message is refused
/// only by a full reject-new cache, and a drop-oldest cache refuses none.
pub proof fn lemma_enqueue_respects_bound(config: CacheConfig, qos: u8, row_count: usize)
    requires
        config.max_rows > 0,
    ensures
        spec_enqueue_decision(config, qos, row_count) matches EnqueueDecision::Insert { evict } ==> (
        evict <= row_count && rows_after(spec_enqueue_decision(config, qos, row_count), row_count as nat)
            <= config.max_rows),
        spec_enqueue_decision(config, qos, row_count) is Reject ==> config.eviction
            == EvictionPolicy::RejectNew && row_count >= config.max_rows,
        config.eviction == EvictionPolicy::DropOldest ==> !(spec_enqueue_decision(
            config,
            qos,
            row_count,
        ) is Reject),
{
}

/// The value of SQLite's `synchronous` pragma for a mode.
pub fn synchronous_value(mode: SynchronousMode) -> (s: &'static str)
    ensures
        s@ == spec_synchronous_value(mode),
{
    match mode {
        SynchronousMode::Full => "FULL",
        SynchronousMode::Normal => "NORMAL",
        SynchronousMode::Off => "OFF",
    }
}

/// The statement that creates the cache table if it is missing.
pub open spec fn schema_sql() -> Seq<char> {
    "CREATE TABLE IF NOT EXISTS msg_queue (id INTEGER PRIMARY KEY AUTOINCREMENT, topic BLOB NOT NULL, payload BLOB NOT NULL, qos INTEGER NOT NULL, retain INTEGER NOT NULL, ts_enqueued INTEGER NOT NULL)"@
}

/// The statement that counts the cached messages.
pub open spec fn count_sql() -> Seq<char> {
    "SELECT COUNT(*) FROM msg_queue"@
}

/// The statement that deletes the `?1` oldest cached messages.
pub open spec fn evict_sql() -> Seq<char> {
    "DELETE FROM msg_queue WHERE id IN (SELECT id FROM msg_queue ORDER BY id LIMIT ?1)"@
}

/// The statement that stores one message.
pub open spec fn insert_sql() -> Seq<char> {
    "INSERT INTO msg_queue (topic, payload, qos, retain, ts_enqueued) VALUES (?1, ?2, ?3, ?4, ?5)"@
}

/// The statement that reads the `?1` oldest cached messages, oldest first.
pub open spec fn dequeue_sql() -> Seq<char> {
    "SELECT id, topic, payload, qos, retain, ts_enqueued FROM msg_queue ORDER BY id LIMIT ?1"@
}

/// The statement that creates the cache table if it is missing.
pub fn schema_statement() -> (s: &'static str)
    ensures
        s@ == schema_sql(),
{
    "CREATE TABLE IF NOT EXISTS msg_queue (id INTEGER PRIMARY KEY AUTOINCREMENT, topic BLOB NOT NULL, payload BLOB NOT NULL, qos INTEGER NOT NULL, retain INTEGER NOT NULL, ts_enqueued INTEGER NOT NULL)"
}

/// The statement that counts the cached messages.
pub fn count_statement() -> (s: &'static str)
    ensures
        s@ == count_sql(),
{
    "SELECT COUNT(*) FROM msg_queue"
}

/// The statement that deletes the `?1` oldest cached messages.
pub fn evict_statement() -> (s: &'static str)
    ensures
        s@ == evict_sql(),
{
    "DELETE FROM msg_queue WHERE id IN (SELECT id FROM msg_queue ORDER BY id LIMIT ?1)"
}

/// The statement that stores one message.
pub fn insert_statement() -> (s: &'static str)
    ensures
        s@ == insert_sql(),
{
    "INSERT INTO msg_queue (topic, payload, qos, retain, ts_enqueued) VALUES (?1, ?2, ?3, ?4, ?5)"
}

/// The statement that reads the `?1` oldest cached messages, oldest first.
pub fn dequeue_statement() -> (s: &'static str)
    ensures
        s@ == dequeue_sql(),
{
    "SELECT id, topic, payload, qos, retain, ts_enqueued FROM msg_queue ORDER BY id LIMIT ?1"
}

/// How the cache database is set up when it is opened.
#[derive(Debug, Clone, Copy, PartialEq, Eq)]
pub struct DatabaseSettings {
    /// Value of the `journal_mode` pragma
    pub journal_mode: &'static str,
    /// Value of the `synchronous` pragma
    pub synchronous: &'static str,
    /// Busy timeout in milliseconds
    pub busy_timeout_ms: u64,
    /// Statement that creates the cache table
    pub schema: &'static str,
}

/// The setup of the cache database for a configuration: write-ahead
/// journal, the configured synchronous mode and busy timeout, and the cache
/// table.
pub fn database_settings(config: &CacheConfig) -> (s: DatabaseSettings)
    ensures
        s.journal_mode@ == "WAL"@,
        s.synchronous@ == spec_synchronous_value(config.synchronous),
        s.busy_timeout_ms == config.busy_timeout_ms,
        s.schema@ == schema_sql(),
{
    DatabaseSettings {
        journal_mode: "WAL",
        synchronous: synchronous_value(config.synchronous),
        busy_timeout_ms: config.busy_timeout_ms,
        schema: schema_statement(),
    }
}

/// Opens the SQLite database at `path` (`Connection::open`). Nothing is
/// stated of the outcome: it depends on the file system.
#[verifier::external_body]
fn open_connection(path: &str) -> (r: core::result::Result<rusqlite::Connection, rusqlite::Error>) {
    rusqlite::Connection::open(path)
}

/// The pragma settings the cache makes: the journal mode `WAL`, and a
/// `synchronous` value of one of the modes.
pub open spec fn cache_pragma(name: Seq<char>, value: Seq<char>) -> bool {
    ||| name == "journal_mode"@ && value == "WAL"@
    ||| name == "synchronous"@ && (value == "FULL"@ || value == "NORMAL"@ || value == "OFF"@)
}

/// Sets a pragma of the main database (`Connection::pragma_update`).
/// Nothing is stated of the outcome: it depends on the database.
#[verifier::external_body]
fn pragma_update(conn: &rusqlite::Connection, name: &str, value: &str) -> (r: core::result::Result<
    (),
    rusqlite::Error,
>)
    requires
        cache_pragma(name@, value@),
{
    conn.pragma_update(None, name, value)
}

/// Sets the busy timeout in milliseconds (`Connection::busy_timeout`, which
/// panics on a timeout above `i32::MAX` milliseconds, hence the
/// precondition). Nothing is stated of the outcome.
#[verifier::external_body]
fn busy_timeout(conn: &rusqlite::Connection, ms: u64) -> (r: core::result::Result<(), rusqlite::Error>)
    requires
        ms <= i32::MAX,
{
    conn.busy_timeout(std::time::Duration::from_millis(ms))
}

/// Runs the statement that creates the cache table
/// (`Connection::execute`). Nothing is stated of the outcome: it depends
/// on the database.
#[verifier::external_body]
fn execute(conn: &rusqlite::Connection, sql: &str) -> (r: core::result::Result<usize, rusqlite::Error>)
    requires
        sql@ == schema_sql(),
{
    conn.execute(sql, [])
}

/// Runs the statement that deletes the `n` oldest messages
/// (`Connection::execute`). Nothing is stated of the outcome: it depends on
/// the database.
#[verifier::external_body]
fn execute_with_count(conn: &rusqlite::Connection, sql: &str, n: usize) -> (r: core::result::Result<
    usize,
    rusqlite::Error,
>)
    requires
        sql@ == evict_sql(),
{
    conn.execute(sql, [n])
}

/// Runs the statement that deletes the messages of the ids, which are its
/// parameters (`Connection::execute`). Nothing is stated of the outcome: it
/// depends on the database.
#[verifier::external_body]
fn execute_with_ids(conn: &rusqlite::Connection, sql: &str, ids: &[i64]) -> (r: core::result::Result<
    usize,
    rusqlite::Error,
>)
    requires
        sql@ == spec_delete_statement(ids@.len()),
{
    conn.execute(sql, rusqlite::params_from_iter(ids))
}

/// Runs the statement that stores one message with these fields
/// (`Connection::execute`). Nothing is stated of the outcome: it depends on
/// the database.
#[verifier::external_body]
fn execute_insert(
    conn: &rusqlite::Connection,
    sql: &str,
    topic: &[u8],
    payload: &[u8],
    qos: u8,
    retain: bool,
    ts: i64,
) -> (r: core::result::Result<usize, rusqlite::Error>)
    requires
        sql@ == insert_sql(),
{
    conn.execute(sql, (topic, payload, qos, retain, ts))
}

/// Runs the statement that counts the cached messages and reads the count
/// in the first column of its single row (`Connection::query_row`).
/// Nothing is stated of the count: it depends on the database.
#[verifier::external_body]
fn query_count(conn: &rusqlite::Connection, sql: &str) -> (r: core::result::Result<usize, rusqlite::Error>)
    requires
        sql@ == count_sql(),
{
    conn.query_row(sql, [], |row| row.get(0))
}

/// A row read from the cache table: id, topic, payload, QoS, retain flag
/// and enqueue time.
pub type CacheRow = (i64, Vec<u8>, Vec<u8>, u8, bool, i64);

/// Runs the statement that reads the `limit` oldest messages
/// (`Connection::prepare`, `Statement::query_map`, each row converted to a
/// tuple by rusqlite's `TryFrom<&Row>`, the rows collected in the order
/// SQLite returns them). SQLite returns at most `limit` rows (`LIMIT`) in
/// ascending order of id (`ORDER BY id`); an id that is not an integer, or
/// a limit that does not fit in an SQLite integer, is an error. Nothing is
/// stated of which rows they are: that depends on the database.
#[verifier::external_body]
fn query_rows(conn: &rusqlite::Connection, sql: &str, limit: usize) -> (r: core::result::Result<
    Vec<CacheRow>,
    rusqlite::Error,
>)
    requires
        sql@ == dequeue_sql(),
    ensures
        r matches Ok(rows) ==> (rows@.len() <= limit && forall|i: int, j: int|
            0 <= i < j < rows@.len() ==> (#[trigger] rows@[i]).0 <= (#[trigger] rows@[j]).0),
{
    let mut stmt = conn.prepare(sql)?;
    let rows = stmt.query_map([limit], |row| CacheRow::try_from(row))?;
    rows.collect()
}

/// The current Unix time in seconds (`chrono::Utc::now`, then
/// `DateTime::timestamp`). Nothing is stated of the value: it is the clock.
#[verifier::external_body]
fn now_timestamp() -> (t: i64) {
    chrono::Utc::now().timestamp()
}

/// What the cache returns for an SQLite reply: the value of a successful
/// reply unchanged, and a failed reply as an SQLite error.
pub fn sqlite_reply<T>(reply: core::result::Result<T, rusqlite::Error>) -> (r: Result<T>)
    ensures
        r == (match reply {
            Ok(v) => Ok(v),
            Err(e) => Err(BridgeError::Sqlite(e)),
        }),
{
    match reply {
        Ok(v) => Ok(v),
        Err(e) => Err(BridgeError::Sqlite(e)),
    }
}

/// Opens the cache database and sets it up as [`database_settings`] says:
/// write-ahead journal, the configured synchronous mode and busy timeout,
/// and the `msg_queue` table created if it is missing. The directory of
/// the file must exist. Any SQLite failure is returned as an SQLite error.
pub fn open_database(config: &CacheConfig) -> (r: Result<rusqlite::Connection>)
    requires
        config.busy_timeout_ms <= i32::MAX,
    ensures
        r is Err ==> r->Err_0 is Sqlite,
{
    let settings = database_settings(config);
    let conn = match open_connection(config.sqlite_path.as_str()) {
        Ok(c) => c,
        Err(e) => return Err(BridgeError::Sqlite(e)),
    };
    if let Err(e) = pragma_update(&conn, "journal_mode", settings.journal_mode) {
        return Err(BridgeError::Sqlite(e));
    }
    if let Err(e) = pragma_update(&conn, "synchronous", settings.synchronous) {
        return Err(BridgeError::Sqlite(e));
    }
    if let Err(e) = busy_timeout(&conn, settings.busy_timeout_ms) {
        return Err(BridgeError::Sqlite(e));
    }
    if let Err(e) = execute(&conn, settings.schema) {
        return Err(BridgeError::Sqlite(e));
    }
    Ok(conn)
}

/// Carries out the decision on a message offered to a cache that holds
/// `row_count` messages (see [`enqueue_decision`]): a skipped message is
/// answered `Ok` and nothing is sent to SQLite; a refused one is answered
/// with the cache-full error; otherwise the `evict` oldest messages are
/// deleted, if any, and the message is stored with the current time, any
/// SQLite failure being returned as an SQLite error.
pub fn enqueue_with_count(
    conn: &rusqlite::Connection,
    config: &CacheConfig,
    topic: &[u8],
    payload: &[u8],
    qos: u8,
    retain: bool,
    row_count: usize,
) -> (r: Result<()>)
    ensures
        spec_enqueue_decision(*config, qos, row_count) is Skip ==> r is Ok,
        spec_enqueue_decision(*config, qos, row_count) is Reject ==> (r matches Err(
            BridgeError::CacheFull(m),
        ) && m@ == cache_full_message(config.max_rows)),
        spec_enqueue_decision(*config, qos, row_count) is Insert ==> r is Ok || r matches Err(
            BridgeError::Sqlite(_),
        ),
{
    match enqueue_decision(config, qos, row_count) {
        EnqueueDecision::Skip => Ok(()),
        EnqueueDecision::Reject => {
            let limit = decimal_string(config.max_rows as u64);
            proof {
                reveal_strlit("Cache at max_rows limit: ");
            }
            Err(BridgeError::CacheFull("Cache at max_rows limit: ".to_owned().concat(limit.as_str())))
        },
        EnqueueDecision::Insert { evict } => {
            if evict > 0 {
                if let Err(e) = execute_with_count(conn, evict_statement(), evict) {
                    return Err(BridgeError::Sqlite(e));
                }
            }
            let ts_enqueued = now_timestamp();
            match execute_insert(conn, insert_statement(), topic, payload, qos, retain, ts_enqueued) {
                Ok(_) => Ok(()),
                Err(e) => Err(BridgeError::Sqlite(e)),
            }
        },
    }
}

/// Offers a message to the cache. A QoS 0 message is skipped (and `Ok`
/// returned) unless QoS 0 is cached. Otherwise the messages are counted
/// and the count handed to [`enqueue_with_count`]: a full cache either
/// deletes its oldest messages first or refuses the message with a
/// cache-full error; the message is then stored with the current time.
/// Any SQLite failure is returned as an SQLite error.
pub fn enqueue(
    conn: &rusqlite::Connection,
    config: &CacheConfig,
    topic: &[u8],
    payload: &[u8],
    qos: u8,
    retain: bool,
) -> (r: Result<()>)
    ensures
        qos == 0 && !config.cache_qos0 ==> r is Ok,
        r matches Err(BridgeError::CacheFull(m)) ==> m@ == cache_full_message(config.max_rows)
            && config.eviction == EvictionPolicy::RejectNew && config.max_rows > 0 && !(qos == 0
            && !config.cache_qos0),
        r matches Err(e) ==> !(e is TopicMapping),
        (config.max_rows == 0 || config.eviction == EvictionPolicy::DropOldest) ==> !(r matches Err(
            BridgeError::CacheFull(_),
        )),
{
    if qos == 0 && !config.cache_qos0 {
        return Ok(());
    }
    match query_count(conn, count_statement()) {
        Ok(row_count) => enqueue_with_count(conn, config, topic, payload, qos, retain, row_count),
        Err(e) => Err(BridgeError::Sqlite(e)),
    }
}

/// Messages in the order they were cached: ascending ids.
pub open spec fn oldest_first(messages: Seq<CachedMessage>) -> bool {
    forall|i: int, j: int|
        0 <= i < j < messages.len() ==> (#[trigger] messages[i]).id <= (#[trigger] messages[j]).id
}

/// `m` holds the fields of the row `row`.
pub open spec fn is_row_message(m: CachedMessage, row: CacheRow) -> bool {
    &&& m.id == row.0
    &&& m.topic@ == row.1@
    &&& m.payload@ == row.2@
    &&& m.qos == row.3
    &&& m.retain == row.4
    &&& m.ts_enqueued == row.5
}

/// The messages of the rows read from the cache table, in their order.
pub fn messages_from_rows(rows: &Vec<CacheRow>) -> (v: Vec<CachedMessage>)
    ensures
        v@.len() == rows@.len(),
        forall|i: int| 0 <= i < rows@.len() ==> is_row_message(#[trigger] v@[i], rows@[i]),
{
    let mut v: Vec<CachedMessage> = Vec::new();
    let mut i: usize = 0;
    while i < rows.len()
        invariant
            i <= rows@.len(),
            v@.len() == i,
            forall|k: int| 0 <= k < i ==> is_row_message(#[trigger] v@[k], rows@[k]),
        decreases rows@.len() - i,
    {
        let row = &rows[i];
        v.push(
            CachedMessage {
                id: row.0,
                topic: vstd::slice::slice_to_vec(row.1.as_slice()),
                payload: vstd::slice::slice_to_vec(row.2.as_slice()),
                qos: row.3,
                retain: row.4,
                ts_enqueued: row.5,
            },
        );
        i = i + 1;
    }
    v
}

/// The oldest cached messages, at most `limit` of them, oldest first.
/// Any SQLite failure is returned as an SQLite error.
pub fn dequeue_batch(conn: &rusqlite::Connection, limit: usize) -> (r: Result<Vec<CachedMessage>>)
    ensures
        r is Err ==> r->Err_0 is Sqlite,
        r matches Ok(v) ==> (v@.len() <= limit && oldest_first(v@)),
{
    match query_rows(conn, dequeue_statement(), limit) {
        Ok(rows) => {
            let v = messages_from_rows(&rows);
            assert forall|i: int, j: int| 0 <= i < j < v@.len() implies (#[trigger] v@[i]).id
                <= (#[trigger] v@[j]).id by {
                assert(is_row_message(v@[i], rows@[i]));
                assert(is_row_message(v@[j], rows@[j]));
                assert(rows@[i].0 <= rows@[j].0);
            }
            Ok(v)
        },
        Err(e) => Err(BridgeError::Sqlite(e)),
    }
}

/// The SQL statement that deletes the messages of `n` ids, one `?`
/// placeholder per id.
pub open spec fn spec_delete_statement(n: nat) -> Seq<char> {
    "DELETE FROM msg_queue WHERE id IN ("@ + placeholders(n) + ")"@
}

/// `n` question marks separated by commas.
pub open spec fn placeholders(n: nat) -> Seq<char>
    decreases n,
{
    if n == 0 {
        Seq::empty()
    } else if n == 1 {
        seq!['?']
    } else {
        placeholders((n - 1) as nat) + seq![',', '?']
    }
}

/// The SQL statement that deletes the messages of `n` ids.
pub fn delete_statement(n: usize) -> (s: String)
    ensures
        s@ == spec_delete_statement(n as nat),
{
    let mut list = String::new();
    let mut i: usize = 0;
    while i < n
        invariant
            i <= n,
            list@ == placeholders(i as nat),
        decreases n - i,
    {
        proof {
            reveal_strlit("?");
            reveal_strlit(",?");
        }
        if i == 0 {
            list.append("?");
        } else {
            list.append(",?");
        }
        i = i + 1;
    }
    "DELETE FROM msg_queue WHERE id IN (".to_owned().concat(list.as_str()).concat(")")
}

/// Deletes the cached messages with the given ids; nothing is done for no
/// ids. Any SQLite failure is returned as an SQLite error.
pub fn delete_batch(conn: &rusqlite::Connection, ids: &[i64]) -> (r: Result<()>)
    ensures
        ids@.len() == 0 ==> r is Ok,
        r is Err ==> r->Err_0 is Sqlite,
{
    if ids.len() == 0 {
        return Ok(());
    }
    let sql = delete_statement(ids.len());
    match execute_with_ids(conn, sql.as_str(), ids) {
        Ok(_) => Ok(()),
        Err(e) => Err(BridgeError::Sqlite(e)),
    }
}

/// The number of cached messages. Any SQLite failure is returned as an
/// SQLite error.
pub fn count(conn: &rusqlite::Connection) -> (r: Result<usize>)
    ensures
        r is Err ==> r->Err_0 is Sqlite,
{
    sqlite_reply(query_count(conn, count_statement()))
}

} // verus!
