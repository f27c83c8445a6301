//! Database operations: the durable event log in a SQLite file.
//!
//! One connection, owned by [`Database`], carries every operation. What the
//! file holds is not modelled, and nothing is believed of what SQLite
//! answers: what a contract here promises of an answer is checked on it.

use vstd::prelude::*;
use vstd::string::StringExecFns;
use crate::error::AgentError;
use crate::event::{
    attachment_list, check_json, clone_opt_text, default_retention_class, json_document,
    opt_text, parse_attachments, Correlation, CorrelationView, Event, EventDetails,
    EventDetailsView, EventView, Privacy, PrivacyView, Source, SourceView, SyncStatus,
};

verus! {

/// A connection to a SQLite database: `rusqlite::Connection`.
#[verifier::external_type_specification]
#[verifier::external_body]
pub struct ExConnection(rusqlite::Connection);

/// An open transaction on a connection: `rusqlite::Transaction`. Dropping it
/// uncommitted rolls it back.
#[verifier::external_type_specification]
#[verifier::external_body]
pub struct ExTransaction<'conn>(rusqlite::Transaction<'conn>);

/// Connection settings: write-ahead logging, so that readers go on during a
/// write; a 2 MB page cache; a five-second wait on a locked file.
pub const CONFIGURE_SQL: &'static str = "
PRAGMA journal_mode = WAL;
PRAGMA synchronous = NORMAL;
PRAGMA cache_size = -2000;
PRAGMA busy_timeout = 5000;
";

/// The schema: the event table with its indexes, the hourly rollup table and
/// the agent's key/value table. Every statement is a no-op where its object
/// exists.
pub const SCHEMA_SQL: &'static str = "
CREATE TABLE IF NOT EXISTS events (
    event_id TEXT PRIMARY KEY,
    observed_at INTEGER NOT NULL,
    received_at INTEGER NOT NULL,
    source_type TEXT NOT NULL,
    source_id TEXT NOT NULL,
    source_seq INTEGER,
    category TEXT NOT NULL,
    type TEXT NOT NULL,
    severity TEXT NOT NULL DEFAULT 'info',
    correlation_id TEXT,
    payload_json TEXT NOT NULL,
    attachments_json TEXT,
    pii INTEGER NOT NULL DEFAULT 0,
    retention_class TEXT NOT NULL DEFAULT 'standard',
    synced INTEGER NOT NULL DEFAULT 0
);
CREATE INDEX IF NOT EXISTS idx_events_observed ON events(observed_at);
CREATE INDEX IF NOT EXISTS idx_events_type_observed ON events(type, observed_at);
CREATE INDEX IF NOT EXISTS idx_events_source_observed ON events(source_id, observed_at);
CREATE INDEX IF NOT EXISTS idx_events_synced ON events(synced, observed_at);
CREATE INDEX IF NOT EXISTS idx_events_category ON events(category, observed_at);
CREATE TABLE IF NOT EXISTS hourly_counts (
    hour_bucket INTEGER NOT NULL,
    source_id TEXT NOT NULL,
    type TEXT NOT NULL,
    count INTEGER NOT NULL,
    PRIMARY KEY (hour_bucket, source_id, type)
);
CREATE TABLE IF NOT EXISTS config (
    key TEXT PRIMARY KEY,
    value TEXT NOT NULL,
    updated_at INTEGER NOT NULL
);
";

/// Writes one row; a row whose `event_id` is already stored stays as it is.
pub const INSERT_SQL: &'static str = "
INSERT INTO events (
    event_id, observed_at, received_at,
    source_type, source_id, source_seq,
    category, type, severity, correlation_id,
    payload_json, attachments_json,
    pii, retention_class, synced
) VALUES (?1, ?2, ?3, ?4, ?5, ?6, ?7, ?8, ?9, ?10, ?11, ?12, ?13, ?14, ?15)
ON CONFLICT(event_id) DO NOTHING
";

/// Reads the oldest unsynced rows, up to a limit.
pub const SELECT_UNSYNCED_SQL: &'static str = "
SELECT event_id, observed_at, received_at,
       source_type, source_id, source_seq,
       category, type, severity, correlation_id,
       payload_json, attachments_json,
       pii, retention_class, synced
FROM events
WHERE synced = 0
ORDER BY observed_at ASC
LIMIT ?
";

pub const COUNT_ALL_SQL: &'static str = "SELECT COUNT(*) FROM events";

pub const COUNT_PENDING_SQL: &'static str = "SELECT COUNT(*) FROM events WHERE synced = 0";

/// One row of the event table, column by column.
#[derive(Debug, Clone)]
pub struct EventRow {
    pub event_id: String,
    pub observed_at: i64,
    pub received_at: i64,
    pub source_type: String,
    pub source_id: String,
    pub source_seq: Option<i64>,
    pub category: String,
    pub event_type: String,
    pub severity: String,
    pub correlation_id: Option<String>,
    pub payload_json: String,
    pub attachments_json: Option<String>,
    pub pii: bool,
    pub retention_class: String,
    pub synced: bool,
}

pub struct RowView {
    pub event_id: Seq<char>,
    pub observed_at: i64,
    pub received_at: i64,
    pub source_type: Seq<char>,
    pub source_id: Seq<char>,
    pub source_seq: Option<i64>,
    pub category: Seq<char>,
    pub event_type: Seq<char>,
    pub severity: Seq<char>,
    pub correlation_id: Option<Seq<char>>,
    pub payload_json: Seq<char>,
    pub attachments_json: Option<Seq<char>>,
    pub pii: bool,
    pub retention_class: Seq<char>,
    pub synced: bool,
}

impl View for EventRow {
    type V = RowView;

    open spec fn view(&self) -> RowView {
        RowView {
            event_id: self.event_id@,
            observed_at: self.observed_at,
            received_at: self.received_at,
            source_type: self.source_type@,
            source_id: self.source_id@,
            source_seq: self.source_seq,
            category: self.category@,
            event_type: self.event_type@,
            severity: self.severity@,
            correlation_id: opt_text(self.correlation_id),
            payload_json: self.payload_json@,
            attachments_json: opt_text(self.attachments_json),
            pii: self.pii,
            retention_class: self.retention_class@,
            synced: self.synced,
        }
    }
}

/// The row that records an event. Every event is recorded as unsynced,
/// whatever sync status it carries: only [`Database::mark_synced`] makes a
/// stored event synced. An event without privacy settings is stored as free
/// of PII and of the standard retention class.
pub open spec fn row_of(e: EventView) -> RowView {
    RowView {
        event_id: e.event_id,
        observed_at: e.observed_at,
        received_at: e.received_at,
        source_type: e.source.source_type,
        source_id: e.source.id,
        source_seq: match e.sync {
            Some(s) => s.source_seq,
            None => None,
        },
        category: e.event.category,
        event_type: e.event.event_type,
        severity: e.event.severity,
        correlation_id: match e.correlation {
            Some(c) => c.correlation_id,
            None => None,
        },
        payload_json: e.event.data,
        attachments_json: e.attachments,
        pii: match e.privacy {
            Some(p) => p.pii,
            None => false,
        },
        retention_class: match e.privacy {
            Some(p) => p.retention_class,
            None => "standard"@,
        },
        synced: false,
    }
}

/// The event that a row stands for. What the table has no column for (the
/// source's version and metadata, the schema version, the session and
/// incident identifiers) is absent from it.
pub open spec fn event_of(r: RowView) -> EventView {
    EventView {
        event_id: r.event_id,
        observed_at: r.observed_at,
        received_at: r.received_at,
        source: SourceView {
            source_type: r.source_type,
            id: r.source_id,
            version: None,
            metadata: None,
        },
        event: EventDetailsView {
            category: r.category,
            event_type: r.event_type,
            severity: r.severity,
            schema_version: None,
            data: r.payload_json,
        },
        correlation: match r.correlation_id {
            Some(id) => Some(
                CorrelationView { correlation_id: Some(id), session_id: None, incident_id: None },
            ),
            None => None,
        },
        attachments: r.attachments_json,
        privacy: Some(PrivacyView { pii: r.pii, retention_class: r.retention_class }),
        sync: Some(SyncStatus { synced: r.synced, source_seq: r.source_seq }),
    }
}

/// Whether the structured columns of a row can be read: the payload is
/// JSON text, and the attachments, where there are any, are a list of
/// attachment records.
pub open spec fn readable(r: RowView) -> bool {
    json_document(r.payload_json) && (r.attachments_json matches Some(a) ==> attachment_list(a)
        is Some)
}

/// What is said of attachments that are not a list of attachment records.
pub const BAD_ATTACHMENTS: &'static str = "attachments are not a list of attachment records";

/// Reading an unsynced row and recording the result again gives the same
/// row.
pub proof fn lemma_stored_row_is_stable(r: RowView)
    requires
        !r.synced,
    ensures
        row_of(event_of(r)) == r,
{
}

impl EventRow {
    /// The row that records `event`.
    pub fn from_event(event: &Event) -> (row: EventRow)
        ensures
            row@ == row_of(event@),
    {
        let (pii, retention_class) = match &event.privacy {
            Some(p) => (p.pii, p.retention_class.clone()),
            None => (false, default_retention_class()),
        };
        let source_seq = match &event.sync {
            Some(s) => s.source_seq,
            None => None,
        };
        let correlation_id = match &event.correlation {
            Some(c) => clone_opt_text(&c.correlation_id),
            None => None,
        };
        EventRow {
            event_id: event.event_id.clone(),
            observed_at: event.observed_at,
            received_at: event.received_at,
            source_type: event.source.source_type.clone(),
            source_id: event.source.id.clone(),
            source_seq,
            category: event.event.category.clone(),
            event_type: event.event.event_type.clone(),
            severity: event.event.severity.clone(),
            correlation_id,
            payload_json: event.event.data.clone(),
            attachments_json: clone_opt_text(&event.attachments),
            pii,
            retention_class,
            synced: false,
        }
    }

    /// Checks the structured columns and turns the row into its event.
    pub fn into_event(self) -> (event: Result<Event, AgentError>)
        ensures
            event is Ok <==> readable(self@),
            event matches Ok(e) ==> e@ == event_of(self@),
            event matches Err(e) ==> e.unreadable(),
    {
        match check_row(&self) {
            Ok(()) => {},
            Err(e) => {
                return Err(e);
            },
        }
        let correlation = match self.correlation_id {
            Some(id) => Some(
                Correlation { correlation_id: Some(id), session_id: None, incident_id: None },
            ),
            None => None,
        };
        Ok(
            Event {
                event_id: self.event_id,
                observed_at: self.observed_at,
                received_at: self.received_at,
                source: Source {
                    source_type: self.source_type,
                    id: self.source_id,
                    version: None,
                    metadata: None,
                },
                event: EventDetails {
                    category: self.category,
                    event_type: self.event_type,
                    severity: self.severity,
                    schema_version: None,
                    data: self.payload_json,
                },
                correlation,
                attachments: self.attachments_json,
                privacy: Some(Privacy { pii: self.pii, retention_class: self.retention_class }),
                sync: Some(SyncStatus { synced: self.synced, source_seq: self.source_seq }),
            },
        )
    }
}

/// Opens the database file at `path`, creating it where there is none.
///
/// Calls `rusqlite::Connection::open`. Whether it succeeds depends on the
/// file system, so nothing is claimed of the result.
#[verifier::external_body]
fn connect(path: &str) -> Result<rusqlite::Connection, rusqlite::Error> {
    rusqlite::Connection::open(path)
}

/// Runs statements that take no parameters, one after another.
///
/// Calls `rusqlite::Connection::execute_batch`, which stops at the first
/// statement that fails and returns its error.
#[verifier::external_body]
fn run_batch(conn: &rusqlite::Connection, sql: &str) -> Result<(), rusqlite::Error> {
    conn.execute_batch(sql)
}

/// Runs a statement that takes the fifteen columns of a row as its
/// parameters, in the table's order.
///
/// Calls `rusqlite::Connection::execute`, which returns the number of rows
/// that the statement changed. Nothing is claimed of the number.
#[verifier::external_body]
fn insert_row(conn: &rusqlite::Connection, sql: &str, row: &EventRow) -> Result<
    usize,
    rusqlite::Error,
> {
    conn.execute(
        sql,
        (
            &row.event_id, row.observed_at, row.received_at, &row.source_type, &row.source_id,
            row.source_seq, &row.category, &row.event_type, &row.severity, &row.correlation_id,
            &row.payload_json, &row.attachments_json, row.pii, &row.retention_class, row.synced,
        ),
    )
}

/// Runs a query that takes a limit as its parameter and gives the fifteen
/// columns of a row, in the table's order, and reads each row that comes
/// back; a row that cannot be read as the table's column types, or a
/// failure to step to the next row, is an error in its place.
///
/// Calls `rusqlite::Connection::prepare`, `Statement::query_map` and
/// `Row::get`. Nothing is claimed of the rows: what the query asks for is
/// checked on them by [`pending_events`].
#[verifier::external_body]
fn select_rows(conn: &rusqlite::Connection, sql: &str, limit: i64) -> Result<
    Vec<Result<EventRow, rusqlite::Error>>,
    rusqlite::Error,
> {
    let mut stmt = conn.prepare(sql)?;
    let rows = stmt.query_map([limit], |r| Ok(EventRow {
        event_id: r.get(0)?, observed_at: r.get(1)?, received_at: r.get(2)?,
        source_type: r.get(3)?, source_id: r.get(4)?, source_seq: r.get(5)?,
        category: r.get(6)?, event_type: r.get(7)?, severity: r.get(8)?,
        correlation_id: r.get(9)?, payload_json: r.get(10)?, attachments_json: r.get(11)?,
        pii: r.get(12)?, retention_class: r.get(13)?, synced: r.get(14)?,
    }))?;
    Ok(rows.collect())
}

/// Runs an update that takes one text parameter per identifier.
///
/// Calls `rusqlite::Connection::prepare` and `Statement::execute` with
/// `rusqlite::params_from_iter`, and returns the number of rows changed.
#[verifier::external_body]
fn update_by_ids(conn: &rusqlite::Connection, sql: &str, ids: &[String]) -> Result<
    usize,
    rusqlite::Error,
> {
    conn.prepare(sql)?.execute(rusqlite::params_from_iter(ids))
}

/// Runs a query that gives one integer and reads it.
///
/// Calls `rusqlite::Connection::query_row` and `Row::get`.
#[verifier::external_body]
fn count_rows(conn: &rusqlite::Connection, sql: &str) -> Result<i64, rusqlite::Error> {
    conn.query_row(sql, [], |r| r.get(0))
}

/// Begins a transaction.
///
/// Calls `rusqlite::Connection::transaction`.
#[verifier::external_body]
fn begin<'a>(conn: &'a mut rusqlite::Connection) -> Result<
    rusqlite::Transaction<'a>,
    rusqlite::Error,
> {
    conn.transaction()
}

/// The connection that a transaction runs on, for the statements inside it.
///
/// Calls `Deref::deref` of `rusqlite::Transaction`.
#[verifier::external_body]
fn inside<'a, 'b>(tx: &'a rusqlite::Transaction<'b>) -> &'a rusqlite::Connection {
    tx
}

/// Commits a transaction.
///
/// Calls `rusqlite::Transaction::commit`.
#[verifier::external_body]
fn commit(tx: rusqlite::Transaction<'_>) -> Result<(), rusqlite::Error> {
    tx.commit()
}

/// The durable event log.
pub struct Database {
    conn: rusqlite::Connection,
}

/// The start of the statement that marks events synced; a list of
/// placeholders and a closing bracket follow it.
pub const MARK_SYNCED_SQL: &'static str = "UPDATE events SET synced = 1 WHERE event_id IN (";

/// One placeholder per identifier, separated by commas.
pub open spec fn placeholders(n: nat) -> Seq<char>
    decreases n,
{
    if n == 0 {
        Seq::empty()
    } else if n == 1 {
        "?"@
    } else {
        placeholders((n - 1) as nat) + ",?"@
    }
}

/// The statement that marks `n` events synced.
pub open spec fn mark_synced_statement(n: nat) -> Seq<char> {
    MARK_SYNCED_SQL@ + placeholders(n) + ")"@
}

/// Writes the statement that marks `n` events synced.
pub fn mark_synced_sql(n: usize) -> (sql: String)
    ensures
        sql@ == mark_synced_statement(n as nat),
{
    let mut list = String::new();
    let mut i: usize = 0;
    while i < n
        invariant
            i <= n,
            list@ == placeholders(i as nat),
        decreases n - i,
    {
        if i == 0 {
            list.append("?");
        } else {
            list.append(",?");
        }
        i = i + 1;
    }
    String::from_str(MARK_SYNCED_SQL).concat(list.as_str()).concat(")")
}

/// Whether every row of an answer could be read.
pub open spec fn all_read(answer: Seq<Result<EventRow, rusqlite::Error>>) -> bool {
    forall|i: int| 0 <= i < answer.len() ==> (#[trigger] answer[i]) is Ok
}

/// The rows of an answer of which every row could be read.
pub open spec fn rows_read(answer: Seq<Result<EventRow, rusqlite::Error>>) -> Seq<EventRow> {
    Seq::new(
        answer.len(),
        |i: int|
            match answer[i] {
                Ok(row) => row,
                Err(_) => arbitrary(),
            },
    )
}

/// Whether the structured columns of every row can be read.
pub open spec fn all_readable(rows: Seq<EventRow>) -> bool {
    forall|i: int| 0 <= i < rows.len() ==> readable((#[trigger] rows[i])@)
}

/// The events of rows, one for one.
pub open spec fn events_of(rows: Seq<EventRow>) -> Seq<EventView> {
    Seq::new(rows.len(), |i: int| event_of(rows[i]@))
}

/// The views of a list of events.
pub open spec fn event_views(events: Seq<Event>) -> Seq<EventView> {
    events.map_values(|e: Event| e@)
}

/// Whether an event is not marked synced.
pub open spec fn pending(e: EventView) -> bool {
    match e.sync {
        Some(s) => !s.synced,
        None => true,
    }
}

/// Whether events stand in the order in which they were observed.
pub open spec fn in_observed_order(events: Seq<EventView>) -> bool {
    forall|i: int, j: int|
        0 <= i < j < events.len() ==> events[i].observed_at <= events[j].observed_at
}

/// Whether every event is unsynced.
pub open spec fn all_pending(events: Seq<EventView>) -> bool {
    forall|i: int| 0 <= i < events.len() ==> pending(#[trigger] events[i])
}

/// The unsynced events of an answer, in their order.
pub open spec fn pending_ones(events: Seq<EventView>) -> Seq<EventView>
    decreases events.len(),
{
    if events.len() == 0 {
        Seq::empty()
    } else {
        let earlier = pending_ones(events.drop_last());
        if pending(events.last()) {
            earlier.push(events.last())
        } else {
            earlier
        }
    }
}

/// The first `limit` of a list, or all of it where it is no longer.
pub open spec fn first(events: Seq<EventView>, limit: usize) -> Seq<EventView> {
    if events.len() <= limit {
        events
    } else {
        events.take(limit as int)
    }
}

/// What is kept of an answer: its unsynced events, up to `limit` of them.
pub open spec fn settled(events: Seq<EventView>, limit: usize) -> Seq<EventView> {
    first(pending_ones(events), limit)
}

/// The unsynced events of an answer are unsynced, and each of them is an
/// event of the answer.
pub proof fn lemma_pending_ones(events: Seq<EventView>)
    ensures
        pending_ones(events).len() <= events.len(),
        all_pending(pending_ones(events)),
        forall|k: int|
            0 <= k < pending_ones(events).len() ==> exists|i: int|
                0 <= i < events.len() && #[trigger] pending_ones(events)[k]
                    == #[trigger] events[i],
    decreases events.len(),
{
    if events.len() > 0 {
        let front = events.drop_last();
        lemma_pending_ones(front);
        let earlier = pending_ones(front);
        assert forall|k: int| 0 <= k < earlier.len() implies exists|i: int|
            0 <= i < events.len() && #[trigger] earlier[k] == #[trigger] events[i] by {
            let i = choose|i: int| 0 <= i < front.len() && earlier[k] == #[trigger] front[i];
            assert(front[i] == events[i]);
        }
        assert(events.last() == events[events.len() - 1]);
    }
}

/// The unsynced events of the front of an answer stand at the front of its
/// unsynced events.
pub proof fn lemma_pending_ones_grow(events: Seq<EventView>, n: int)
    requires
        0 <= n <= events.len(),
    ensures
        pending_ones(events.take(n)).is_prefix_of(pending_ones(events)),
    decreases events.len(),
{
    if n == events.len() {
        assert(events.take(n) == events);
    } else {
        let front = events.drop_last();
        lemma_pending_ones_grow(front, n);
        assert(front.take(n) == events.take(n));
    }
}

/// What is kept of an answer whose unsynced events came in observed order
/// is unsynced, stands in observed order, is no longer than the limit, and
/// holds nothing that the answer did not hold.
pub proof fn lemma_settled(events: Seq<EventView>, limit: usize)
    requires
        in_observed_order(pending_ones(events)),
    ensures
        settled(events, limit).len() <= limit,
        settled(events, limit).len() <= events.len(),
        in_observed_order(settled(events, limit)),
        all_pending(settled(events, limit)),
        forall|k: int|
            0 <= k < settled(events, limit).len() ==> exists|i: int|
                0 <= i < events.len() && #[trigger] settled(events, limit)[k]
                    == #[trigger] events[i],
{
    lemma_pending_ones(events);
    let all = pending_ones(events);
    let kept = settled(events, limit);
    assert forall|k: int| 0 <= k < kept.len() implies #[trigger] kept[k] == all[k] by {}
    assert forall|k: int| 0 <= k < kept.len() implies exists|i: int|
        0 <= i < events.len() && #[trigger] kept[k] == #[trigger] events[i] by {
        assert(kept[k] == all[k]);
    }
    assert forall|k: int| 0 <= k < kept.len() implies pending(#[trigger] kept[k]) by {
        assert(kept[k] == all[k]);
    }
}

/// The front of an answer that is in observed order and unsynced is so too.
pub proof fn lemma_front_is_sound(events: Seq<EventView>)
    requires
        events.len() > 0,
        in_observed_order(events),
        all_pending(events),
    ensures
        in_observed_order(events.drop_last()),
        all_pending(events.drop_last()),
{
    let front = events.drop_last();
    assert forall|i: int, j: int| 0 <= i < j < front.len() implies front[i].observed_at
        <= front[j].observed_at by {
        assert(front[i] == events[i] && front[j] == events[j]);
    }
    assert forall|i: int| 0 <= i < front.len() implies pending(#[trigger] front[i]) by {
        assert(front[i] == events[i]);
    }
}

/// An answer that is as the query asks is kept whole.
pub proof fn lemma_settled_keeps_sound_answer(events: Seq<EventView>, limit: usize)
    requires
        events.len() <= limit,
        in_observed_order(events),
        all_pending(events),
    ensures
        pending_ones(events) == events,
        settled(events, limit) == events,
    decreases events.len(),
{
    if events.len() > 0 {
        let front = events.drop_last();
        lemma_front_is_sound(events);
        lemma_settled_keeps_sound_answer(front, limit);
        assert(pending(#[trigger] events[events.len() - 1]));
        assert(front.push(events.last()) == events);
    }
}

/// The number of inserts that reported a new row.
pub open spec fn new_rows(changes: Seq<usize>) -> nat
    decreases changes.len(),
{
    if changes.len() == 0 {
        0
    } else {
        new_rows(changes.drop_last()) + if changes.last() > 0 {
            1nat
        } else {
            0nat
        }
    }
}

/// No more rows are new than inserts were made.
pub proof fn lemma_new_rows_bounded(changes: Seq<usize>)
    ensures
        new_rows(changes) <= changes.len(),
    decreases changes.len(),
{
    if changes.len() > 0 {
        lemma_new_rows_bounded(changes.drop_last());
    }
}

/// Where every insert reported one new row, each row is counted.
pub proof fn lemma_new_rows_all(changes: Seq<usize>)
    requires
        forall|i: int| 0 <= i < changes.len() ==> changes[i] == 1,
    ensures
        new_rows(changes) == changes.len(),
    decreases changes.len(),
{
    if changes.len() > 0 {
        let front = changes.drop_last();
        assert forall|i: int| 0 <= i < front.len() implies front[i] == 1 by {
            assert(front[i] == changes[i]);
        }
        lemma_new_rows_all(front);
    }
}

impl Database {
    /// Open database at the given path and configure the connection. The
    /// directory of `path` must exist.
    pub fn open(path: &str) -> (db: Result<Database, AgentError>)
        ensures
            db matches Err(e) ==> e is Database,
    {
        let conn = match connect(path) {
            Ok(conn) => conn,
            Err(e) => {
                return Err(AgentError::Database(e));
            },
        };
        match run_batch(&conn, CONFIGURE_SQL) {
            Ok(()) => Ok(Database { conn }),
            Err(e) => Err(AgentError::Database(e)),
        }
    }

    /// Run database migrations: creates the tables and indexes that are
    /// missing. Safe to call on every startup.
    pub fn migrate(&mut self) -> (done: Result<(), AgentError>)
        ensures
            done matches Err(e) ==> e is Database,
    {
        match run_batch(&self.conn, SCHEMA_SQL) {
            Ok(()) => Ok(()),
            Err(e) => Err(AgentError::Database(e)),
        }
    }

    /// Insert a single event. An event whose `event_id` is already stored is
    /// left as it was first written, and the call succeeds all the same.
    /// Nothing is written where the event's payload or attachments cannot be
    /// read.
    pub fn insert_event(&mut self, event: &Event) -> (done: Result<(), AgentError>)
        ensures
            !readable(row_of(event@)) <==> (done matches Err(e) && e.unreadable()),
            done matches Err(e) ==> e.unreadable() || e is Database,
            done matches Err(AgentError::Json(_)) <==> !json_document(event.event.data@),
            done matches Err(AgentError::InvalidEvent(reason)) ==> reason@ == BAD_ATTACHMENTS@,
    {
        let row = EventRow::from_event(event);
        match check_row(&row) {
            Ok(()) => {},
            Err(e) => {
                return Err(e);
            },
        }
        match insert_row(&self.conn, INSERT_SQL, &row) {
            Ok(_) => Ok(()),
            Err(e) => Err(AgentError::Database(e)),
        }
    }

    /// Insert multiple events in one transaction and count the rows that are
    /// new: the inserts that reported a change, as [`count_new`] counts
    /// them. Of the count this contract gives the bound only; which inserts
    /// report a change is the store's to say. Where any row fails, nothing
    /// of the batch is kept. Nothing is written where some event's payload
    /// or attachments cannot be read.
    pub fn insert_events(&mut self, events: &[Event]) -> (inserted: Result<usize, AgentError>)
        ensures
            (exists|i: int| 0 <= i < events@.len() && !readable(row_of(#[trigger] events@[i]@)))
                <==> (inserted matches Err(e) && e.unreadable()),
            inserted matches Err(e) ==> e.unreadable() || e is Database,
            inserted matches Ok(n) ==> n <= events@.len(),
    {
        let mut rows: Vec<EventRow> = Vec::new();
        let mut i: usize = 0;
        while i < events.len()
            invariant
                i <= events@.len(),
                rows@.len() == i,
                forall|k: int| 0 <= k < i ==> (#[trigger] rows@[k])@ == row_of(events@[k]@),
                forall|k: int| 0 <= k < i ==> readable(row_of(#[trigger] events@[k]@)),
            decreases events@.len() - i,
        {
            let row = EventRow::from_event(&events[i]);
            match check_row(&row) {
                Ok(()) => {},
                Err(e) => {
                    return Err(e);
                },
            }
            rows.push(row);
            i = i + 1;
        }
        let tx = match begin(&mut self.conn) {
            Ok(tx) => tx,
            Err(e) => {
                return Err(AgentError::Database(e));
            },
        };
        let mut changes: Vec<usize> = Vec::new();
        let mut j: usize = 0;
        while j < rows.len()
            invariant
                j <= rows@.len(),
                rows@.len() == events@.len(),
                changes@.len() == j,
                forall|k: int|
                    0 <= k < events@.len() ==> readable(row_of(#[trigger] events@[k]@)),
            decreases rows@.len() - j,
        {
            match insert_row(inside(&tx), INSERT_SQL, &rows[j]) {
                Ok(n) => {
                    changes.push(n);
                },
                Err(e) => {
                    return Err(AgentError::Database(e));
                },
            }
            j = j + 1;
        }
        match commit(tx) {
            Ok(()) => {
                proof {
                    lemma_new_rows_bounded(changes@);
                }
                Ok(count_new(&changes))
            },
            Err(e) => Err(AgentError::Database(e)),
        }
    }

    /// Get unsynced events (for sync worker): up to `limit` of them, oldest
    /// first by the time they were observed. Each comes as the store holds
    /// it, so without what the table has no column for. A row that cannot
    /// be read fails the call, and so do unsynced rows that come out of
    /// order: no unsynced event is passed over in silence.
    pub fn get_unsynced_events(&self, limit: usize) -> (pending: Result<Vec<Event>, AgentError>)
        ensures
            pending matches Err(e) ==> e is Database || e.unreadable() || e is Storage,
            pending matches Ok(events) ==> {
                &&& events@.len() <= limit
                &&& in_observed_order(event_views(events@))
                &&& forall|k: int|
                    0 <= k < events@.len() ==> {
                        &&& (#[trigger] events@[k]).sync is Some
                        &&& !events@[k].sync.unwrap().synced
                        &&& readable(row_of(events@[k]@))
                        &&& events@[k]@ == event_of(row_of(events@[k]@))
                    }
            },
    {
        let answer = select_rows(&self.conn, SELECT_UNSYNCED_SQL, query_limit(limit));
        pending_events(answer, limit)
    }

    /// Mark events as synced and count the rows that matched. With no
    /// identifiers the store is not touched.
    pub fn mark_synced(&mut self, event_ids: &[String]) -> (marked: Result<usize, AgentError>)
        ensures
            event_ids@.len() == 0 ==> marked == Ok::<usize, AgentError>(0),
            marked matches Err(e) ==> e is Database,
    {
        if event_ids.len() == 0 {
            return Ok(0);
        }
        let sql = mark_synced_sql(event_ids.len());
        match update_by_ids(&self.conn, sql.as_str(), event_ids) {
            Ok(n) => Ok(n),
            Err(e) => Err(AgentError::Database(e)),
        }
    }

    /// Get event count.
    pub fn event_count(&self) -> (count: Result<i64, AgentError>)
        ensures
            count matches Err(e) ==> e is Database,
    {
        match count_rows(&self.conn, COUNT_ALL_SQL) {
            Ok(n) => Ok(n),
            Err(e) => Err(AgentError::Database(e)),
        }
    }

    /// Get pending sync count.
    pub fn pending_sync_count(&self) -> (count: Result<i64, AgentError>)
        ensures
            count matches Err(e) ==> e is Database,
    {
        match count_rows(&self.conn, COUNT_PENDING_SQL) {
            Ok(n) => Ok(n),
            Err(e) => Err(AgentError::Database(e)),
        }
    }
}

/// Checks that the structured columns of a row can be read: that the
/// payload is JSON text and that the attachments, where there are any, are
/// a list of attachment records.
pub fn check_row(row: &EventRow) -> (checked: Result<(), AgentError>)
    ensures
        checked is Ok <==> readable(row@),
        checked matches Err(e) ==> e.unreadable() && (e is Json <==> !json_document(
            row.payload_json@,
        )),
        checked matches Err(AgentError::InvalidEvent(reason)) ==> reason@ == BAD_ATTACHMENTS@,
{
    match check_json(row.payload_json.as_str()) {
        Ok(()) => {},
        Err(e) => {
            return Err(AgentError::Json(e));
        },
    }
    match &row.attachments_json {
        Some(a) => match parse_attachments(a.as_str()) {
            Some(_) => Ok(()),
            None => Err(AgentError::InvalidEvent(BAD_ATTACHMENTS.to_owned())),
        },
        None => Ok(()),
    }
}

/// The limit that is handed to the query: `limit`, or the largest number
/// that the query takes where `limit` is larger.
pub fn query_limit(limit: usize) -> (bound: i64)
    ensures
        0 <= bound,
        bound == if limit <= i64::MAX { limit as int } else { i64::MAX as int },
{
    if limit as u64 > i64::MAX as u64 {
        i64::MAX
    } else {
        limit as i64
    }
}

/// Counts the inserts that reported a new row.
pub fn count_new(changes: &Vec<usize>) -> (n: usize)
    ensures
        n == new_rows(changes@),
{
    let mut n: usize = 0;
    let mut i: usize = 0;
    while i < changes.len()
        invariant
            i <= changes@.len(),
            n <= i,
            n == new_rows(changes@.take(i as int)),
        decreases changes@.len() - i,
    {
        proof {
            assert(changes@.take(i + 1).drop_last() == changes@.take(i as int));
            assert(changes@.take(i + 1).last() == changes@[i as int]);
        }
        if changes[i] > 0 {
            n = n + 1;
        }
        i = i + 1;
    }
    proof {
        assert(changes@.take(changes@.len() as int) == changes@);
    }
    n
}

/// Takes the rows out of an answer. A row that could not be read fails the
/// whole answer, with the error of the first such row.
pub fn collect_read(answer: Vec<Result<EventRow, rusqlite::Error>>) -> (rows: Result<
    Vec<EventRow>,
    AgentError,
>)
    ensures
        rows is Ok <==> all_read(answer@),
        rows matches Ok(read) ==> read@ == rows_read(answer@),
        rows matches Err(e) ==> e matches AgentError::Database(inner) && exists|i: int|
            0 <= i < answer@.len() && #[trigger] answer@[i] == Err::<EventRow, rusqlite::Error>(
                inner,
            ) && forall|j: int| 0 <= j < i ==> (#[trigger] answer@[j]) is Ok,
{
    let ghost all = answer@;
    let mut rows: Vec<EventRow> = Vec::new();
    for item in it: answer
        invariant
            it.seq() == all,
            rows@.len() == it.index(),
            forall|j: int| 0 <= j < it.index() ==> (#[trigger] all[j]) == Ok::<
                EventRow,
                rusqlite::Error,
            >(rows@[j]),
    {
        match item {
            Ok(row) => {
                rows.push(row);
            },
            Err(e) => {
                proof {
                    assert(all[it.index() as int] == Err::<EventRow, rusqlite::Error>(e));
                }
                return Err(AgentError::Database(e));
            },
        }
    }
    proof {
        assert(rows@ =~= rows_read(all));
    }
    Ok(rows)
}

/// Turns rows into events, one for one. A row whose structured columns
/// cannot be read fails the whole list.
pub fn decode_rows(rows: Vec<EventRow>) -> (events: Result<Vec<Event>, AgentError>)
    ensures
        events is Ok <==> all_readable(rows@),
        events matches Ok(decoded) ==> event_views(decoded@) == events_of(rows@),
        events matches Err(e) ==> e.unreadable(),
{
    let ghost all = rows@;
    let mut events: Vec<Event> = Vec::new();
    for row in it: rows
        invariant
            it.seq() == all,
            events@.len() == it.index(),
            forall|j: int| 0 <= j < it.index() ==> readable((#[trigger] all[j])@),
            forall|j: int| 0 <= j < it.index() ==> (#[trigger] events@[j])@ == event_of(all[j]@),
    {
        match row.into_event() {
            Ok(event) => {
                events.push(event);
            },
            Err(e) => {
                proof {
                    assert(!readable(all[it.index() as int]@));
                }
                return Err(e);
            },
        }
    }
    proof {
        assert(event_views(events@) =~= events_of(all));
    }
    Ok(events)
}

/// What is said of an answer whose unsynced events are not oldest first.
pub const DISORDER: &'static str = "unsynced events came out of order";

/// Holds an answer to what the query asks. The unsynced events must stand
/// in observed order: an answer in which one of them is older than the one
/// before it fails, so that no unsynced event is passed over. Of an answer
/// in order, the unsynced events are kept, up to `limit` of them; an answer
/// that is as the query asks is kept whole.
pub fn settle(events: Vec<Event>, limit: usize) -> (kept: Result<Vec<Event>, AgentError>)
    ensures
        kept is Ok <==> in_observed_order(pending_ones(event_views(events@))),
        kept matches Ok(list) ==> event_views(list@) == settled(event_views(events@), limit),
        kept matches Err(e) ==> e matches AgentError::Storage(reason) && reason@ == DISORDER@,
{
    let ghost all = event_views(events@);
    let mut kept: Vec<Event> = Vec::new();
    let mut any: bool = false;
    let mut newest: i64 = i64::MIN;
    for event in it: events
        invariant
            event_views(it.seq()) == all,
            in_observed_order(pending_ones(all.take(it.index() as int))),
            event_views(kept@) == first(pending_ones(all.take(it.index() as int)), limit),
            any == (pending_ones(all.take(it.index() as int)).len() > 0),
            any ==> newest == pending_ones(all.take(it.index() as int)).last().observed_at,
    {
        let ghost i = it.index() as int;
        let ghost seen = pending_ones(all.take(i));
        proof {
            assert(all.take(i + 1).drop_last() == all.take(i));
            assert(all.take(i + 1).last() == all[i]);
            assert(all[i] == event@);
        }
        let ghost before = kept@;
        let unsynced = match &event.sync {
            Some(s) => !s.synced,
            None => true,
        };
        if unsynced {
            if any && event.observed_at < newest {
                proof {
                    let grown = pending_ones(all.take(i + 1));
                    assert(grown == seen.push(event@));
                    assert(grown[seen.len() - 1] == seen.last());
                    assert(grown[seen.len() as int] == event@);
                    lemma_pending_ones_grow(all, i + 1);
                    let whole = pending_ones(all);
                    assert(whole[seen.len() - 1] == grown[seen.len() - 1]);
                    assert(whole[seen.len() as int] == grown[seen.len() as int]);
                    assert(!in_observed_order(whole));
                }
                return Err(AgentError::Storage(DISORDER.to_owned()));
            }
            proof {
                let grown = seen.push(event@);
                assert forall|a: int, b: int| 0 <= a < b < grown.len() implies grown[a].observed_at
                    <= grown[b].observed_at by {
                    if b == seen.len() {
                        if a < seen.len() - 1 {
                            assert(seen[a].observed_at <= seen[seen.len() - 1].observed_at);
                        }
                    }
                }
            }
            any = true;
            newest = event.observed_at;
            if kept.len() < limit {
                kept.push(event);
                proof {
                    assert(event_views(kept@) == event_views(before).push(event@));
                    assert(event_views(kept@) =~= first(seen.push(event@), limit));
                }
            } else {
                proof {
                    assert(event_views(kept@) =~= first(seen.push(event@), limit));
                }
            }
        }
    }
    proof {
        assert(all.take(all.len() as int) == all);
    }
    Ok(kept)
}

/// The events that an answer to the query for unsynced events stands for.
/// A failed query, a row that could not be read, a row whose structured
/// columns cannot be read and unsynced rows out of order each fail the
/// whole answer; otherwise every row becomes its event, and the unsynced
/// events are kept, up to the limit.
pub fn pending_events(
    answer: Result<Vec<Result<EventRow, rusqlite::Error>>, rusqlite::Error>,
    limit: usize,
) -> (pending: Result<Vec<Event>, AgentError>)
    ensures
        pending is Ok <==> (answer matches Ok(found) && all_read(found@) && all_readable(
            rows_read(found@),
        ) && in_observed_order(pending_ones(events_of(rows_read(found@))))),
        pending matches Ok(events) ==> answer matches Ok(found) && event_views(events@) == settled(
            events_of(rows_read(found@)),
            limit,
        ),
        pending matches Err(e) ==> {
            &&& e is Database <==> !(answer matches Ok(found) && all_read(found@))
            &&& e.unreadable() <==> (answer matches Ok(found) && all_read(found@) && !all_readable(
                rows_read(found@),
            ))
            &&& e is Database || e.unreadable() || e is Storage
        },
        answer matches Err(failure) ==> pending == Err::<Vec<Event>, AgentError>(
            AgentError::Database(failure),
        ),
        pending matches Ok(events) ==> {
            &&& events@.len() <= limit
            &&& in_observed_order(event_views(events@))
            &&& forall|k: int|
                0 <= k < events@.len() ==> {
                    &&& (#[trigger] events@[k]).sync is Some
                    &&& !events@[k].sync.unwrap().synced
                    &&& readable(row_of(events@[k]@))
                    &&& events@[k]@ == event_of(row_of(events@[k]@))
                }
        },
{
    let found = match answer {
        Ok(found) => found,
        Err(e) => {
            return Err(AgentError::Database(e));
        },
    };
    let rows = match collect_read(found) {
        Ok(rows) => rows,
        Err(e) => {
            return Err(e);
        },
    };
    let ghost read = rows@;
    let decoded = match decode_rows(rows) {
        Ok(decoded) => decoded,
        Err(e) => {
            return Err(e);
        },
    };
    let events = match settle(decoded, limit) {
        Ok(events) => events,
        Err(e) => {
            return Err(e);
        },
    };
    proof {
        let all = events_of(read);
        lemma_settled(all, limit);
        assert forall|k: int| 0 <= k < events@.len() implies {
            &&& (#[trigger] events@[k]).sync is Some
            &&& !events@[k].sync.unwrap().synced
            &&& readable(row_of(events@[k]@))
            &&& events@[k]@ == event_of(row_of(events@[k]@))
        } by {
            assert(event_views(events@)[k] == events@[k]@);
            let i = choose|i: int|
                0 <= i < all.len() && settled(all, limit)[k] == #[trigger] all[i];
            assert(all[i] == event_of(read[i]@));
            assert(pending(settled(all, limit)[k]));
            assert(readable(read[i]@));
            lemma_stored_row_is_stable(read[i]@);
        }
    }
    Ok(events)
}

} // verus!
