//! Event types and the rules an event must meet to be recorded.
//!
//! Timestamps are milliseconds since the Unix epoch. Structured payloads
//! (`data`, `metadata`, `attachments`) are carried as JSON text.

use vstd::prelude::*;

verus! {

/// The characters of an optional string.
pub open spec fn opt_text(s: Option<String>) -> Option<Seq<char>> {
    match s {
        Some(t) => Some(t@),
        None => None,
    }
}

/// Copies an optional string.
pub fn clone_opt_text(s: &Option<String>) -> (copy: Option<String>)
    ensures
        opt_text(copy) == opt_text(*s),
{
    match s {
        Some(t) => Some(t.clone()),
        None => None,
    }
}

/// Whether two strings hold the same characters.
pub fn same_text(a: &str, b: &str) -> (same: bool)
    ensures
        same == (a@ == b@),
{
    a.to_owned() == b.to_owned()
}

/// Whether a text is one JSON document. It stands for what `serde_json`'s
/// parser accepts, which takes its whole grammar to say.
pub uninterp spec fn json_document(text: Seq<char>) -> bool;

/// Parses `text` as one JSON value and drops the value.
///
/// Calls `serde_json::from_str::<serde_json::Value>`. The parser reads
/// nothing but the text, so whether it succeeds is a property of the text
/// alone, named `json_document`.
#[verifier::external_body]
pub(crate) fn check_json(text: &str) -> (checked: Result<(), serde_json::Error>)
    ensures
        checked is Ok <==> json_document(text@),
{
    serde_json::from_str::<serde_json::Value>(text)?;
    Ok(())
}

/// Source of an event.
#[derive(Debug, Clone)]
pub struct Source {
    /// Type of source (browser, edge_device, server, mobile)
    pub source_type: String,
    /// Unique identifier for this source
    pub id: String,
    /// Software/firmware version
    pub version: Option<String>,
    /// Additional source metadata, as JSON text
    pub metadata: Option<String>,
}

pub struct SourceView {
    pub source_type: Seq<char>,
    pub id: Seq<char>,
    pub version: Option<Seq<char>>,
    pub metadata: Option<Seq<char>>,
}

impl View for Source {
    type V = SourceView;

    open spec fn view(&self) -> SourceView {
        SourceView {
            source_type: self.source_type@,
            id: self.id@,
            version: opt_text(self.version),
            metadata: opt_text(self.metadata),
        }
    }
}

/// Event details.
#[derive(Debug, Clone)]
pub struct EventDetails {
    /// Category (web, iot, app, ops, security)
    pub category: String,
    /// Specific event type
    pub event_type: String,
    /// Severity level
    pub severity: String,
    /// Schema version
    pub schema_version: Option<String>,
    /// Event-specific payload, as JSON text
    pub data: String,
}

pub struct EventDetailsView {
    pub category: Seq<char>,
    pub event_type: Seq<char>,
    pub severity: Seq<char>,
    pub schema_version: Option<Seq<char>>,
    pub data: Seq<char>,
}

impl View for EventDetails {
    type V = EventDetailsView;

    open spec fn view(&self) -> EventDetailsView {
        EventDetailsView {
            category: self.category@,
            event_type: self.event_type@,
            severity: self.severity@,
            schema_version: opt_text(self.schema_version),
            data: self.data@,
        }
    }
}

/// The severity of an event that names none.
pub fn default_severity() -> (severity: String)
    ensures
        severity@ == "info"@,
{
    "info".to_owned()
}

/// Correlation information for linking events.
#[derive(Debug, Clone)]
pub struct Correlation {
    /// Correlation ID for related events
    pub correlation_id: Option<String>,
    /// Session ID (for web/app events)
    pub session_id: Option<String>,
    /// Incident ID (for IoT events)
    pub incident_id: Option<String>,
}

pub struct CorrelationView {
    pub correlation_id: Option<Seq<char>>,
    pub session_id: Option<Seq<char>>,
    pub incident_id: Option<Seq<char>>,
}

impl View for Correlation {
    type V = CorrelationView;

    open spec fn view(&self) -> CorrelationView {
        CorrelationView {
            correlation_id: opt_text(self.correlation_id),
            session_id: opt_text(self.session_id),
            incident_id: opt_text(self.incident_id),
        }
    }
}

impl Default for Correlation {
    fn default() -> (c: Correlation)
        ensures
            c@ == (CorrelationView { correlation_id: None, session_id: None, incident_id: None }),
    {
        Correlation { correlation_id: None, session_id: None, incident_id: None }
    }
}

/// Attachment reference (media stored out-of-band).
#[derive(Debug, Clone)]
pub struct Attachment {
    /// Kind of attachment (thumbnail, clip, log, report)
    pub kind: String,
    /// URI to the attachment
    pub uri: String,
    /// SHA256 hash of the content
    pub sha256: Option<String>,
    /// Size in bytes
    pub size_bytes: Option<u64>,
    /// MIME type
    pub mime_type: Option<String>,
}

pub struct AttachmentView {
    pub kind: Seq<char>,
    pub uri: Seq<char>,
    pub sha256: Option<Seq<char>>,
    pub size_bytes: Option<u64>,
    pub mime_type: Option<Seq<char>>,
}

impl View for Attachment {
    type V = AttachmentView;

    open spec fn view(&self) -> AttachmentView {
        AttachmentView {
            kind: self.kind@,
            uri: self.uri@,
            sha256: opt_text(self.sha256),
            size_bytes: self.size_bytes,
            mime_type: opt_text(self.mime_type),
        }
    }
}

/// The elements of a JSON text that is an array, each as JSON text; `None`
/// for a text that is no JSON document or no array. It stands for what
/// `serde_json` reads and writes.
pub uninterp spec fn json_items(text: Seq<char>) -> Option<Seq<Seq<char>>>;

/// The member `key` of a JSON text that is an object, as JSON text; `None`
/// for a text that is no JSON document or no object, and for an object
/// without that member. It stands for what `serde_json` reads and writes.
pub uninterp spec fn json_member(text: Seq<char>, key: Seq<char>) -> Option<Seq<char>>;

/// The characters of a JSON text that is a string; `None` for any other
/// text. It stands for what `serde_json` reads.
pub uninterp spec fn json_string(text: Seq<char>) -> Option<Seq<char>>;

/// The number of a JSON text that is an integer from 0 to the largest
/// `u64`; `None` for any other text. It stands for what `serde_json` reads.
pub uninterp spec fn json_count(text: Seq<char>) -> Option<u64>;

/// The characters of each text of a list.
pub open spec fn texts(list: Seq<String>) -> Seq<Seq<char>> {
    list.map_values(|s: String| s@)
}

/// Parses `text` and writes out each element of the array that it holds.
///
/// Calls `serde_json::from_str::<serde_json::Value>`, `Value::as_array` and
/// `Value::to_string`. Each reads nothing but its argument, so the result is
/// a property of the text alone, named `json_items`.
#[verifier::external_body]
fn array_items(text: &str) -> (items: Option<Vec<String>>)
    ensures
        match items {
            Some(list) => json_items(text@) == Some(texts(list@)),
            None => json_items(text@) is None,
        },
{
    let value: serde_json::Value = serde_json::from_str(text).ok()?;
    Some(value.as_array()?.iter().map(|item| item.to_string()).collect())
}

/// Parses `text` and writes out the member `key` of the object that it
/// holds.
///
/// Calls `serde_json::from_str::<serde_json::Value>`, `Value::as_object`,
/// `Map::get` and `Value::to_string`. The result is a property of the two
/// texts alone, named `json_member`.
#[verifier::external_body]
fn object_member(text: &str, key: &str) -> (member: Option<String>)
    ensures
        opt_text(member) == json_member(text@, key@),
{
    let value: serde_json::Value = serde_json::from_str(text).ok()?;
    Some(value.as_object()?.get(key)?.to_string())
}

/// Parses `text` and gives the string that it holds.
///
/// Calls `serde_json::from_str::<serde_json::Value>` and `Value::as_str`.
/// The result is a property of the text alone, named `json_string`.
#[verifier::external_body]
fn string_value(text: &str) -> (value: Option<String>)
    ensures
        opt_text(value) == json_string(text@),
{
    let value: serde_json::Value = serde_json::from_str(text).ok()?;
    Some(value.as_str()?.to_owned())
}

/// Parses `text` and gives the unsigned integer that it holds.
///
/// Calls `serde_json::from_str::<serde_json::Value>` and `Value::as_u64`.
/// The result is a property of the text alone, named `json_count`.
#[verifier::external_body]
fn count_value(text: &str) -> (value: Option<u64>)
    ensures
        value == json_count(text@),
{
    let value: serde_json::Value = serde_json::from_str(text).ok()?;
    value.as_u64()
}

/// A member of a record that must be a string.
pub open spec fn required_text(record: Seq<char>, key: Seq<char>) -> Option<Seq<char>> {
    match json_member(record, key) {
        Some(member) => json_string(member),
        None => None,
    }
}

/// A member of a record that may be left out or null, and is a string
/// otherwise; `None` where it is anything else.
pub open spec fn optional_text(record: Seq<char>, key: Seq<char>) -> Option<Option<Seq<char>>> {
    match json_member(record, key) {
        None => Some(None),
        Some(member) => if member == "null"@ {
            Some(None)
        } else {
            match json_string(member) {
                Some(text) => Some(Some(text)),
                None => None,
            }
        },
    }
}

/// A member of a record that may be left out or null, and is an unsigned
/// integer otherwise; `None` where it is anything else.
pub open spec fn optional_count(record: Seq<char>, key: Seq<char>) -> Option<Option<u64>> {
    match json_member(record, key) {
        None => Some(None),
        Some(member) => if member == "null"@ {
            Some(None)
        } else {
            match json_count(member) {
                Some(n) => Some(Some(n)),
                None => None,
            }
        },
    }
}

/// The attachment that a JSON text records: an object with the strings
/// `kind` and `uri` and, each where it is given, the string `sha256`, the
/// unsigned integer `size_bytes` and the string `mime_type`. Other members
/// are passed over.
pub open spec fn attachment_record(record: Seq<char>) -> Option<AttachmentView> {
    match (
        required_text(record, "kind"@),
        required_text(record, "uri"@),
        optional_text(record, "sha256"@),
        optional_count(record, "size_bytes"@),
        optional_text(record, "mime_type"@),
    ) {
        (Some(kind), Some(uri), Some(sha256), Some(size_bytes), Some(mime_type)) => Some(
            AttachmentView { kind, uri, sha256, size_bytes, mime_type },
        ),
        _ => None,
    }
}

/// The attachments that a JSON text lists: an array of attachment records.
pub open spec fn attachment_list(text: Seq<char>) -> Option<Seq<AttachmentView>> {
    match json_items(text) {
        Some(items) => if forall|i: int|
            0 <= i < items.len() ==> attachment_record(#[trigger] items[i]) is Some {
            Some(Seq::new(items.len(), |i: int| attachment_record(items[i]).unwrap()))
        } else {
            None
        },
        None => None,
    }
}

fn read_optional_text(record: &str, key: &str) -> (value: Option<Option<String>>)
    ensures
        match value {
            Some(text) => optional_text(record@, key@) == Some(opt_text(text)),
            None => optional_text(record@, key@) is None,
        },
{
    match object_member(record, key) {
        None => Some(None),
        Some(member) => {
            if same_text(member.as_str(), "null") {
                Some(None)
            } else {
                match string_value(member.as_str()) {
                    Some(text) => Some(Some(text)),
                    None => None,
                }
            }
        },
    }
}

fn read_optional_count(record: &str, key: &str) -> (value: Option<Option<u64>>)
    ensures
        value == optional_count(record@, key@),
{
    match object_member(record, key) {
        None => Some(None),
        Some(member) => {
            if same_text(member.as_str(), "null") {
                Some(None)
            } else {
                match count_value(member.as_str()) {
                    Some(n) => Some(Some(n)),
                    None => None,
                }
            }
        },
    }
}

fn read_required_text(record: &str, key: &str) -> (value: Option<String>)
    ensures
        opt_text(value) == required_text(record@, key@),
{
    match object_member(record, key) {
        Some(member) => string_value(member.as_str()),
        None => None,
    }
}

/// Reads one attachment record.
pub fn parse_attachment(record: &str) -> (attachment: Option<Attachment>)
    ensures
        match attachment {
            Some(a) => attachment_record(record@) == Some(a@),
            None => attachment_record(record@) is None,
        },
{
    let kind = match read_required_text(record, "kind") {
        Some(kind) => kind,
        None => {
            return None;
        },
    };
    let uri = match read_required_text(record, "uri") {
        Some(uri) => uri,
        None => {
            return None;
        },
    };
    let sha256 = match read_optional_text(record, "sha256") {
        Some(sha256) => sha256,
        None => {
            return None;
        },
    };
    let size_bytes = match read_optional_count(record, "size_bytes") {
        Some(size_bytes) => size_bytes,
        None => {
            return None;
        },
    };
    let mime_type = match read_optional_text(record, "mime_type") {
        Some(mime_type) => mime_type,
        None => {
            return None;
        },
    };
    Some(Attachment { kind, uri, sha256, size_bytes, mime_type })
}

/// Reads a list of attachment records.
pub fn parse_attachments(text: &str) -> (attachments: Option<Vec<Attachment>>)
    ensures
        match attachments {
            Some(list) => attachment_list(text@) == Some(list@.map_values(|a: Attachment| a@)),
            None => attachment_list(text@) is None,
        },
{
    let items = match array_items(text) {
        Some(items) => items,
        None => {
            return None;
        },
    };
    let ghost records = texts(items@);
    let mut list: Vec<Attachment> = Vec::new();
    let mut i: usize = 0;
    while i < items.len()
        invariant
            i <= items@.len(),
            records == texts(items@),
            json_items(text@) == Some(records),
            list@.len() == i,
            forall|k: int|
                0 <= k < i ==> attachment_record(#[trigger] records[k]) == Some(list@[k]@),
        decreases items@.len() - i,
    {
        assert(records[i as int] == items@[i as int]@);
        match parse_attachment(items[i].as_str()) {
            Some(a) => {
                list.push(a);
            },
            None => {
                return None;
            },
        }
        i = i + 1;
    }
    proof {
        assert(list@.map_values(|a: Attachment| a@) =~= Seq::new(
            records.len(),
            |i: int| attachment_record(records[i]).unwrap(),
        ));
    }
    Some(list)
}

/// Privacy and retention settings.
#[derive(Debug, Clone)]
pub struct Privacy {
    /// Contains PII
    pub pii: bool,
    /// Retention class (short, standard, long)
    pub retention_class: String,
}

pub struct PrivacyView {
    pub pii: bool,
    pub retention_class: Seq<char>,
}

impl View for Privacy {
    type V = PrivacyView;

    open spec fn view(&self) -> PrivacyView {
        PrivacyView { pii: self.pii, retention_class: self.retention_class@ }
    }
}

/// The retention class of an event that names none.
pub fn default_retention_class() -> (class: String)
    ensures
        class@ == "standard"@,
{
    "standard".to_owned()
}

impl Default for Privacy {
    fn default() -> (p: Privacy)
        ensures
            p@ == (PrivacyView { pii: false, retention_class: "standard"@ }),
    {
        Privacy { pii: false, retention_class: default_retention_class() }
    }
}

/// Sync status (internal).
#[derive(Debug, Clone, Copy, PartialEq, Eq)]
pub struct SyncStatus {
    /// Has been synced to hub
    pub synced: bool,
    /// Monotonic sequence per source
    pub source_seq: Option<i64>,
}

impl Default for SyncStatus {
    fn default() -> (s: SyncStatus)
        ensures
            s == (SyncStatus { synced: false, source_seq: None }),
    {
        SyncStatus { synced: false, source_seq: None }
    }
}

pub open spec fn opt_correlation(c: Option<Correlation>) -> Option<CorrelationView> {
    match c {
        Some(v) => Some(v@),
        None => None,
    }
}

pub open spec fn opt_privacy(p: Option<Privacy>) -> Option<PrivacyView> {
    match p {
        Some(v) => Some(v@),
        None => None,
    }
}

/// Complete event envelope.
#[derive(Debug, Clone)]
pub struct Event {
    /// Unique event identifier
    pub event_id: String,
    /// When the event occurred (source clock)
    pub observed_at: i64,
    /// When the collector received it
    pub received_at: i64,
    /// Source information
    pub source: Source,
    /// Event details
    pub event: EventDetails,
    /// Correlation information
    pub correlation: Option<Correlation>,
    /// Attachment references, as the JSON text of a list of records (see
    /// [`parse_attachments`])
    pub attachments: Option<String>,
    /// Privacy settings
    pub privacy: Option<Privacy>,
    /// Sync status
    pub sync: Option<SyncStatus>,
}

pub struct EventView {
    pub event_id: Seq<char>,
    pub observed_at: i64,
    pub received_at: i64,
    pub source: SourceView,
    pub event: EventDetailsView,
    pub correlation: Option<CorrelationView>,
    pub attachments: Option<Seq<char>>,
    pub privacy: Option<PrivacyView>,
    pub sync: Option<SyncStatus>,
}

impl View for Event {
    type V = EventView;

    open spec fn view(&self) -> EventView {
        EventView {
            event_id: self.event_id@,
            observed_at: self.observed_at,
            received_at: self.received_at,
            source: self.source@,
            event: self.event@,
            correlation: opt_correlation(self.correlation),
            attachments: opt_text(self.attachments),
            privacy: opt_privacy(self.privacy),
            sync: self.sync,
        }
    }
}

/// Incoming event (before processing).
#[derive(Debug, Clone)]
pub struct IncomingEvent {
    /// Event ID (optional, will be generated if missing)
    pub event_id: Option<String>,
    /// When the event occurred (optional, defaults to the time of receipt)
    pub observed_at: Option<i64>,
    /// Source information
    pub source: Source,
    /// Event details
    pub event: EventDetails,
    /// Correlation information
    pub correlation: Option<Correlation>,
    /// Attachment references, as the JSON text of a list
    pub attachments: Option<String>,
    /// Privacy settings
    pub privacy: Option<Privacy>,
}

/// A random identifier for an event that came without one.
///
/// Calls `uuid::Uuid::new_v4` and formats the result. Nothing is claimed of
/// the text: it differs from call to call.
#[verifier::external_body]
fn fresh_event_id() -> String {
    uuid::Uuid::new_v4().to_string()
}

/// The collector's clock, in milliseconds since the Unix epoch.
///
/// Calls `chrono::Utc::now` and `DateTime::timestamp_millis`. Nothing is
/// claimed of the value: it depends on when the call is made.
#[verifier::external_body]
pub(crate) fn now_millis() -> i64 {
    chrono::Utc::now().timestamp_millis()
}

impl IncomingEvent {
    /// The event that this envelope becomes when it is received at `now` and
    /// `generated_id` stands ready for an envelope without an identifier.
    pub open spec fn received(self, generated_id: Seq<char>, now: i64) -> EventView {
        EventView {
            event_id: match self.event_id {
                Some(id) => id@,
                None => generated_id,
            },
            observed_at: match self.observed_at {
                Some(at) => at,
                None => now,
            },
            received_at: now,
            source: self.source@,
            event: self.event@,
            correlation: opt_correlation(self.correlation),
            attachments: opt_text(self.attachments),
            privacy: opt_privacy(self.privacy),
            sync: Some(SyncStatus { synced: false, source_seq: None }),
        }
    }

    /// Fills in the fields that the collector assigns: the identifier where
    /// the producer gave none, the observation time where it gave none, the
    /// time of receipt, and a sync status that starts unsynced.
    pub fn into_event_with(self, generated_id: String, now: i64) -> (event: Event)
        ensures
            event@ == self.received(generated_id@, now),
    {
        let event_id = match self.event_id {
            Some(id) => id,
            None => generated_id,
        };
        let observed_at = match self.observed_at {
            Some(at) => at,
            None => now,
        };
        Event {
            event_id,
            observed_at,
            received_at: now,
            source: self.source,
            event: self.event,
            correlation: self.correlation,
            attachments: self.attachments,
            privacy: self.privacy,
            sync: Some(SyncStatus::default()),
        }
    }

    /// Convert to a full Event with generated fields: reads the clock once
    /// and draws a random identifier.
    pub fn into_event(self) -> (event: Event)
        ensures
            exists|generated_id: Seq<char>, now: i64|
                event@ == #[trigger] self.received(generated_id, now),
            self.event_id is Some ==> event.event_id@ == self.event_id.unwrap()@,
            self.observed_at is Some ==> event.observed_at == self.observed_at.unwrap(),
            self.observed_at is None ==> event.observed_at == event.received_at,
    {
        let now = now_millis();
        let generated_id = fresh_event_id();
        self.into_event_with(generated_id, now)
    }
}

/// The recognised event categories.
pub open spec fn is_category(category: Seq<char>) -> bool {
    category == "web"@ || category == "iot"@ || category == "app"@ || category == "ops"@
        || category == "security"@
}

/// The recognised source types.
pub open spec fn is_source_type(source_type: Seq<char>) -> bool {
    source_type == "browser"@ || source_type == "edge_device"@ || source_type == "server"@
        || source_type == "mobile"@
}

/// The recognised severities.
pub open spec fn is_severity(severity: Seq<char>) -> bool {
    severity == "debug"@ || severity == "info"@ || severity == "warn"@ || severity == "error"@
        || severity == "critical"@
}

/// Validate event category.
pub fn validate_category(category: &str) -> (valid: bool)
    ensures
        valid == is_category(category@),
{
    same_text(category, "web") || same_text(category, "iot") || same_text(category, "app")
        || same_text(category, "ops") || same_text(category, "security")
}

/// Validate source type.
pub fn validate_source_type(source_type: &str) -> (valid: bool)
    ensures
        valid == is_source_type(source_type@),
{
    same_text(source_type, "browser") || same_text(source_type, "edge_device") || same_text(
        source_type,
        "server",
    ) || same_text(source_type, "mobile")
}

/// Validate severity.
pub fn validate_severity(severity: &str) -> (valid: bool)
    ensures
        valid == is_severity(severity@),
{
    same_text(severity, "debug") || same_text(severity, "info") || same_text(severity, "warn")
        || same_text(severity, "error") || same_text(severity, "critical")
}

} // verus!
