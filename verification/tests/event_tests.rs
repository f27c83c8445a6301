use edge_kite::config::{
    default_batch_size, default_cleanup_hour, default_data_dir, default_listen,
    default_max_retries, default_media_days, default_retention_days, default_retry_delay,
    default_sync_interval, default_true, Config, RetentionConfig, ServerConfig, SyncConfig,
};
use edge_kite::db::Database;
use edge_kite::event::{
    clone_opt_text, default_retention_class, default_severity, parse_attachment,
    parse_attachments, same_text, validate_category, validate_severity, validate_source_type,
    Correlation, EventDetails, IncomingEvent, Privacy, Source, SyncStatus,
};
use edge_kite::server::{
    batch_response, count_or, ingest_batch, ingest_event, rejection, response_status,
    single_response, validate, IngestResponse, STATUS_ACCEPTED, STATUS_FAILED,
};
use edge_kite::error::AgentError;
use tempfile::tempdir;

fn incoming(id: Option<&str>, category: &str) -> IncomingEvent {
    IncomingEvent {
        event_id: id.map(|s| s.to_string()),
        observed_at: Some(1_700_000_000_000),
        source: Source {
            source_type: "mobile".to_string(),
            id: "phone-1".to_string(),
            version: None,
            metadata: None,
        },
        event: EventDetails {
            category: category.to_string(),
            event_type: "tap".to_string(),
            severity: default_severity(),
            schema_version: None,
            data: "{\"x\":1}".to_string(),
        },
        correlation: None,
        attachments: None,
        privacy: None,
    }
}

fn open_store(dir: &tempfile::TempDir) -> Database {
    let db_path = dir.path().join("test.db");
    let mut db = Database::open(db_path.to_str().unwrap()).unwrap();
    db.migrate().unwrap();
    db
}

#[test]
fn categories_are_enumerated() {
    for ok in ["web", "iot", "app", "ops", "security"] {
        assert!(validate_category(ok));
    }
    for bad in ["", "Web", "web ", "network", "securit", "securityx"] {
        assert!(!validate_category(bad));
    }
}

#[test]
fn source_types_are_enumerated() {
    for ok in ["browser", "edge_device", "server", "mobile"] {
        assert!(validate_source_type(ok));
    }
    for bad in ["", "Browser", "edge-device", "desktop"] {
        assert!(!validate_source_type(bad));
    }
}

#[test]
fn severities_are_enumerated() {
    for ok in ["debug", "info", "warn", "error", "critical"] {
        assert!(validate_severity(ok));
    }
    for bad in ["", "warning", "INFO", "fatal"] {
        assert!(!validate_severity(bad));
    }
}

#[test]
fn text_helpers() {
    assert!(same_text("abc", "abc"));
    assert!(!same_text("abc", "abd"));
    assert!(!same_text("abc", "ab"));
    assert!(same_text("", ""));
    assert_eq!(clone_opt_text(&Some("x".to_string())), Some("x".to_string()));
    assert_eq!(clone_opt_text(&None), None);
}

#[test]
fn event_defaults() {
    assert_eq!(default_severity(), "info");
    assert_eq!(default_retention_class(), "standard");
    let privacy = Privacy::default();
    assert!(!privacy.pii);
    assert_eq!(privacy.retention_class, "standard");
    assert_eq!(SyncStatus::default(), SyncStatus { synced: false, source_seq: None });
    let correlation = Correlation::default();
    assert!(correlation.correlation_id.is_none());
    assert!(correlation.session_id.is_none());
    assert!(correlation.incident_id.is_none());
}

#[test]
fn envelope_keeps_what_the_producer_gave() {
    let mut envelope = incoming(Some("given"), "app");
    envelope.privacy = Some(Privacy { pii: true, retention_class: "short".to_string() });
    envelope.attachments = Some("[]".to_string());
    let event = envelope.into_event_with("generated".to_string(), 5);
    assert_eq!(event.event_id, "given");
    assert_eq!(event.observed_at, 1_700_000_000_000);
    assert_eq!(event.received_at, 5);
    assert_eq!(event.source.id, "phone-1");
    assert_eq!(event.event.category, "app");
    assert_eq!(event.event.data, "{\"x\":1}");
    assert_eq!(event.attachments.as_deref(), Some("[]"));
    assert!(event.privacy.unwrap().pii);
    assert_eq!(event.sync, Some(SyncStatus { synced: false, source_seq: None }));
}

#[test]
fn envelope_gets_what_the_producer_left_out() {
    let mut envelope = incoming(None, "web");
    envelope.observed_at = None;
    let event = envelope.into_event_with("generated".to_string(), 77);
    assert_eq!(event.event_id, "generated");
    assert_eq!(event.observed_at, 77);
    assert_eq!(event.received_at, 77);
    assert_eq!(event.sync, Some(SyncStatus { synced: false, source_seq: None }));
}

#[test]
fn envelope_without_id_gets_a_fresh_one_each_time() {
    let before = chrono::Utc::now().timestamp_millis();
    let mut first = incoming(None, "web");
    first.observed_at = None;
    let first = first.into_event();
    let second = incoming(None, "web").into_event();
    let after = chrono::Utc::now().timestamp_millis();

    assert!(!first.event_id.is_empty());
    assert_ne!(first.event_id, second.event_id);
    assert!(uuid::Uuid::parse_str(&first.event_id).is_ok());
    assert!(before <= first.received_at && first.received_at <= after);
    assert_eq!(first.observed_at, first.received_at);
    assert_eq!(second.observed_at, 1_700_000_000_000);
    assert!(before <= second.received_at && second.received_at <= after);

    let given = incoming(Some("mine"), "web").into_event();
    assert_eq!(given.event_id, "mine");
}

#[test]
fn validation_names_the_first_objection() {
    assert!(validate(&incoming(None, "iot")).is_ok());

    match validate(&incoming(None, "weather")) {
        Err(AgentError::InvalidEvent(reason)) => assert_eq!(reason, "unknown category: weather"),
        other => panic!("unexpected {:?}", other),
    }
    let mut envelope = incoming(None, "weather");
    envelope.source.source_type = "toaster".to_string();
    envelope.event.severity = "loud".to_string();
    match validate(&envelope) {
        Err(AgentError::InvalidEvent(reason)) => assert_eq!(reason, "unknown category: weather"),
        other => panic!("unexpected {:?}", other),
    }
    envelope.event.category = "iot".to_string();
    match validate(&envelope) {
        Err(AgentError::InvalidEvent(reason)) => assert_eq!(reason, "unknown source type: toaster"),
        other => panic!("unexpected {:?}", other),
    }
    envelope.source.source_type = "server".to_string();
    match validate(&envelope) {
        Err(AgentError::InvalidEvent(reason)) => assert_eq!(reason, "unknown severity: loud"),
        other => panic!("unexpected {:?}", other),
    }
}

#[test]
fn ingest_records_an_acceptable_event() {
    let dir = tempdir().unwrap();
    let mut db = open_store(&dir);

    let response = ingest_event(&mut db, incoming(Some("one"), "web"));
    assert_eq!(response.accepted, vec!["one"]);
    assert!(response.rejected.is_empty());
    assert_eq!(db.event_count().unwrap(), 1);

    // The same call again is accepted and stores nothing new.
    let response = ingest_event(&mut db, incoming(Some("one"), "web"));
    assert_eq!(response.accepted, vec!["one"]);
    assert_eq!(db.event_count().unwrap(), 1);

    let response = ingest_event(&mut db, incoming(None, "web"));
    assert_eq!(response.accepted.len(), 1);
    assert_eq!(db.event_count().unwrap(), 2);
    let stored = db.get_unsynced_events(10).unwrap();
    assert!(stored.iter().any(|e| e.event_id == response.accepted[0]));
}

#[test]
fn ingest_rejects_an_unknown_category_without_storing() {
    let dir = tempdir().unwrap();
    let mut db = open_store(&dir);
    let response = ingest_event(&mut db, incoming(Some("odd"), "weather"));
    assert!(response.accepted.is_empty());
    assert_eq!(response.rejected.len(), 1);
    assert_eq!(response.rejected[0].event_id.as_deref(), Some("odd"));
    assert_eq!(response.rejected[0].reason, "Invalid event: unknown category: weather");
    assert_eq!(db.event_count().unwrap(), 0);
}

#[test]
fn ingest_reports_a_store_failure() {
    let dir = tempdir().unwrap();
    let db_path = dir.path().join("bare.db");
    let mut db = Database::open(db_path.to_str().unwrap()).unwrap();
    let response = ingest_event(&mut db, incoming(Some("one"), "web"));
    assert!(response.accepted.is_empty());
    assert_eq!(response.rejected.len(), 1);
    assert_eq!(response.rejected[0].event_id.as_deref(), Some("one"));
    assert!(response.rejected[0].reason.starts_with("Database error: "));

    let batch = vec![incoming(Some("one"), "web"), incoming(None, "nope"), incoming(None, "iot")];
    let response = ingest_batch(&mut db, batch);
    assert!(response.accepted.is_empty());
    assert_eq!(response.rejected.len(), 3);
    assert_eq!(response.rejected[0].event_id, None);
    assert_eq!(response.rejected[0].reason, "Invalid event: unknown category: nope");
    assert_eq!(response.rejected[1].event_id.as_deref(), Some("one"));
    assert!(response.rejected[1].reason.starts_with("Database error: "));
    assert!(response.rejected[2].event_id.is_some());
    assert!(response.rejected[2].reason.starts_with("Database error: "));
}

#[test]
fn ingest_reports_an_unreadable_payload() {
    let dir = tempdir().unwrap();
    let mut db = open_store(&dir);
    let mut envelope = incoming(Some("one"), "web");
    envelope.event.data = "{".to_string();
    let response = ingest_event(&mut db, envelope);
    assert!(response.accepted.is_empty());
    assert_eq!(response.rejected[0].event_id.as_deref(), Some("one"));
    assert!(response.rejected[0].reason.starts_with("JSON error: "));
    assert_eq!(db.event_count().unwrap(), 0);
}

#[test]
fn batch_ingest_answers_for_every_event() {
    let dir = tempdir().unwrap();
    let mut db = open_store(&dir);

    let batch = vec![incoming(Some("a"), "web"), incoming(None, "ops"), incoming(Some("c"), "iot")];
    let response = ingest_batch(&mut db, batch);
    assert!(response.rejected.is_empty());
    assert_eq!(response.accepted.len(), 3);
    assert_eq!(response.accepted[0], "a");
    assert_eq!(response.accepted[2], "c");
    assert_eq!(db.event_count().unwrap(), 3);

    // A repeated batch is accepted again, event by event, and stores nothing new.
    let again = vec![incoming(Some("a"), "web"), incoming(Some("d"), "web")];
    let response = ingest_batch(&mut db, again);
    assert_eq!(response.accepted, vec!["a", "d"]);
    assert_eq!(db.event_count().unwrap(), 4);

    // The acceptable events of a batch are stored and accepted, the others rejected.
    let mixed = vec![
        incoming(Some("x"), "web"),
        incoming(Some("y"), "weather"),
        incoming(None, "sports"),
        incoming(Some("z"), "app"),
    ];
    let response = ingest_batch(&mut db, mixed);
    assert_eq!(response.accepted, vec!["x", "z"]);
    assert_eq!(response.rejected.len(), 2);
    assert_eq!(response.rejected[0].event_id.as_deref(), Some("y"));
    assert_eq!(response.rejected[0].reason, "Invalid event: unknown category: weather");
    assert_eq!(response.rejected[1].event_id, None);
    assert_eq!(response.rejected[1].reason, "Invalid event: unknown category: sports");
    assert_eq!(db.event_count().unwrap(), 6);
    let stored: Vec<String> =
        db.get_unsynced_events(10).unwrap().into_iter().map(|e| e.event_id).collect();
    assert!(stored.contains(&"x".to_string()) && stored.contains(&"z".to_string()));
    assert!(!stored.contains(&"y".to_string()));

    // No acceptable event: the store is not asked.
    let none = vec![incoming(Some("y"), "weather")];
    let response = ingest_batch(&mut db, none);
    assert!(response.accepted.is_empty());
    assert_eq!(response.rejected.len(), 1);
    assert_eq!(db.event_count().unwrap(), 6);

    let response = ingest_batch(&mut db, Vec::new());
    assert!(response.accepted.is_empty());
    assert!(response.rejected.is_empty());
}

#[test]
fn batch_with_unreadable_payload_rejects_each_acceptable_event() {
    let dir = tempdir().unwrap();
    let mut db = open_store(&dir);
    let mut broken = incoming(Some("broken"), "web");
    broken.event.data = "{".to_string();
    let batch = vec![incoming(Some("fine"), "web"), incoming(Some("odd"), "weather"), broken];
    let response = ingest_batch(&mut db, batch);
    assert!(response.accepted.is_empty());
    assert_eq!(response.rejected.len(), 3);
    assert_eq!(response.rejected[0].event_id.as_deref(), Some("odd"));
    assert_eq!(response.rejected[1].event_id.as_deref(), Some("fine"));
    assert!(response.rejected[1].reason.starts_with("JSON error: "));
    assert_eq!(response.rejected[2].event_id.as_deref(), Some("broken"));
    assert!(response.rejected[2].reason.starts_with("JSON error: "));
    assert_eq!(db.event_count().unwrap(), 0);
}

#[test]
fn responses_follow_the_store_answer() {
    let ok = single_response("id".to_string(), Ok(()));
    assert_eq!(ok.accepted, vec!["id"]);
    assert!(ok.rejected.is_empty());
    let failed = single_response("id".to_string(), Err(AgentError::InvalidEvent("why".to_string())));
    assert!(failed.accepted.is_empty());
    assert_eq!(failed.rejected[0].event_id.as_deref(), Some("id"));
    assert_eq!(failed.rejected[0].reason, "Invalid event: why");

    let objected = || vec![rejection(None, &AgentError::InvalidEvent("odd".to_string()))];
    let ids = vec!["a".to_string(), "b".to_string()];
    let ok = batch_response(ids.clone(), Ok(1), objected());
    assert_eq!(ok.accepted, ids);
    assert_eq!(ok.rejected.len(), 1);
    assert_eq!(ok.rejected[0].reason, "Invalid event: odd");
    let failed =
        batch_response(ids, Err(AgentError::InvalidEvent("why".to_string())), objected());
    assert!(failed.accepted.is_empty());
    assert_eq!(failed.rejected.len(), 3);
    assert_eq!(failed.rejected[0].reason, "Invalid event: odd");
    assert_eq!(failed.rejected[1].event_id.as_deref(), Some("a"));
    assert_eq!(failed.rejected[1].reason, "Invalid event: why");
    assert_eq!(failed.rejected[2].event_id.as_deref(), Some("b"));
    let empty = batch_response(Vec::new(), Ok(0), Vec::new());
    assert!(empty.accepted.is_empty() && empty.rejected.is_empty());
}

#[test]
fn counts_for_reports() {
    let dir = tempdir().unwrap();
    let db_path = dir.path().join("test.db");
    let mut db = Database::open(db_path.to_str().unwrap()).unwrap();
    assert_eq!(count_or(Ok(4), -1), 4);
    assert_eq!(count_or(Err(AgentError::InvalidEvent("x".to_string())), -1), -1);
    assert_eq!(count_or(db.event_count(), -1), -1);
    assert_eq!(count_or(db.pending_sync_count(), 0), 0);
    db.migrate().unwrap();
    ingest_event(&mut db, incoming(Some("a"), "web"));
    ingest_event(&mut db, incoming(Some("b"), "web"));
    db.mark_synced(&["a".to_string()]).unwrap();
    assert_eq!(count_or(db.event_count(), -1), 2);
    assert_eq!(count_or(db.pending_sync_count(), -1), 1);
}

#[test]
fn configuration_defaults() {
    assert_eq!(default_data_dir(), "./data");
    assert_eq!(default_listen(), "0.0.0.0:8080");
    assert!(default_true());
    assert_eq!(default_batch_size(), 100);
    assert_eq!(default_sync_interval(), 30);
    assert_eq!(default_max_retries(), 10);
    assert_eq!(default_retry_delay(), 1000);
    assert_eq!(default_retention_days(), 30);
    assert_eq!(default_media_days(), 7);
    assert_eq!(default_cleanup_hour(), 3);

    let server = ServerConfig::default();
    assert_eq!(server.listen, "0.0.0.0:8080");
    assert!(server.cors_enabled);
    assert!(server.ui_path.is_none());

    let sync = SyncConfig::default();
    assert!(!sync.enabled);
    assert_eq!(sync.hub_url, "");
    assert_eq!(sync.api_key, "");
    assert_eq!(sync.batch_size, 100);
    assert_eq!(sync.interval_seconds, 30);
    assert_eq!(sync.retry_max_attempts, 10);
    assert_eq!(sync.retry_base_delay_ms, 1000);

    assert_eq!(
        RetentionConfig::default(),
        RetentionConfig { events_days: 30, media_days: 7, cleanup_hour: 3 }
    );

    let config = Config::default();
    assert_eq!(config.data_dir, "./data");
    assert_eq!(config.server.listen, "0.0.0.0:8080");
    assert_eq!(config.sync.batch_size, 100);
    assert_eq!(config.retention.cleanup_hour, 3);
}

#[test]
fn command_line_overrides_the_file() {
    let config = Config::default().with_overrides(Some("/var/edge".to_string()), None);
    assert_eq!(config.data_dir, "/var/edge");
    assert_eq!(config.server.listen, "0.0.0.0:8080");

    let config = config.with_overrides(None, Some("127.0.0.1:9000".to_string()));
    assert_eq!(config.data_dir, "/var/edge");
    assert_eq!(config.server.listen, "127.0.0.1:9000");
    assert!(config.server.cors_enabled);
    assert_eq!(config.sync.retry_max_attempts, 10);

    let config = config.with_overrides(Some("a".to_string()), Some("b".to_string()));
    assert_eq!(config.data_dir, "a");
    assert_eq!(config.server.listen, "b");
}

#[test]
fn attachment_record_is_read_member_by_member() {
    let full = parse_attachment(
        "{\"kind\":\"clip\",\"uri\":\"s3://b/k\",\"sha256\":\"ab\",\"size_bytes\":1024,\"mime_type\":\"video/mp4\"}",
    )
    .unwrap();
    assert_eq!(full.kind, "clip");
    assert_eq!(full.uri, "s3://b/k");
    assert_eq!(full.sha256.as_deref(), Some("ab"));
    assert_eq!(full.size_bytes, Some(1024));
    assert_eq!(full.mime_type.as_deref(), Some("video/mp4"));

    let bare = parse_attachment(" { \"uri\" : \"u\" , \"kind\" : \"log\" , \"note\" : [1] } ").unwrap();
    assert_eq!(bare.kind, "log");
    assert_eq!(bare.uri, "u");
    assert_eq!(bare.sha256, None);
    assert_eq!(bare.size_bytes, None);
    assert_eq!(bare.mime_type, None);

    let nulls = parse_attachment(
        "{\"kind\":\"a\\n\\\"b\\u00e9\",\"uri\":\"\",\"sha256\":null,\"size_bytes\":null,\"mime_type\":null}",
    )
    .unwrap();
    assert_eq!(nulls.kind, "a\n\"b\u{e9}");
    assert_eq!(nulls.uri, "");
    assert_eq!(nulls.sha256, None);
    assert_eq!(nulls.size_bytes, None);

    let largest = parse_attachment("{\"kind\":\"k\",\"uri\":\"u\",\"size_bytes\":18446744073709551615}");
    assert_eq!(largest.unwrap().size_bytes, Some(u64::MAX));
    // A string that reads "null" is a string.
    let named = parse_attachment("{\"kind\":\"null\",\"uri\":\"u\",\"sha256\":\"null\"}").unwrap();
    assert_eq!(named.kind, "null");
    assert_eq!(named.sha256.as_deref(), Some("null"));

    for bad in [
        "",
        "{",
        "[]",
        "\"kind\"",
        "{}",
        "{\"kind\":\"k\"}",
        "{\"uri\":\"u\"}",
        "{\"kind\":null,\"uri\":\"u\"}",
        "{\"kind\":1,\"uri\":\"u\"}",
        "{\"kind\":\"k\",\"uri\":[\"u\"]}",
        "{\"kind\":\"k\",\"uri\":\"u\",\"sha256\":7}",
        "{\"kind\":\"k\",\"uri\":\"u\",\"mime_type\":false}",
        "{\"kind\":\"k\",\"uri\":\"u\",\"size_bytes\":\"1\"}",
        "{\"kind\":\"k\",\"uri\":\"u\",\"size_bytes\":-1}",
        "{\"kind\":\"k\",\"uri\":\"u\",\"size_bytes\":1.5}",
        "{\"kind\":\"k\",\"uri\":\"u\",\"size_bytes\":18446744073709551616}",
    ] {
        assert!(parse_attachment(bad).is_none(), "{}", bad);
    }
}

#[test]
fn attachments_are_a_list_of_records() {
    assert_eq!(parse_attachments("[]").unwrap().len(), 0);
    assert_eq!(parse_attachments(" [ ] ").unwrap().len(), 0);
    let two = parse_attachments(
        "[{\"kind\":\"log\",\"uri\":\"file:///x\"},{\"kind\":\"report\",\"uri\":\"file:///y\",\"size_bytes\":3}]",
    )
    .unwrap();
    assert_eq!(two.len(), 2);
    assert_eq!(two[0].kind, "log");
    assert_eq!(two[0].uri, "file:///x");
    assert_eq!(two[1].kind, "report");
    assert_eq!(two[1].size_bytes, Some(3));

    for bad in [
        "",
        "null",
        "{}",
        "{\"kind\":\"log\",\"uri\":\"u\"}",
        "[1]",
        "[null]",
        "[{\"kind\":\"log\",\"uri\":\"u\"},{}]",
        "[{\"kind\":\"log\",\"uri\":\"u\"}",
        "[[\"log\",\"u\"]]",
    ] {
        assert!(parse_attachments(bad).is_none(), "{}", bad);
    }
}

#[test]
fn status_follows_the_rejections() {
    assert_eq!(STATUS_ACCEPTED, 202);
    assert_eq!(STATUS_FAILED, 500);
    let nothing = IngestResponse { accepted: vec![], rejected: vec![] };
    assert_eq!(response_status(&nothing), 202);
    let accepted = IngestResponse { accepted: vec!["a".to_string()], rejected: vec![] };
    assert_eq!(response_status(&accepted), 202);
    let objected = rejection(None, &AgentError::InvalidEvent("odd".to_string()));
    let mixed = IngestResponse { accepted: vec!["a".to_string()], rejected: vec![objected.clone()] };
    assert_eq!(response_status(&mixed), 500);
    let rejected = IngestResponse { accepted: vec![], rejected: vec![objected] };
    assert_eq!(response_status(&rejected), 500);
}

#[test]
fn ingest_rejects_unreadable_attachments_by_name() {
    let dir = tempdir().unwrap();
    let mut db = open_store(&dir);
    let mut envelope = incoming(Some("att"), "web");
    envelope.attachments = Some("[{\"kind\":\"log\"}]".to_string());
    let response = ingest_event(&mut db, envelope);
    assert!(response.accepted.is_empty());
    assert_eq!(response.rejected.len(), 1);
    assert_eq!(response.rejected[0].event_id.as_deref(), Some("att"));
    assert_eq!(
        response.rejected[0].reason,
        "Invalid event: attachments are not a list of attachment records"
    );
    assert_eq!(db.event_count().unwrap(), 0);

    let mut envelope = incoming(Some("fine"), "web");
    envelope.attachments = Some("[{\"kind\":\"log\",\"uri\":\"u\"}]".to_string());
    let response = ingest_event(&mut db, envelope);
    assert_eq!(response.accepted, vec!["fine"]);
    assert_eq!(response_status(&response), 202);
    assert_eq!(db.event_count().unwrap(), 1);
}
