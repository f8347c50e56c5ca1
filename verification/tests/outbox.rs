use mcp_multi_tool::metrics::Metrics;
use mcp_multi_tool::outbox::{
    after_fallback, frame_line, AppendError, AppendStep, Outbox, Write, INSERT_SQL, SCHEMA_SQL,
};
use uuid::Uuid;

#[test]
fn file_backend_plans_one_framed_line() {
    let outbox = Outbox::file("data/events.jsonl".into(), "data/dlq.jsonl".into());
    assert_eq!("file", outbox.backend_description());
    assert_eq!(outbox.dlq_path(), "data/dlq.jsonl");
    match outbox.begin_append("{\"payload\":\"hello\"}", None) {
        Write::AppendLine { path, text } => {
            assert_eq!(path, "data/events.jsonl");
            assert_eq!(text, "{\"payload\":\"hello\"}\n");
        }
        other => panic!("expected a line, got {:?}", other),
    }
    assert_eq!(frame_line(""), "\n");
}

#[test]
fn sqlite_backend_plans_one_row() {
    let outbox = Outbox::sqlite("data/outbox.db".into(), "data/dlq.jsonl".into());
    assert_eq!("sqlite", outbox.backend_description());
    let id = Uuid::new_v4();
    match outbox.begin_append("{}", Some(id)) {
        Write::InsertRow { db_path, event_id, payload } => {
            assert_eq!(db_path, "data/outbox.db");
            assert_eq!(event_id, id);
            assert_eq!(payload, "{}");
        }
        other => panic!("expected a row, got {:?}", other),
    }
    // an event without an identifier is filed under a new one
    let first = outbox.begin_append("{}", None);
    let second = outbox.begin_append("{}", None);
    match (first, second) {
        (Write::InsertRow { event_id: a, .. }, Write::InsertRow { event_id: b, .. }) => {
            assert_ne!(a, b)
        }
        other => panic!("expected rows, got {:?}", other),
    }
    assert!(SCHEMA_SQL.contains("journal_mode = WAL"));
    assert!(SCHEMA_SQL.contains("outbox_events"));
    assert!(INSERT_SQL.contains("outbox_events"));
}

#[test]
fn successful_append_is_counted() {
    let outbox = Outbox::file("main".into(), "dlq".into());
    let mut metrics = Metrics::new();
    assert!(matches!(outbox.after_primary("{}", Ok(()), &mut metrics), AppendStep::Done));
    assert_eq!(metrics.outbox_backlog, 1);
    assert!(matches!(outbox.after_primary("{}", Ok(()), &mut metrics), AppendStep::Done));
    assert_eq!(metrics.outbox_backlog, 2);
}

#[test]
fn file_backend_fallbacks_to_dlq() {
    let outbox = Outbox::file("primary_dir".into(), "dlq.jsonl".into());
    let mut metrics = Metrics::new();
    let line = "{\"payload\":\"fallback\"}";
    let step = outbox.after_primary(line, Err("is a directory".into()), &mut metrics);
    assert_eq!(metrics.outbox_backlog, 0);
    let (write, primary_error) = match step {
        AppendStep::Fallback { write, primary_error } => (write, primary_error),
        AppendStep::Done => panic!("primary append should fail for directory path"),
    };
    match write {
        Write::AppendLine { path, text } => {
            assert_eq!(path, "dlq.jsonl");
            assert!(text.contains("fallback"));
            assert_eq!(text, "{\"payload\":\"fallback\"}\n");
        }
        other => panic!("expected a line, got {:?}", other),
    }
    // the append fails with the primary error once the line is in the fallback
    let result = after_fallback(primary_error, Ok(()));
    match result {
        Err(AppendError::Primary(message)) => assert_eq!(message, "is a directory"),
        other => panic!("expected the primary error, got {:?}", other),
    }
}

#[test]
fn fallback_failure_escalates() {
    let result = after_fallback("primary".into(), Err("dlq".into()));
    match result {
        Err(error) => {
            assert_eq!(error.message(), "write outbox DLQ after primary failure");
            match error {
                AppendError::Fallback { primary, dlq } => {
                    assert_eq!(primary, "primary");
                    assert_eq!(dlq, "dlq");
                }
                other => panic!("expected both errors, got {:?}", other),
            }
        }
        Ok(()) => panic!("an append whose primary write failed never succeeds"),
    }
    assert_eq!(AppendError::Primary("p".into()).message(), "p");
}

#[test]
fn sqlite_backend_falls_back_to_a_line() {
    let outbox = Outbox::sqlite("db".into(), "dlq.jsonl".into());
    let mut metrics = Metrics::new();
    match outbox.after_primary("{\"a\":1}", Err("locked".into()), &mut metrics) {
        AppendStep::Fallback { write: Write::AppendLine { path, text }, primary_error } => {
            assert_eq!(path, "dlq.jsonl");
            assert_eq!(text, "{\"a\":1}\n");
            assert_eq!(primary_error, "locked");
        }
        other => panic!("expected the fallback line, got {:?}", other),
    }
}

#[test]
fn sqlite_backend_appends() {
    let outbox = Outbox::sqlite(":memory:".into(), "dlq.jsonl".into());
    assert_eq!("sqlite", outbox.backend_description());
    let conn = rusqlite::Connection::open_in_memory().expect("open");
    conn.execute_batch(SCHEMA_SQL).expect("schema");
    let id = Uuid::new_v4();
    let line = "{\"event_id\":\"x\",\"payload\":\"world\"}";
    match outbox.begin_append(line, Some(id)) {
        Write::InsertRow { event_id, payload, .. } => {
            conn.execute(INSERT_SQL, (event_id.to_string(), payload))
                .expect("insert");
        }
        other => panic!("expected a row, got {:?}", other),
    }
    let count: i64 = conn
        .query_row("SELECT COUNT(*) FROM outbox_events", [], |row| row.get(0))
        .expect("count");
    assert_eq!(1, count);
    let (stored_id, stored_payload): (String, String) = conn
        .query_row("SELECT event_id, payload FROM outbox_events", [], |row| {
            Ok((row.get(0)?, row.get(1)?))
        })
        .expect("row");
    assert_eq!(stored_id, id.to_string());
    assert_eq!(stored_payload, line);
}
