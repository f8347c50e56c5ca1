//! The outbox: which write an append asks for, and what follows when it fails.

use vstd::prelude::*;
use vstd::string::StringExecFns;
use crate::ids::fresh_uuid;
use crate::metrics::{increment_outbox_backlog, Metrics, MetricsView};

verus! {

/// Where the journal is kept.
#[derive(Debug)]
pub enum Backend {
    /// A file of JSON lines.
    File { main_path: String },
    /// The table `outbox_events` of a SQLite database.
    Sqlite { db_path: String },
}

/// What a `Backend` stands for in contracts.
pub enum BackendView {
    File { main_path: Seq<char> },
    Sqlite { db_path: Seq<char> },
}

impl View for Backend {
    type V = BackendView;

    open spec fn view(&self) -> BackendView {
        match self {
            Backend::File { main_path } => BackendView::File { main_path: main_path@ },
            Backend::Sqlite { db_path } => BackendView::Sqlite { db_path: db_path@ },
        }
    }
}

/// The statement that makes the table of the journal.
pub const SCHEMA_SQL: &'static str =
    "PRAGMA journal_mode = WAL; CREATE TABLE IF NOT EXISTS outbox_events (id INTEGER PRIMARY KEY AUTOINCREMENT, event_id TEXT NOT NULL, payload TEXT NOT NULL, created_at TEXT NOT NULL DEFAULT (strftime('%Y-%m-%dT%H:%M:%fZ','now')));";

/// The statement that appends one event to the table.
pub const INSERT_SQL: &'static str =
    "INSERT INTO outbox_events (event_id, payload) VALUES (?1, ?2)";

/// One write that the journal asks for.
#[derive(Debug)]
pub enum Write {
    /// Append the text to the file, creating the file where it is missing, and
    /// flush it to disk.
    AppendLine { path: String, text: String },
    /// Insert one row into the table of the database.
    InsertRow { db_path: String, event_id: uuid::Uuid, payload: String },
}

/// What a `Write` stands for in contracts.
pub enum WriteView {
    AppendLine { path: Seq<char>, text: Seq<char> },
    InsertRow { db_path: Seq<char>, event_id: uuid::Uuid, payload: Seq<char> },
}

impl View for Write {
    type V = WriteView;

    open spec fn view(&self) -> WriteView {
        match self {
            Write::AppendLine { path, text } => WriteView::AppendLine { path: path@, text: text@ },
            Write::InsertRow { db_path, event_id, payload } => WriteView::InsertRow {
                db_path: db_path@,
                event_id: *event_id,
                payload: payload@,
            },
        }
    }
}

/// Why an event is not in the primary journal.
#[derive(Debug)]
pub enum AppendError {
    /// The primary write failed, and the event is in the fallback journal.
    Primary(String),
    /// The primary write and the write to the fallback journal both failed.
    Fallback { primary: String, dlq: String },
}

/// What a `AppendError` stands for in contracts.
pub enum AppendErrorView {
    Primary(Seq<char>),
    Fallback { primary: Seq<char>, dlq: Seq<char> },
}

impl View for AppendError {
    type V = AppendErrorView;

    open spec fn view(&self) -> AppendErrorView {
        match self {
            AppendError::Primary(primary) => AppendErrorView::Primary(primary@),
            AppendError::Fallback { primary, dlq } => AppendErrorView::Fallback {
                primary: primary@,
                dlq: dlq@,
            },
        }
    }
}

impl AppendError {
    /// The message of the error: that of the primary write, or that the fallback
    /// failed after it.
    pub fn message(&self) -> (text: String)
        ensures
            text@ == match self@ {
                AppendErrorView::Primary(primary) => primary,
                AppendErrorView::Fallback { .. } => "write outbox DLQ after primary failure"@,
            },
    {
        match self {
            AppendError::Primary(primary) => primary.clone(),
            AppendError::Fallback { .. } => String::from_str(
                "write outbox DLQ after primary failure",
            ),
        }
    }
}

/// What follows the primary write.
#[derive(Debug)]
pub enum AppendStep {
    /// The event is in the primary journal.
    Done,
    /// The primary write failed: the same line goes to the fallback journal.
    Fallback { write: Write, primary_error: String },
}

/// One JSON document as a line of the journal.
pub open spec fn framed(line: Seq<char>) -> Seq<char> {
    line + "\n"@
}

/// Ends a JSON document with a line feed.
pub fn frame_line(line: &str) -> (text: String)
    ensures
        text@ == framed(line@),
{
    let mut text = String::from_str(line);
    text.append("\n");
    text
}

/// Append-only journal of events, with a fallback file of JSON lines.
#[derive(Debug)]
pub struct Outbox {
    backend: Backend,
    dlq_path: String,
}

/// What a `Outbox` stands for in contracts.
pub struct OutboxView {
    pub backend: BackendView,
    pub dlq_path: Seq<char>,
}

impl View for Outbox {
    type V = OutboxView;

    closed spec fn view(&self) -> OutboxView {
        OutboxView { backend: self.backend@, dlq_path: self.dlq_path@ }
    }
}

impl OutboxView {
    /// The primary write for a line.
    pub open spec fn primary_write(self, line: Seq<char>, event_id: uuid::Uuid) -> WriteView {
        match self.backend {
            BackendView::File { main_path } => WriteView::AppendLine {
                path: main_path,
                text: framed(line),
            },
            BackendView::Sqlite { db_path } => WriteView::InsertRow {
                db_path,
                event_id,
                payload: line,
            },
        }
    }

    /// The write of a line to the fallback journal.
    pub open spec fn fallback_write(self, line: Seq<char>) -> WriteView {
        WriteView::AppendLine { path: self.dlq_path, text: framed(line) }
    }
}

impl Outbox {
    /// A journal in a file of JSON lines.
    pub fn file(main_path: String, dlq_path: String) -> (outbox: Self)
        ensures
            outbox@ == (OutboxView {
                backend: BackendView::File { main_path: main_path@ },
                dlq_path: dlq_path@,
            }),
    {
        Outbox { backend: Backend::File { main_path }, dlq_path }
    }

    /// A journal in a SQLite database.
    pub fn sqlite(db_path: String, dlq_path: String) -> (outbox: Self)
        ensures
            outbox@ == (OutboxView {
                backend: BackendView::Sqlite { db_path: db_path@ },
                dlq_path: dlq_path@,
            }),
    {
        Outbox { backend: Backend::Sqlite { db_path }, dlq_path }
    }

    /// The name of the backend: `file` or `sqlite`.
    pub fn backend_description(&self) -> (name: &'static str)
        ensures
            name@ == match self@.backend {
                BackendView::File { .. } => "file"@,
                BackendView::Sqlite { .. } => "sqlite"@,
            },
    {
        match &self.backend {
            Backend::File { .. } => "file",
            Backend::Sqlite { .. } => "sqlite",
        }
    }

    /// The path of the fallback journal.
    pub fn dlq_path(&self) -> (path: &str)
        ensures
            path@ == self@.dlq_path,
    {
        self.dlq_path.as_str()
    }

    /// The primary write for an event that serialises to `line`. A row of the
    /// database is filed under the event's own identifier, or a new one where the
    /// event has none.
    pub fn begin_append(&self, line: &str, event_id: Option<uuid::Uuid>) -> (write: Write)
        ensures
            match event_id {
                Some(id) => write@ == self@.primary_write(line@, id),
                None => exists|id: uuid::Uuid| write@ == self@.primary_write(line@, id),
            },
    {
        match &self.backend {
            Backend::File { main_path } => {
                let write = Write::AppendLine { path: main_path.clone(), text: frame_line(line) };
                proof {
                    if event_id.is_none() {
                        let id: uuid::Uuid = arbitrary();
                        assert(write@ == self@.primary_write(line@, id));
                    }
                }
                write
            },
            Backend::Sqlite { db_path } => {
                let id = match event_id {
                    Some(id) => id,
                    None => fresh_uuid(),
                };
                Write::InsertRow {
                    db_path: db_path.clone(),
                    event_id: id,
                    payload: String::from_str(line),
                }
            },
        }
    }

    /// Decides what follows the primary write of `line`. Success is counted and ends
    /// the append; failure sends the same line to the fallback journal.
    pub fn after_primary(
        &self,
        line: &str,
        primary: Result<(), String>,
        metrics: &mut Metrics,
    ) -> (step: AppendStep)
        ensures
            match primary {
                Ok(_) => step is Done && final(metrics)@ == (MetricsView {
                    outbox_backlog: old(metrics).outbox_backlog.wrapping_add(1),
                    ..old(metrics)@
                }),
                Err(error) => step matches AppendStep::Fallback { write, primary_error }
                    && write@ == self@.fallback_write(line@) && primary_error@ == error@
                    && final(metrics)@ == old(metrics)@,
            },
    {
        match primary {
            Ok(_) => {
                increment_outbox_backlog(metrics);
                AppendStep::Done
            },
            Err(error) => AppendStep::Fallback {
                write: Write::AppendLine { path: self.dlq_path.clone(), text: frame_line(line) },
                primary_error: error,
            },
        }
    }
}

/// The outcome of an append whose primary write failed: an error in either case,
/// the primary one where the fallback journal took the line.
pub fn after_fallback(primary_error: String, dlq: Result<(), String>) -> (outcome: Result<
    (),
    AppendError,
>)
    ensures
        outcome is Err,
        outcome->Err_0@ == match dlq {
            Ok(_) => AppendErrorView::Primary(primary_error@),
            Err(error) => AppendErrorView::Fallback { primary: primary_error@, dlq: error@ },
        },
{
    match dlq {
        Ok(_) => Err(AppendError::Primary(primary_error)),
        Err(error) => Err(AppendError::Fallback { primary: primary_error, dlq: error }),
    }
}

} // verus!
