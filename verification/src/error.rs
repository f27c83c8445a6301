//! Error types of the event store.

use vstd::prelude::*;
use vstd::string::StringExecFns;

verus! {

/// A failure reported by SQLite: `rusqlite::Error`, carried through unread.
#[verifier::external_type_specification]
#[verifier::external_body]
pub struct ExSqliteError(rusqlite::Error);

/// A failure to read JSON text: `serde_json::Error`, carried through unread.
#[verifier::external_type_specification]
#[verifier::external_body]
pub struct ExJsonError(serde_json::Error);

/// Application error types.
#[derive(Debug)]
pub enum AgentError {
    /// The storage engine refused or failed an operation.
    Database(rusqlite::Error),
    /// A payload is not JSON text.
    Json(serde_json::Error),
    /// An event names a category, source type or severity that is not
    /// recognised, or its attachments are not a list of attachment records.
    InvalidEvent(String),
    /// The store gave an answer that is not what it was asked for.
    Storage(String),
}

/// The message of a storage failure, as `rusqlite::Error` displays it. The
/// wording is SQLite's and nothing is claimed of it.
#[verifier::external_body]
fn sqlite_message(e: &rusqlite::Error) -> String {
    e.to_string()
}

/// The message of a JSON failure, as `serde_json::Error` displays it. The
/// wording is the parser's and nothing is claimed of it.
#[verifier::external_body]
fn json_message(e: &serde_json::Error) -> String {
    e.to_string()
}

impl AgentError {
    /// Whether the error reports structured text that cannot be read: a
    /// payload that is not JSON text, or attachments that are not a list of
    /// attachment records.
    pub open spec fn unreadable(self) -> bool {
        self is Json || self is InvalidEvent
    }

    /// The words that introduce the message of each kind of error.
    pub open spec fn label(self) -> Seq<char> {
        match self {
            AgentError::Database(_) => "Database error: "@,
            AgentError::Json(_) => "JSON error: "@,
            AgentError::InvalidEvent(_) => "Invalid event: "@,
            AgentError::Storage(_) => "Storage error: "@,
        }
    }

    /// What the error says for itself, where the library wrote it; the
    /// wording of the storage engine and of the parser is theirs.
    pub open spec fn told(self) -> Option<Seq<char>> {
        match self {
            AgentError::Database(_) => None,
            AgentError::Json(_) => None,
            AgentError::InvalidEvent(reason) => Some(reason@),
            AgentError::Storage(reason) => Some(reason@),
        }
    }

    /// A human-readable reason: the kind of error, then its own message.
    pub fn message(&self) -> (text: String)
        ensures
            self.label().is_prefix_of(text@),
            self.told() matches Some(reason) ==> text@ == self.label() + reason,
    {
        match self {
            AgentError::Database(e) => String::from_str("Database error: ").concat(
                sqlite_message(e).as_str(),
            ),
            AgentError::Json(e) => String::from_str("JSON error: ").concat(json_message(e).as_str()),
            AgentError::InvalidEvent(reason) => String::from_str("Invalid event: ").concat(
                reason.as_str(),
            ),
            AgentError::Storage(reason) => String::from_str("Storage error: ").concat(
                reason.as_str(),
            ),
        }
    }
}

} // verus!
