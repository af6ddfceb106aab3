//! Errors of the storage layer.

use vstd::prelude::*;
use vstd::string::StringExecFns;

verus! {

/// What a storage operation can report in place of a result.
#[derive(Debug, PartialEq)]
pub enum KvError {
    /// No value under this table and key, for callers to whom presence is
    /// mandatory. The fields are the table and the key.
    NotFound(String, String),
    /// A backend failed. The fields are the operation, the table, the key and
    /// the cause.
    StorageError(&'static str, String, String, String),
}

impl KvError {
    /// The text of [`KvError::message`].
    pub open spec fn message_text(&self) -> Seq<char> {
        match *self {
            KvError::NotFound(table, key) => "Not found for table: "@ + table@ + ", key: "@ + key@,
            KvError::StorageError(command, table, key, cause) => "Cannot process command "@
                + command@ + " with table: "@ + table@ + ", key: "@ + key@ + ". Error: "@ + cause@,
        }
    }

    /// The error in words, with the table and the key it is about.
    pub fn message(&self) -> (text: String)
        ensures
            text@ == self.message_text(),
    {
        match self {
            KvError::NotFound(table, key) => {
                let mut text = String::from_str("Not found for table: ");
                text.append(table.as_str());
                text.append(", key: ");
                text.append(key.as_str());
                text
            },
            KvError::StorageError(command, table, key, cause) => {
                let mut text = String::from_str("Cannot process command ");
                text.append(command);
                text.append(" with table: ");
                text.append(table.as_str());
                text.append(", key: ");
                text.append(key.as_str());
                text.append(". Error: ");
                text.append(cause.as_str());
                text
            },
        }
    }
}

} // verus!
