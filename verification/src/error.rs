//! The ways in which a task fails.

use vstd::prelude::*;

verus! {

/// Why a task failed. The store's own message travels with the failures
/// that the store or the delivery channel caused.
#[derive(Clone, Debug, PartialEq, Eq)]
pub enum TaskError {
    /// The store could not be opened.
    StoreOpen(String),
    /// The store could not be locked or read.
    StoreRead(String),
    /// A point lookup found no value under its key.
    NotFound,
    /// The channel to the host refused a record.
    Dispatch(String),
}

impl TaskError {
    /// The text that describes the failure to the host.
    pub open spec fn reason(self) -> Seq<char> {
        match self {
            TaskError::StoreOpen(message) => message@,
            TaskError::StoreRead(message) => message@,
            TaskError::NotFound => "not found"@,
            TaskError::Dispatch(message) => message@,
        }
    }

    /// The text that describes the failure to the host: the message that
    /// came with it, or `not found`.
    pub fn message(&self) -> (text: String)
        ensures
            text@ == self.reason(),
    {
        match self {
            TaskError::StoreOpen(message) => message.clone(),
            TaskError::StoreRead(message) => message.clone(),
            TaskError::NotFound => "not found".to_owned(),
            TaskError::Dispatch(message) => message.clone(),
        }
    }
}

} // verus!
