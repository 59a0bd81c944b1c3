//! Opening the store: what the options ask for.

use crate::error::TaskError;
use vstd::prelude::*;

verus! {

/// The options for opening a store.
#[derive(Clone, Copy, Debug, PartialEq, Eq, Structural)]
pub struct DBOptions {
    pub readonly: bool,
}

/// How a store is opened.
#[derive(Clone, Copy, Debug, PartialEq, Eq, Structural)]
pub enum OpenMode {
    /// For reading only. A store that is missing is not created.
    ReadOnly,
    /// For reading and writing. A store that is missing is created.
    ReadWrite,
}

/// A store to open: where it lies and how to open it.
#[derive(Clone, Debug, PartialEq, Eq)]
pub struct OpenRequest {
    pub path: String,
    pub mode: OpenMode,
}

/// The mode that the options ask for. Without options a store is opened
/// for reading and writing.
pub open spec fn open_mode(opts: Option<DBOptions>) -> OpenMode {
    match opts {
        Some(DBOptions { readonly: true }) => OpenMode::ReadOnly,
        _ => OpenMode::ReadWrite,
    }
}

/// Works out how the store at `path` is to be opened under `opts`.
pub fn create_db(path: String, opts: Option<DBOptions>) -> (request: OpenRequest)
    ensures
        request.path == path,
        request.mode == open_mode(opts),
{
    let readonly = match opts {
        Some(options) => options.readonly,
        None => false,
    };
    let mode = if readonly {
        OpenMode::ReadOnly
    } else {
        OpenMode::ReadWrite
    };
    OpenRequest { path, mode }
}

/// What opening a store amounts to: the handle that was obtained, or
/// `StoreOpen` with the store's message.
pub open spec fn open_result<H>(outcome: Result<H, String>) -> Result<H, TaskError> {
    match outcome {
        Ok(handle) => Ok(handle),
        Err(message) => Err(TaskError::StoreOpen(message)),
    }
}

/// Turns the outcome of opening a store into the result of the request.
/// `outcome` is the handle of the open store, or the message with which the
/// store refused.
pub fn opened<H>(outcome: Result<H, String>) -> (result: Result<H, TaskError>)
    ensures
        result == open_result(outcome),
{
    match outcome {
        Ok(handle) => Ok(handle),
        Err(message) => Err(TaskError::StoreOpen(message)),
    }
}

} // verus!
