//! Point lookup: one key, one read, and what the read amounts to.

use crate::error::TaskError;
use vstd::prelude::*;

verus! {

/// A lookup of the value stored under one key.
#[derive(Clone, Debug, PartialEq, Eq)]
pub struct AsyncGet {
    key: Vec<u8>,
}

impl View for AsyncGet {
    type V = Seq<u8>;

    closed spec fn view(&self) -> Seq<u8> {
        self.key@
    }
}

/// What a lookup reports for the outcome of its read: the value that was
/// found, `NotFound` where the store holds none, and the store's failure
/// with its message.
pub open spec fn lookup_result(
    read: Result<Option<Vec<u8>>, String>,
) -> Result<Vec<u8>, TaskError> {
    match read {
        Ok(Some(value)) => Ok(value),
        Ok(None) => Err(TaskError::NotFound),
        Err(message) => Err(TaskError::StoreRead(message)),
    }
}

/// Prepares the lookup of `key`.
pub fn get(key: Vec<u8>) -> (task: AsyncGet)
    ensures
        task@ == key@,
{
    AsyncGet { key }
}

impl AsyncGet {
    /// The key to read from the store.
    pub fn key(&self) -> (key: &[u8])
        ensures
            key@ == self@,
    {
        self.key.as_slice()
    }

    /// Turns the outcome of the read into the result of the lookup. `read`
    /// is what the store answered for `key()`: the value, `None` where the
    /// key is absent, or the message of the failure to lock or read the
    /// store.
    pub fn compute(
        &self,
        read: Result<Option<Vec<u8>>, String>,
    ) -> (result: Result<Vec<u8>, TaskError>)
        ensures
            result == lookup_result(read),
    {
        match read {
            Ok(Some(value)) => Ok(value),
            Ok(None) => Err(TaskError::NotFound),
            Err(message) => Err(TaskError::StoreRead(message)),
        }
    }
}

} // verus!
