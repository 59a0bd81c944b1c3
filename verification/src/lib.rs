//! The read path of an ordered byte-key store, as seen by a callback-driven
//! host: range scans that stream records one at a time, and point lookups.
//!
//! The library decides and the caller acts. It resolves the options of a
//! scan to a cursor position, decides at which record the scan halts, and
//! steps a scan from report to report until every record that was handed to
//! the host has been acknowledged. Opening the store, reading from it and
//! calling the host are left to the caller.

use vstd::prelude::*;

pub mod barrier;
pub mod error;
pub mod lookup;
pub mod order;
pub mod range;
pub mod scan;
pub mod session;
pub mod store;

pub use crate::barrier::WaitGroup;
pub use crate::error::TaskError;
pub use crate::lookup::{get, AsyncGet};
pub use crate::order::compare;
pub use crate::range::{
    get_iteration_mode, is_key_out_of_range, resolve_seek, Direction, IterationMode,
    IterationOption, Seek,
};
pub use crate::scan::{acknowledge, get_iterator, AsyncIter, Phase, ScanAction, ScanEvent, KV};
pub use crate::store::{create_db, opened, DBOptions, OpenMode, OpenRequest};

verus! {

/// Adds two integers whose sum is representable.
pub fn sum(a: i32, b: i32) -> (total: i32)
    requires
        i32::MIN <= a + b <= i32::MAX,
    ensures
        total == a + b,
{
    a + b
}

} // verus!
