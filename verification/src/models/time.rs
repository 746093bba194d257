//! Points in time, as the records carry them.

use vstd::prelude::*;

verus! {

/// A UTC instant: whole seconds since the Unix epoch and the nanoseconds past them.
#[derive(Debug, Clone, Copy, PartialEq, Eq, Structural)]
pub struct Timestamp {
    pub secs: i64,
    pub nanos: u32,
}

} // verus!
