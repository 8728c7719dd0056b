//! Small helpers that draw an index from a timestamp's second count.

use vstd::prelude::*;
use crate::types::Timestamp;

verus! {

/// The low 32 bits of the whole seconds of `ts`.
pub fn nano_part(ts: &Timestamp) -> (r: u32)
    ensures
        r == ts.spec_seconds() as u32,
{
    #[verifier::truncate]
    (ts.seconds() as u32)
}

/// An index below `count`, drawn from [`nano_part`].
pub fn choose_idx_by_nano(ts: &Timestamp, count: u32) -> (r: u32)
    requires
        count != 0,
    ensures
        r == ts.spec_seconds() as u32 % count,
{
    nano_part(ts) % count
}

} // verus!
