//! Times as nanoseconds from the Unix epoch (negative before it).
use vstd::prelude::*;

verus! {

/// Nanoseconds in a second.
pub const NANOS_PER_SECOND: i128 = 1000000000;

/// The number of nanoseconds from `from` to `to`.
pub fn elapsed_nanos(from: i128, to: i128) -> (r: u128)
    requires
        from <= to,
    ensures
        r == to - from,
{
    if from >= 0 || to < 0 {
        (to - from) as u128
    } else {
        (to as u128) + ((-(from + 1)) as u128) + 1
    }
}

} // verus!
