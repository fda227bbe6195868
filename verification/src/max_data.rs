//! Flow-control observer extension.
//!
//! Processes a received maximum-data frame: the connection's send limit is
//! raised to the carried value when that value exceeds the current one, and
//! is never lowered.

use vstd::prelude::*;

verus! {

/// The send limit after a maximum-data frame carrying `maximum_data`
/// arrives while the limit stands at `current_max`: the larger of the two.
pub fn process_frame_10(maximum_data: u64, current_max: u64) -> (r: u64)
    ensures
        r == if maximum_data > current_max {
            maximum_data
        } else {
            current_max
        },
        r >= current_max,
        r >= maximum_data,
{
    if maximum_data > current_max {
        maximum_data
    } else {
        current_max
    }
}

} // verus!

