//! Dynamic fee levels.

use vstd::prelude::*;

verus! {

/// The fee, in basis points, before any tip with a fee was processed.
pub const BASE_FEE_BPS: u32 = 100;

/// Network congestion, which the fee follows.
#[derive(Clone, Copy, Debug, PartialEq, Eq, Structural)]
pub enum CongestionLevel {
    /// Little traffic.
    Low,
    /// Usual traffic.
    Normal,
    /// Heavy traffic.
    High,
}

/// The congestion level that a caller's number stands for: 0 is low, 2 is
/// high and any other number is normal.
pub fn congestion_level(congestion: u32) -> (r: CongestionLevel)
    ensures
        r == (if congestion == 0 {
            CongestionLevel::Low
        } else if congestion == 2 {
            CongestionLevel::High
        } else {
            CongestionLevel::Normal
        }),
{
    match congestion {
        0 => CongestionLevel::Low,
        2 => CongestionLevel::High,
        _ => CongestionLevel::Normal,
    }
}

} // verus!
