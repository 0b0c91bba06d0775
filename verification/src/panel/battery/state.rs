//! UPower's device states.

use vstd::prelude::*;

verus! {

pub const UNKNOWN: u32 = 0;
pub const CHARGING: u32 = 1;
pub const DISCHARGING: u32 = 2;
pub const EMPTY: u32 = 3;
pub const FULLY_CHARGED: u32 = 4;
pub const PENDING_CHARGE: u32 = 5;
pub const PENDING_DISCHARGE: u32 = 6;

} // verus!
