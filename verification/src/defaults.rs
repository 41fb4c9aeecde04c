//! Values used where a caller does not choose its own.

use vstd::prelude::*;

verus! {

/// Seconds since 1970-01-01T00:00:00Z.
pub type EpochTime = u64;

/// The instant from which time steps are counted.
pub const START_TIME: EpochTime = 0;

/// The number of decimal digits of a code.
pub const CODE_WIDTH: u8 = 6;

/// The length of a time step, in seconds.
pub const STEP_SIZE: u8 = 30;

} // verus!
