//! Shared machine constants.

use vstd::prelude::*;

verus! {

/// Master clock rate in T-cycles per second.
pub const CLOCK_SPEED: u64 = 4_194_304;

/// Offset between `clock_count` and the serial shift clock, in T-cycles,
/// fixing the alignment of the 2^13 Hz serial clock against power-on.
pub const SERIAL_OFFSET: u64 = 8;

/// `clock_count` at the moment the boot ROM hands over control: the
/// post-boot fingerprint.
pub const POST_BOOT_CLOCK: u64 = 23_440_324;

} // verus!
