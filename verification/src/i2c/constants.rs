use vstd::prelude::*;

verus! {

/// Highest bus frequency of the standard speed class, in Hertz.
pub const MAX_STANDARD_MODE_FREQ: u32 = 100_000;
/// Highest bus frequency of the fast speed class, in Hertz.
pub const MAX_FAST_MODE_FREQ: u32 = 400_000;
/// Highest bus frequency of the fast-plus speed class, in Hertz.
pub const MAX_FAST_MODE_PLUS_FREQ: u32 = 1_000_000;
/// Highest bus frequency of the high speed class, in Hertz.
pub const MAX_HIGH_SPEED_MODE_FREQ: u32 = 3_400_000;

/// Maximum block length defined by the SMBus standard.
///
/// A length-prefix byte outside `1..=I2C_SMBUS_BLOCK_MAX` is invalid and is
/// normalized to 1 by the read path.
pub const I2C_SMBUS_BLOCK_MAX: u8 = 32;

} // verus!
