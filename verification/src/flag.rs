//! Bit flags of the hour register and of the two control registers.
use vstd::prelude::*;

verus! {

/// Hour register, bit 7: set when the hour is kept in 24-hour form.
pub const H12_H24: u8 = 0b1000_0000;

/// Hour register, bit 5: in 12-hour form, set for PM.
pub const AM_PM: u8 = 0b0010_0000;

/// Control register 2: first half of the write unlock.
pub const WRITE_RTC1: u8 = 0b1000_0000;

/// Control register 1: second half of the write unlock, together with `WRITE_RTC3`.
pub const WRITE_RTC2: u8 = 0b0000_0100;

/// Control register 1: second half of the write unlock, together with `WRITE_RTC2`.
pub const WRITE_RTC3: u8 = 0b1000_0000;

} // verus!
