//! Register addresses of the chip.
use vstd::prelude::*;

verus! {

pub const SECONDS: u8 = 0x00;

pub const MINUTES: u8 = 0x01;

pub const HOURS: u8 = 0x02;

/// Day of the week.
pub const DOW: u8 = 0x03;

/// Day of the month.
pub const DOM: u8 = 0x04;

pub const MONTH: u8 = 0x05;

pub const YEAR: u8 = 0x06;

pub const CONTROL_1: u8 = 0x0F;

pub const CONTROL_2: u8 = 0x10;

pub const TIME_TRIMMING: u8 = 0x12;

} // verus!
