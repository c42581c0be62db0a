//! The hour register: one byte that holds the hour in 24-hour or in 12-hour
//! form, with one bit to tell the two apart and one for AM or PM.
use vstd::prelude::*;
use crate::bcd::{bcd_to_decimal, decimal_to_bcd, decimal_to_packed_bcd, packed_bcd_to_decimal, lemma_bcd_round_trip};
use crate::flag;
use crate::Error;

verus! {

/// An hour, in 12-hour form with AM or PM, or in 24-hour form.
#[derive(Debug, Clone, Copy, PartialEq, Eq, Structural)]
pub enum Hours {
    /// AM, 1 to 12.
    AM(u8),
    /// PM, 1 to 12.
    PM(u8),
    /// 24-hour form, 0 to 23.
    H24(u8),
}

impl Hours {
    /// Whether the hour is one the register can hold in this form.
    pub open spec fn valid(self) -> bool {
        match self {
            Hours::H24(h) => h <= 23,
            Hours::AM(h) => 1 <= h <= 12,
            Hours::PM(h) => 1 <= h <= 12,
        }
    }

    /// The register byte of an hour that is `valid`: its BCD digits, with bit 7
    /// set for the 24-hour form and bit 5 set for PM. The digits of a valid
    /// hour leave these bits free, so setting a bit adds its weight.
    pub open spec fn to_register(self) -> u8 {
        match self {
            Hours::H24(h) => (flag::H12_H24 + decimal_to_bcd(h)) as u8,
            Hours::AM(h) => decimal_to_bcd(h),
            Hours::PM(h) => (flag::AM_PM + decimal_to_bcd(h)) as u8,
        }
    }

    /// The hour a register byte stands for. Bit 7 is looked at first: where it
    /// is set the byte is a 24-hour value and all that is left of it are
    /// digits, bit 5 among them. Where it is clear, bit 5 tells AM from PM and
    /// the digits are what is left without it.
    pub open spec fn from_register(data: u8) -> Hours {
        if has_24h_flag(data) {
            Hours::H24(bcd_to_decimal((data - flag::H12_H24) as u8))
        } else if !has_pm_flag(data) {
            Hours::AM(bcd_to_decimal(data))
        } else {
            Hours::PM(bcd_to_decimal((data - flag::AM_PM) as u8))
        }
    }

    /// The hour on a 24-hour clock: PM adds 12, AM and the 24-hour form are
    /// taken as they are, so 12 AM stays 12.
    pub open spec fn h24(self) -> int {
        match self {
            Hours::H24(h) => h as int,
            Hours::AM(h) => h as int,
            Hours::PM(h) => h + 12,
        }
    }
}

/// Bit 7 of the hour register is set.
pub open spec fn has_24h_flag(data: u8) -> bool {
    data >= flag::H12_H24
}

/// Bit 5 of the hour register is set.
pub open spec fn has_pm_flag(data: u8) -> bool {
    (data / flag::AM_PM) % 2 == 1
}

/// Encodes an hour for the hour register. Fails with `InvalidInputData`
/// exactly when the hour is out of range for its form.
pub fn hours_to_register<E>(hours: Hours) -> (r: Result<u8, Error<E>>)
    ensures
        match r {
            Ok(data) => hours.valid() && data == hours.to_register(),
            Err(e) => !hours.valid() && e is InvalidInputData,
        },
{
    match hours {
        Hours::H24(h) => {
            if h > 23 {
                Err(Error::InvalidInputData)
            } else {
                let digits: u8 = decimal_to_packed_bcd(h);
                assert(0x80u8 | digits == 0x80u8 + digits) by (bit_vector)
                    requires
                        digits < 0x80u8,
                ;
                Ok(flag::H12_H24 | digits)
            }
        },
        Hours::AM(h) => {
            if h < 1 || h > 12 {
                Err(Error::InvalidInputData)
            } else {
                Ok(decimal_to_packed_bcd(h))
            }
        },
        Hours::PM(h) => {
            if h < 1 || h > 12 {
                Err(Error::InvalidInputData)
            } else {
                let digits: u8 = decimal_to_packed_bcd(h);
                assert(0x20u8 | digits == 0x20u8 + digits) by (bit_vector)
                    requires
                        digits < 0x20u8,
                ;
                Ok(flag::AM_PM | digits)
            }
        },
    }
}

/// Decodes the hour register. Never fails.
pub fn hours_from_register(data: u8) -> (hours: Hours)
    ensures
        hours == Hours::from_register(data),
{
    if is_24h_format(data) {
        assert(data & !0x80u8 == data - 0x80u8) by (bit_vector)
            requires
                data >= 0x80u8,
        ;
        Hours::H24(packed_bcd_to_decimal(data & !flag::H12_H24))
    } else if is_am(data) {
        assert(data & !(0x80u8 | 0x20u8) == data) by (bit_vector)
            requires
                data < 0x80u8,
                (data / 0x20u8) % 2 != 1,
        ;
        Hours::AM(packed_bcd_to_decimal(data & !(flag::H12_H24 | flag::AM_PM)))
    } else {
        assert(data & !(0x80u8 | 0x20u8) == data - 0x20u8) by (bit_vector)
            requires
                data < 0x80u8,
                (data / 0x20u8) % 2 == 1,
        ;
        Hours::PM(packed_bcd_to_decimal(data & !(flag::H12_H24 | flag::AM_PM)))
    }
}

/// Whether the hour register holds a 24-hour value.
pub fn is_24h_format(hours_data: u8) -> (b: bool)
    ensures
        b == has_24h_flag(hours_data),
{
    assert((hours_data & 0x80u8 != 0) == (hours_data >= 0x80u8)) by (bit_vector);
    hours_data & flag::H12_H24 != 0
}

/// Whether the hour register, read in 12-hour form, says AM.
pub fn is_am(hours_data: u8) -> (b: bool)
    ensures
        b == !has_pm_flag(hours_data),
{
    assert((hours_data & 0x20u8 == 0) == ((hours_data / 0x20u8) % 2 != 1)) by (bit_vector);
    hours_data & flag::AM_PM == 0
}

/// The hour on a 24-hour clock. The sum must fit in a byte, which leaves out
/// PM hours above 243.
pub fn get_h24(hour: Hours) -> (h: u8)
    requires
        hour.h24() <= u8::MAX,
    ensures
        h == hour.h24(),
{
    match hour {
        Hours::H24(h) => h,
        Hours::AM(h) => h,
        Hours::PM(h) => h + 12,
    }
}

/// Decoding the hour register undoes encoding, for every hour that can be
/// encoded.
pub proof fn lemma_hours_round_trip(hours: Hours)
    requires
        hours.valid(),
    ensures
        Hours::from_register(hours.to_register()) == hours,
{
    match hours {
        Hours::H24(h) => lemma_bcd_round_trip(h),
        Hours::AM(h) => lemma_bcd_round_trip(h),
        Hours::PM(h) => lemma_bcd_round_trip(h),
    }
}

/// Whatever the hour register holds, the hour read from it fits a byte once
/// it is put on a 24-hour clock: it is 85 at most.
pub proof fn lemma_register_hour_bound(data: u8)
    ensures
        0 <= Hours::from_register(data).h24() <= 85,
{
}

} // verus!
