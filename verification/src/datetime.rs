//! The clock itself: which read fetches each field, what the bytes that come
//! back mean, and the sequence of writes that sets the clock.
use vstd::prelude::*;
use crate::bcd::{bcd_to_decimal, decimal_to_bcd, decimal_to_packed_bcd, packed_bcd_to_decimal, lemma_bcd_round_trip, lemma_bcd_round_trip_wide};
use crate::calendar::{calendar_weekday, weekday_from_sunday};
use crate::flag;
use crate::hours::{get_h24, hours_from_register, hours_to_register, lemma_hours_round_trip, lemma_register_hour_bound, Hours};
use crate::interface::{read_data, read_register, write_data, write_register, Sequence, Write, WriteRead, WriteView};
use crate::register;
use crate::DEVICE_ADDRESS;
use crate::Error;

verus! {

/// A time of day on a 24-hour clock.
#[derive(Debug, Clone, Copy, PartialEq, Eq, Structural)]
pub struct Time {
    pub hour: u8,
    pub minute: u8,
    pub second: u8,
}

/// A calendar date.
#[derive(Debug, Clone, Copy, PartialEq, Eq, Structural)]
pub struct Date {
    pub year: u16,
    pub month: u8,
    pub day: u8,
}

/// A date and a time of day.
#[derive(Debug, Clone, Copy, PartialEq, Eq, Structural)]
pub struct DateTime {
    pub date: Date,
    pub time: Time,
}

/// First year the chip can be set to.
pub const FIRST_YEAR: u16 = 2000;

/// Last year the chip can be set to.
pub const LAST_YEAR: u16 = 2100;

impl Time {
    /// Hour below 24, minute and second below 60.
    pub open spec fn in_range(self) -> bool {
        self.hour <= 23 && self.minute <= 59 && self.second <= 59
    }
}

impl Date {
    /// Month 1 to 12 and day 1 to 31. Whether the month has that day is not
    /// asked here.
    pub open spec fn in_range(self) -> bool {
        1 <= self.month <= 12 && 1 <= self.day <= 31
    }

    /// The year is one the chip can be set to.
    pub open spec fn in_window(self) -> bool {
        FIRST_YEAR <= self.year <= LAST_YEAR
    }
}

/// The year a year register stands for: its two digits, counted from 2000.
pub open spec fn year_of_register(data: u8) -> u16 {
    (FIRST_YEAR + bcd_to_decimal(data)) as u16
}

/// The weekday a weekday register stands for, 1 for Sunday: the register
/// counts from 0.
pub open spec fn weekday_of_register(data: u8) -> u8 {
    (bcd_to_decimal(data) + 1) as u8
}

/// The time that the seconds, minutes and hours registers stand for, in this
/// order in `registers`. An hour kept in 12-hour form is put on the 24-hour
/// clock.
pub open spec fn time_of_registers(registers: Seq<u8>) -> Time {
    Time {
        hour: Hours::from_register(registers[register::HOURS as int]).h24() as u8,
        minute: bcd_to_decimal(registers[register::MINUTES as int]),
        second: bcd_to_decimal(registers[register::SECONDS as int]),
    }
}

/// The date that the day, month and year registers stand for, in this order
/// in `registers`.
pub open spec fn date_of_registers(registers: Seq<u8>) -> Date {
    Date {
        year: year_of_register(registers[register::YEAR - register::DOM]),
        month: bcd_to_decimal(registers[register::MONTH - register::DOM]),
        day: bcd_to_decimal(registers[0]),
    }
}

/// The date and time that the seven registers from seconds to year stand
/// for. The weekday register among them is not looked at.
pub open spec fn datetime_of_registers(registers: Seq<u8>) -> DateTime {
    DateTime {
        date: date_of_registers(registers.skip(register::DOM as int)),
        time: time_of_registers(registers),
    }
}

/// A read of `len` registers from `register` on.
pub open spec fn read_of(register: u8, len: usize) -> WriteRead {
    WriteRead { address: DEVICE_ADDRESS, register, len }
}

/// A write of `bytes`, the first of which is a register address.
pub open spec fn write_of(bytes: Seq<u8>) -> WriteView {
    WriteView { address: DEVICE_ADDRESS, bytes }
}

/// Fetches the seconds register.
pub fn get_seconds() -> (t: WriteRead)
    ensures
        t == read_of(register::SECONDS, 1),
{
    read_register(register::SECONDS)
}

/// The seconds that the seconds register holds.
pub fn seconds_from_register(data: u8) -> (seconds: u8)
    ensures
        seconds == bcd_to_decimal(data),
{
    packed_bcd_to_decimal(data)
}

/// Fetches the minutes register.
pub fn get_minutes() -> (t: WriteRead)
    ensures
        t == read_of(register::MINUTES, 1),
{
    read_register(register::MINUTES)
}

/// The minutes that the minutes register holds.
pub fn minutes_from_register(data: u8) -> (minutes: u8)
    ensures
        minutes == bcd_to_decimal(data),
{
    packed_bcd_to_decimal(data)
}

/// Fetches the hour register. Its byte is decoded by
/// [`hours_from_register`].
pub fn get_hours() -> (t: WriteRead)
    ensures
        t == read_of(register::HOURS, 1),
{
    read_register(register::HOURS)
}

/// Fetches the weekday register.
pub fn get_weekday() -> (t: WriteRead)
    ensures
        t == read_of(register::DOW, 1),
{
    read_register(register::DOW)
}

/// The weekday that the weekday register holds, 1 for Sunday.
pub fn weekday_from_register(data: u8) -> (weekday: u8)
    ensures
        weekday == weekday_of_register(data),
        weekday == bcd_to_decimal(data) + 1,
{
    packed_bcd_to_decimal(data) + 1
}

/// Fetches the day-of-month register.
pub fn get_day() -> (t: WriteRead)
    ensures
        t == read_of(register::DOM, 1),
{
    read_register(register::DOM)
}

/// The day of the month that its register holds.
pub fn day_from_register(data: u8) -> (day: u8)
    ensures
        day == bcd_to_decimal(data),
{
    packed_bcd_to_decimal(data)
}

/// Fetches the month register.
pub fn get_month() -> (t: WriteRead)
    ensures
        t == read_of(register::MONTH, 1),
{
    read_register(register::MONTH)
}

/// The month that the month register holds.
pub fn month_from_register(data: u8) -> (month: u8)
    ensures
        month == bcd_to_decimal(data),
{
    packed_bcd_to_decimal(data)
}

/// Fetches the year register.
pub fn get_year() -> (t: WriteRead)
    ensures
        t == read_of(register::YEAR, 1),
{
    read_register(register::YEAR)
}

/// The year that the year register holds.
pub fn year_from_register(data: u8) -> (year: u16)
    ensures
        year == year_of_register(data),
        year == 2000 + bcd_to_decimal(data),
{
    let year: u8 = packed_bcd_to_decimal(data);
    FIRST_YEAR + year as u16
}

/// Fetches seconds, minutes and hours in one burst: a buffer of four bytes,
/// the address of the seconds register and room for three registers.
pub fn get_time() -> (t: WriteRead)
    ensures
        t == read_of(register::SECONDS, 3),
{
    let buffer: [u8; 4] = [register::SECONDS, 0, 0, 0];
    read_data(buffer.as_slice())
}

/// The time of day in the three registers that [`get_time`] fetches.
pub fn time_from_registers(data: &[u8; 3]) -> (time: Time)
    ensures
        time == time_of_registers(data@),
{
    let hour: Hours = hours_from_register(data[register::HOURS as usize]);
    let minute: u8 = packed_bcd_to_decimal(data[register::MINUTES as usize]);
    let second: u8 = packed_bcd_to_decimal(data[register::SECONDS as usize]);
    proof {
        lemma_register_hour_bound(data@[register::HOURS as int]);
    }
    Time { hour: get_h24(hour), minute, second }
}

/// Fetches day, month and year in one burst: a buffer of four bytes, the
/// address of the day-of-month register and room for three registers.
pub fn get_date() -> (t: WriteRead)
    ensures
        t == read_of(register::DOM, 3),
{
    let buffer: [u8; 4] = [register::DOM, 0, 0, 0];
    read_data(buffer.as_slice())
}

/// The date in the three registers that [`get_date`] fetches.
pub fn date_from_registers(data: &[u8; 3]) -> (date: Date)
    ensures
        date == date_of_registers(data@),
{
    let offset: usize = register::DOM as usize;
    let year: u16 = year_from_register(data[register::YEAR as usize - offset]);
    let month: u8 = packed_bcd_to_decimal(data[register::MONTH as usize - offset]);
    let day: u8 = packed_bcd_to_decimal(data[register::DOM as usize - offset]);
    Date { year, month, day }
}

/// Fetches the whole block from seconds to year in one burst: a buffer of
/// eight bytes, the address of the seconds register and room for seven
/// registers.
pub fn get_datetime() -> (t: WriteRead)
    ensures
        t == read_of(register::SECONDS, 7),
{
    let buffer: [u8; 8] = [register::SECONDS, 0, 0, 0, 0, 0, 0, 0];
    read_data(buffer.as_slice())
}

/// The date and time in the seven registers that [`get_datetime`] fetches.
pub fn datetime_from_registers(data: &[u8; 7]) -> (datetime: DateTime)
    ensures
        datetime == datetime_of_registers(data@),
{
    let year: u16 = year_from_register(data[register::YEAR as usize]);
    let month: u8 = packed_bcd_to_decimal(data[register::MONTH as usize]);
    let day: u8 = packed_bcd_to_decimal(data[register::DOM as usize]);
    let hour: Hours = hours_from_register(data[register::HOURS as usize]);
    let minute: u8 = packed_bcd_to_decimal(data[register::MINUTES as usize]);
    let second: u8 = packed_bcd_to_decimal(data[register::SECONDS as usize]);
    proof {
        lemma_register_hour_bound(data@[register::HOURS as int]);
    }
    DateTime { date: Date { year, month, day }, time: Time { hour: get_h24(hour), minute, second } }
}

/// What unlocks control register 1: `WRITE_RTC2` and `WRITE_RTC3` together.
pub const UNLOCK_CONTROL_1: u8 = 0b1000_0100;

/// The two writes that unlock the clock registers, in the order in which
/// the chip wants them: control register 2 first, then control register 1.
pub open spec fn enable_write_transfers() -> Seq<WriteView> {
    seq![
        write_of(seq![register::CONTROL_2, flag::WRITE_RTC1]),
        write_of(seq![register::CONTROL_1, UNLOCK_CONTROL_1]),
    ]
}

/// The write that locks the clock registers again: zero to both control
/// registers, in one burst from control register 1 on.
pub open spec fn disable_write_transfer() -> WriteView {
    write_of(seq![register::CONTROL_1, 0, 0])
}

/// The burst that sets the clock: the address of the seconds register, then
/// second, minute, hour in 24-hour form, weekday as a plain number, day,
/// month and the two digits of the year.
pub open spec fn clock_payload(datetime: DateTime, weekday: u8) -> Seq<u8> {
    seq![
        register::SECONDS,
        decimal_to_bcd(datetime.time.second),
        decimal_to_bcd(datetime.time.minute),
        Hours::H24(datetime.time.hour).to_register(),
        weekday,
        decimal_to_bcd(datetime.date.day),
        decimal_to_bcd(datetime.date.month),
        decimal_to_bcd((datetime.date.year - FIRST_YEAR) as u8),
    ]
}

/// Everything that setting the clock sends, in order: unlock, the burst
/// with the new date and time, lock, and a zero to the time-trimming
/// register.
pub open spec fn set_datetime_transfers(datetime: DateTime, weekday: u8) -> Seq<WriteView> {
    enable_write_transfers() + seq![
        write_of(clock_payload(datetime, weekday)),
        disable_write_transfer(),
        write_of(seq![register::TIME_TRIMMING, 0]),
    ]
}

/// Whether the chip takes `datetime`: the year is in its window and the hour
/// is one of a 24-hour clock.
pub open spec fn encodable(datetime: DateTime) -> bool {
    datetime.date.in_window() && datetime.time.hour <= 23
}

/// Whether the clock can be set to `datetime`: the chip takes it, and its
/// date is one of the calendar, so that it falls on a day of the week.
pub open spec fn settable(datetime: DateTime) -> bool {
    &&& encodable(datetime)
    &&& calendar_weekday(datetime.date.year, datetime.date.month, datetime.date.day) is Some
}

/// The two writes that unlock the clock registers.
pub fn enable_write() -> (writes: Vec<Write>)
    ensures
        writes@.len() == 2,
        writes@[0]@ == enable_write_transfers()[0],
        writes@[1]@ == enable_write_transfers()[1],
{
    let mut writes: Vec<Write> = Vec::new();
    writes.push(write_register(register::CONTROL_2, flag::WRITE_RTC1));
    assert(0b0000_0100u8 | 0b1000_0000u8 == 0b1000_0100u8) by (bit_vector);
    assert(flag::WRITE_RTC2 | flag::WRITE_RTC3 == UNLOCK_CONTROL_1);
    writes.push(write_register(register::CONTROL_1, flag::WRITE_RTC2 | flag::WRITE_RTC3));
    writes
}

/// The write that locks the clock registers again.
pub fn disable_write() -> (t: Write)
    ensures
        t@ == disable_write_transfer(),
{
    let payload: [u8; 3] = [register::CONTROL_1, 0x0, 0x0];
    write_data(payload.as_slice())
}

/// Prepares setting the clock to `datetime`, a date that falls on the
/// weekday numbered `weekday`, 1 for Sunday.
///
/// Fails with `InvalidInputData`, before anything is sent, exactly when the
/// year is outside 2000 to 2100 or the hour is above 23. Otherwise what
/// comes back is the sequence to send. The weekday, the day, the month, the
/// minute and the second are not looked at: they are written as they come,
/// the weekday as a plain number and the others as BCD.
pub fn set_datetime_with_weekday<E>(datetime: &DateTime, weekday: u8) -> (r: Result<
    Sequence,
    Error<E>,
>)
    ensures
        match r {
            Ok(sequence) => encodable(*datetime) && sequence.pending() == set_datetime_transfers(
                *datetime,
                weekday,
            ),
            Err(e) => !encodable(*datetime) && e is InvalidInputData,
        },
{
    if datetime.date.year < FIRST_YEAR || datetime.date.year > LAST_YEAR {
        return Err(Error::InvalidInputData);
    }
    let year: u8 = decimal_to_packed_bcd((datetime.date.year - FIRST_YEAR) as u8);
    let hours: u8 = match hours_to_register::<E>(Hours::H24(datetime.time.hour)) {
        Ok(hours) => hours,
        Err(e) => {
            return Err(e);
        },
    };
    let payload: [u8; 8] = [
        register::SECONDS,
        decimal_to_packed_bcd(datetime.time.second),
        decimal_to_packed_bcd(datetime.time.minute),
        hours,
        weekday,
        decimal_to_packed_bcd(datetime.date.day),
        decimal_to_packed_bcd(datetime.date.month),
        year,
    ];
    assert(payload@ =~= clock_payload(*datetime, weekday));
    let mut writes: Vec<Write> = enable_write();
    writes.push(write_data(payload.as_slice()));
    writes.push(disable_write());
    writes.push(write_register(register::TIME_TRIMMING, 0x0));
    let sequence: Sequence = Sequence::new(writes);
    assert(sequence.pending() =~= set_datetime_transfers(*datetime, weekday));
    Ok(sequence)
}

/// Prepares setting the clock to `datetime`. The weekday is the one on which
/// the date falls in the calendar.
///
/// Fails with `InvalidInputData`, before anything is sent, exactly when the
/// year is outside 2000 to 2100, the hour is above 23, or the date is none
/// of the calendar. Otherwise what comes back is the sequence to send, and
/// if minute and second are those of a time of day, the registers it fills
/// read back as `datetime`.
pub fn set_datetime<E>(datetime: &DateTime) -> (r: Result<Sequence, Error<E>>)
    ensures
        match r {
            Ok(sequence) => {
                let weekday = calendar_weekday(
                    datetime.date.year,
                    datetime.date.month,
                    datetime.date.day,
                )->Some_0;
                &&& settable(*datetime)
                &&& sequence.pending() == set_datetime_transfers(*datetime, weekday)
                &&& datetime.time.in_range() ==> datetime_of_registers(
                    clock_payload(*datetime, weekday).skip(1),
                ) == *datetime
            },
            Err(e) => !settable(*datetime) && e is InvalidInputData,
        },
{
    match weekday_from_sunday(datetime.date.year, datetime.date.month, datetime.date.day) {
        Some(weekday) => {
            proof {
                if encodable(*datetime) && datetime.time.in_range() {
                    lemma_datetime_round_trip(*datetime, weekday);
                }
            }
            set_datetime_with_weekday(datetime, weekday)
        },
        None => Err(Error::InvalidInputData),
    }
}

/// Setting the seconds alone is not offered.
pub fn set_seconds<E>(seconds: u8) -> (r: Result<Sequence, Error<E>>)
    ensures
        r matches Err(e) && e is Unsupported,
{
    Err(Error::Unsupported)
}

/// Setting the minutes alone is not offered.
pub fn set_minutes<E>(minutes: u8) -> (r: Result<Sequence, Error<E>>)
    ensures
        r matches Err(e) && e is Unsupported,
{
    Err(Error::Unsupported)
}

/// Setting the hours alone is not offered.
pub fn set_hours<E>(hours: Hours) -> (r: Result<Sequence, Error<E>>)
    ensures
        r matches Err(e) && e is Unsupported,
{
    Err(Error::Unsupported)
}

/// Setting the time of day without the date is not offered.
pub fn set_time<E>(time: &Time) -> (r: Result<Sequence, Error<E>>)
    ensures
        r matches Err(e) && e is Unsupported,
{
    Err(Error::Unsupported)
}

/// Setting the weekday alone is not offered.
pub fn set_weekday<E>(weekday: u8) -> (r: Result<Sequence, Error<E>>)
    ensures
        r matches Err(e) && e is Unsupported,
{
    Err(Error::Unsupported)
}

/// Setting the day of the month alone is not offered.
pub fn set_day<E>(day: u8) -> (r: Result<Sequence, Error<E>>)
    ensures
        r matches Err(e) && e is Unsupported,
{
    Err(Error::Unsupported)
}

/// Setting the month alone is not offered.
pub fn set_month<E>(month: u8) -> (r: Result<Sequence, Error<E>>)
    ensures
        r matches Err(e) && e is Unsupported,
{
    Err(Error::Unsupported)
}

/// Setting the year alone is not offered.
pub fn set_year<E>(year: u16) -> (r: Result<Sequence, Error<E>>)
    ensures
        r matches Err(e) && e is Unsupported,
{
    Err(Error::Unsupported)
}

/// Setting the date without the time of day is not offered.
pub fn set_date<E>(date: &Date) -> (r: Result<Sequence, Error<E>>)
    ensures
        r matches Err(e) && e is Unsupported,
{
    Err(Error::Unsupported)
}

/// What the clock is set to is what is read back. After the burst of
/// [`set_datetime`] the registers from seconds to year hold the bytes behind
/// its address byte, and these decode to the date and time that was set,
/// whatever the weekday among them. This holds for every year of the chip's
/// window and every month, day, hour, minute and second in range.
pub proof fn lemma_datetime_round_trip(datetime: DateTime, weekday: u8)
    requires
        datetime.date.in_window(),
        datetime.date.in_range(),
        datetime.time.in_range(),
    ensures
        datetime_of_registers(clock_payload(datetime, weekday).skip(1)) == datetime,
{
    let registers: Seq<u8> = clock_payload(datetime, weekday).skip(1);
    lemma_bcd_round_trip(datetime.time.second);
    lemma_bcd_round_trip(datetime.time.minute);
    lemma_bcd_round_trip(datetime.date.day);
    lemma_bcd_round_trip(datetime.date.month);
    lemma_bcd_round_trip_wide((datetime.date.year - FIRST_YEAR) as u8);
    lemma_hours_round_trip(Hours::H24(datetime.time.hour));
    assert(registers.skip(register::DOM as int)[0] == registers[register::DOM as int]);
}

} // verus!
