//! Protocol logic of the SD2405AL real-time clock.
//!
//! The chip keeps the date and time in packed-BCD registers behind a two-wire,
//! register-addressed bus. This crate holds everything about that protocol that
//! can be said without touching a bus: the register map, the BCD and hour
//! codecs, the transactions each operation asks for, what their replies mean,
//! and the write-protect sequence around a clock update. Each of these is
//! stated as a contract and proved.
use vstd::prelude::*;

use crate::interface::I2cInterface;

pub mod bcd;
pub mod calendar;
pub mod datetime;
pub mod flag;
pub mod hours;
pub mod interface;
pub mod register;

verus! {

/// Bus address of the chip.
pub const DEVICE_ADDRESS: u8 = 0x32;

/// What an operation of this crate can fail with.
#[derive(Debug)]
pub enum Error<E> {
    /// The bus failed; the error of the bus is handed on as it came.
    I2c(E),
    /// A value handed in is outside what the chip can hold.
    InvalidInputData,
    /// The operation is one the driver does not offer.
    Unsupported,
}

/// The driver: owns the bus for as long as it lives.
#[derive(Debug)]
pub struct Sd2405al<I2C> {
    pub iface: I2cInterface<I2C>,
}

impl<I2C> Sd2405al<I2C> {
    /// Takes the bus and makes a driver of it.
    pub fn new(i2c: I2C) -> (driver: Self)
        ensures
            driver.iface.i2c == i2c,
    {
        Sd2405al { iface: I2cInterface { i2c } }
    }

    /// Ends the driver and hands the bus back.
    pub fn destroy(self) -> (i2c: I2C)
        ensures
            i2c == self.iface.i2c,
    {
        self.iface.i2c
    }
}

} // verus!
