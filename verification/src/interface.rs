//! The transport: which transactions the chip understands, and how the
//! driver's register reads and writes are framed as such transactions.
//!
//! Nothing here touches a bus. A [`Write`] or a [`WriteRead`] says what has to
//! be sent; whoever owns the bus sends it and reports how it went.
use vstd::prelude::*;
use vstd::slice::slice_to_vec;
use crate::DEVICE_ADDRESS;
use crate::Error;

verus! {

/// Holds the bus that the chip is wired to.
#[derive(Debug)]
pub struct I2cInterface<I2C> {
    pub i2c: I2C,
}

/// A write as a mathematical value: `bytes` go to the device at `address`
/// in one transaction. The first byte is a register address; the others are
/// stored in that register and the ones after it, one each.
pub struct WriteView {
    pub address: u8,
    pub bytes: Seq<u8>,
}

/// A write, ready to be carried out. Its view is the [`WriteView`] it stands
/// for.
#[derive(Debug, PartialEq, Eq)]
pub struct Write {
    pub address: u8,
    pub bytes: Vec<u8>,
}

impl View for Write {
    type V = WriteView;

    open spec fn view(&self) -> WriteView {
        WriteView { address: self.address, bytes: self.bytes@ }
    }
}

/// A read: the register address `register` is written to the device at
/// `address` and then, in the same transaction, `len` bytes are read, the
/// contents of that register and of the ones after it.
#[derive(Debug, Clone, Copy, PartialEq, Eq, Structural)]
pub struct WriteRead {
    pub address: u8,
    pub register: u8,
    pub len: usize,
}

/// Writes one byte to one register: the register address, then the byte.
pub fn write_register(register: u8, data: u8) -> (t: Write)
    ensures
        t@ == (WriteView { address: DEVICE_ADDRESS, bytes: seq![register, data] }),
{
    let mut bytes: Vec<u8> = Vec::new();
    bytes.push(register);
    bytes.push(data);
    assert(bytes@ =~= seq![register, data]);
    Write { address: DEVICE_ADDRESS, bytes }
}

/// Writes a run of registers. The first byte of `payload` is the address of
/// the first register, the other bytes are what is written. A payload of one
/// byte sends the address and no data.
pub fn write_data(payload: &[u8]) -> (t: Write)
    ensures
        t@ == (WriteView { address: DEVICE_ADDRESS, bytes: payload@ }),
{
    Write { address: DEVICE_ADDRESS, bytes: slice_to_vec(payload) }
}

/// Reads one register.
pub fn read_register(register: u8) -> (t: WriteRead)
    ensures
        t == (WriteRead { address: DEVICE_ADDRESS, register, len: 1 }),
{
    WriteRead { address: DEVICE_ADDRESS, register, len: 1 }
}

/// Reads a run of registers into a buffer. The first byte of `payload` is
/// the address of the first register; one register is read for each byte
/// after it. A buffer of one byte sends the address and reads nothing.
pub fn read_data(payload: &[u8]) -> (t: WriteRead)
    requires
        payload@.len() >= 1,
    ensures
        t.address == DEVICE_ADDRESS,
        t.register == payload@[0],
        t.len == payload@.len() - 1,
{
    WriteRead { address: DEVICE_ADDRESS, register: payload[0], len: payload.len() - 1 }
}

/// What the bus said, as the driver hands it on: a value that came back is
/// kept, and an error of the bus is wrapped and otherwise left as it came.
pub fn reply<T, E>(outcome: Result<T, E>) -> (r: Result<T, Error<E>>)
    ensures
        match outcome {
            Ok(value) => r == Ok::<T, Error<E>>(value),
            Err(e) => r == Err::<T, Error<E>>(Error::I2c(e)),
        },
{
    match outcome {
        Ok(value) => Ok(value),
        Err(e) => Err(Error::I2c(e)),
    }
}

/// Writes to be carried out one after the other, each only if the one before
/// it went through.
#[derive(Debug)]
pub struct Sequence {
    writes: Vec<Write>,
}

impl Sequence {
    /// What is still to be sent, in order.
    pub closed spec fn pending(&self) -> Seq<WriteView> {
        Seq::new(self.writes@.len(), |i: int| self.writes@[i]@)
    }

    /// A sequence that sends `writes` in order.
    pub fn new(writes: Vec<Write>) -> (s: Sequence)
        ensures
            s.pending() == Seq::new(writes@.len(), |i: int| writes@[i]@),
    {
        Sequence { writes }
    }

    /// The write to send now, or `None` when all have been sent.
    pub fn next_write(&self) -> (t: Option<&Write>)
        ensures
            match t {
                Some(t) => self.pending().len() > 0 && t@ == self.pending()[0],
                None => self.pending().len() == 0,
            },
    {
        if self.writes.len() > 0 {
            Some(&self.writes[0])
        } else {
            None
        }
    }

    /// Takes in how the write handed out by [`Sequence::next_write`] went.
    /// After a success the next one is up. A failure of the bus ends the
    /// sequence: nothing more is sent, and the error of the bus comes back
    /// wrapped and otherwise untouched.
    pub fn advance<E>(&mut self, outcome: Result<(), E>) -> (r: Result<(), Error<E>>)
        ensures
            match outcome {
                Ok(_) => r is Ok && final(self).pending() == if old(self).pending().len() > 0 {
                    old(self).pending().drop_first()
                } else {
                    old(self).pending()
                },
                Err(e) => r == Err::<(), Error<E>>(Error::I2c(e)) && final(self).pending().len() == 0,
            },
    {
        match outcome {
            Ok(_) => {
                if self.writes.len() > 0 {
                    self.writes.remove(0);
                    assert(self.pending() =~= old(self).pending().drop_first());
                }
                Ok(())
            },
            Err(e) => {
                self.writes.clear();
                Err(Error::I2c(e))
            },
        }
    }
}

} // verus!
