//! The transport under the driver: single-byte register reads and writes,
//! framed for SPI or for I2C.

use crate::error::Error;
use embedded_hal::i2c::I2c;
use embedded_hal::spi::SpiBus;
use vstd::prelude::*;

verus! {

/// One register access that the driver asked its interface for, with the
/// outcome that came back.
#[allow(inconsistent_fields)]
pub enum Access {
    /// A read of the register at `address` and what came back.
    Read { address: u8, outcome: Result<u8, Error> },
    /// A write of `value` to the register at `address` and whether it went through.
    Write { address: u8, value: u8, outcome: Result<(), Error> },
}

/// The capability the driver needs from a transport: single-byte register
/// reads and writes in a 7-bit address space.
///
/// Nothing is promised about the outcome of an access: what a read returns
/// and whether an access succeeds is up to the bus and the device. Callers
/// keep the top bit of the address clear.
pub trait Interface {
    /// Reads the register at `address`.
    fn read_register(&mut self, address: u8) -> (outcome: Result<u8, Error>)
        requires
            address < 0x80,
    ;

    /// Writes `buffer` to the register at `address`.
    fn write_register(&mut self, address: u8, buffer: u8) -> (outcome: Result<(), Error>)
        requires
            address < 0x80,
    ;
}

/// Flag in the first byte of an SPI frame that marks a read.
pub const SPI_READ: u8 = 0x80;

/// Flag in the first byte of an SPI frame that marks a write.
pub const SPI_WRITE: u8 = 0x00;

/// The fixed 7-bit address of the device on an I2C bus.
pub const I2C_ADDRESS: u8 = 0x68;

/// What one SPI transaction put on the wire and what it brought back.
pub enum SpiExchange {
    /// A full-duplex transfer: `sent` went out while `received`, of the same
    /// length, came in; `None` where the bus reported a fault.
    Transfer { sent: Seq<u8>, received: Option<Seq<u8>> },
    /// A write whose incoming bytes are ignored; `done` is false where the
    /// bus reported a fault.
    Write { sent: Seq<u8>, done: bool },
}

/// What one I2C transaction with the device asked for and what it brought back.
pub enum I2cExchange {
    /// `sent` was written, then, after a repeated start, `length` bytes were
    /// read into `received`; `None` where the bus reported a fault.
    WriteRead { device: u8, sent: Seq<u8>, length: nat, received: Option<Seq<u8>> },
    /// `sent` was written; `done` is false where the bus reported a fault.
    Write { device: u8, sent: Seq<u8>, done: bool },
}

/// The two bytes clocked out to read the register at `address`.
pub open spec fn spi_read_frame_spec(address: u8) -> Seq<u8> {
    seq![(0x80 + address) as u8, 0x00u8]
}

/// The two bytes clocked out to write `value` to the register at `address`.
pub open spec fn frame_spec(address: u8, value: u8) -> Seq<u8> {
    seq![address, value]
}

/// The value of a register read over SPI: the second byte clocked in.
pub open spec fn spi_read_outcome_spec(received: Option<Seq<u8>>) -> Result<u8, Error> {
    match received {
        Some(words) => Ok(words[1]),
        None => Err(Error::Spi),
    }
}

/// The value of a register read over I2C: the one byte read.
pub open spec fn i2c_read_outcome_spec(received: Option<Seq<u8>>) -> Result<u8, Error> {
    match received {
        Some(bytes) => Ok(bytes[0]),
        None => Err(Error::I2C),
    }
}

/// The SPI frame that reads the register at `address`: the address with the
/// read flag in its top bit, then a filler byte during which the device
/// answers.
pub fn spi_read_frame(address: u8) -> (frame: [u8; 2])
    requires
        address < 0x80,
    ensures
        frame@ == spi_read_frame_spec(address),
        frame[0] == SPI_READ | address,
        frame[1] == 0,
{
    assert((0x80u8 | address) == (0x80 + address) as u8) by (bit_vector)
        requires
            address < 0x80,
    ;
    let frame = [SPI_READ | address, 0x00];
    assert(frame@ =~= spi_read_frame_spec(address));
    frame
}

/// The SPI frame that writes `value` to the register at `address`: the
/// address with its top bit clear, then the value.
pub fn spi_write_frame(address: u8, value: u8) -> (frame: [u8; 2])
    requires
        address < 0x80,
    ensures
        frame@ == frame_spec(address, value),
        frame[0] & SPI_READ == 0,
{
    assert((0x00u8 | address) == address && (address & 0x80u8 == 0)) by (bit_vector)
        requires
            address < 0x80,
    ;
    let frame = [SPI_WRITE | address, value];
    assert(frame@ =~= frame_spec(address, value));
    frame
}

/// Turns what an SPI read transfer brought back into the register's value.
pub fn spi_read_outcome(received: Option<[u8; 2]>) -> (outcome: Result<u8, Error>)
    ensures
        outcome == (match received {
            Some(words) => Ok::<u8, Error>(words[1]),
            None => Err::<u8, Error>(Error::Spi),
        }),
{
    match received {
        Some(words) => Ok(words[1]),
        None => Err(Error::Spi),
    }
}

/// Turns the completion of an SPI write into the result of the register write.
pub fn spi_write_outcome(done: bool) -> (outcome: Result<(), Error>)
    ensures
        outcome == if done {
            Ok::<(), Error>(())
        } else {
            Err::<(), Error>(Error::Spi)
        },
{
    if done {
        Ok(())
    } else {
        Err(Error::Spi)
    }
}

/// The bytes an I2C register read writes before the repeated start: the
/// register address alone.
pub fn i2c_read_frame(address: u8) -> (frame: [u8; 1])
    ensures
        frame@ == seq![address],
{
    let frame = [address];
    assert(frame@ =~= seq![address]);
    frame
}

/// The bytes an I2C register write sends: the register address, then the value.
pub fn i2c_write_frame(address: u8, value: u8) -> (frame: [u8; 2])
    ensures
        frame@ == frame_spec(address, value),
{
    let frame = [address, value];
    assert(frame@ =~= frame_spec(address, value));
    frame
}

/// Turns what an I2C write-then-read brought back into the register's value.
pub fn i2c_read_outcome(received: Option<[u8; 1]>) -> (outcome: Result<u8, Error>)
    ensures
        outcome == (match received {
            Some(bytes) => Ok::<u8, Error>(bytes[0]),
            None => Err::<u8, Error>(Error::I2C),
        }),
{
    match received {
        Some(bytes) => Ok(bytes[0]),
        None => Err(Error::I2C),
    }
}

/// Turns the completion of an I2C write into the result of the register write.
pub fn i2c_write_outcome(done: bool) -> (outcome: Result<(), Error>)
    ensures
        outcome == if done {
            Ok::<(), Error>(())
        } else {
            Err::<(), Error>(Error::I2C)
        },
{
    if done {
        Ok(())
    } else {
        Err(Error::I2C)
    }
}

/// Runs `embedded_hal::spi::SpiBus::transfer` with a two-byte frame: `frame`
/// is clocked out while two bytes are clocked in. Returns the bytes clocked
/// in, or `None` where the bus reports an error. Nothing is claimed about the
/// bytes: they are whatever the device answered.
#[verifier::external_body]
fn spi_transfer<SPI: SpiBus>(bus: &mut SPI, frame: &[u8; 2]) -> (received: Option<[u8; 2]>) {
    let mut words = [0u8; 2];
    match bus.transfer(&mut words, frame) {
        Ok(()) => Some(words),
        Err(_) => None,
    }
}

/// Runs `embedded_hal::spi::SpiBus::write` with a two-byte frame. Returns
/// whether the bus reported success; nothing else is claimed.
#[verifier::external_body]
fn spi_write<SPI: SpiBus>(bus: &mut SPI, frame: &[u8; 2]) -> (done: bool) {
    bus.write(frame).is_ok()
}

/// Runs `embedded_hal::i2c::I2c::write_read` against the device at `device`:
/// `frame` is written and, after a repeated start, one byte is read. Returns
/// the byte read, or `None` where the bus reports an error. Nothing is
/// claimed about the byte: it is whatever the device answered.
#[verifier::external_body]
fn i2c_write_read<I2C: I2c>(bus: &mut I2C, device: u8, frame: &[u8; 1]) -> (received: Option<
    [u8; 1],
>) {
    let mut bytes = [0u8; 1];
    match bus.write_read(device, frame, &mut bytes) {
        Ok(()) => Some(bytes),
        Err(_) => None,
    }
}

/// Runs `embedded_hal::i2c::I2c::write` against the device at `device` with
/// a two-byte frame. Returns whether the bus reported success; nothing else
/// is claimed.
#[verifier::external_body]
fn i2c_write<I2C: I2c>(bus: &mut I2C, device: u8, frame: &[u8; 2]) -> (done: bool) {
    bus.write(device, frame).is_ok()
}

/// Register access over an SPI bus that the interface owns exclusively.
///
/// Chip select is not driven here: whoever owns the pin asserts it around
/// each call.
///
/// In its model the interface keeps the list of the transactions it ran on
/// the bus. Its two methods have the shape of [`Interface`]; the impl of the
/// trait itself needs the bound on the bus type and stands outside the
/// verified code.
pub struct SpiBusInterface<SPI> {
    bus: SPI,
    exchanges: Ghost<Seq<SpiExchange>>,
}

impl<SPI> SpiBusInterface<SPI> {
    /// The bus the interface owns.
    pub closed spec fn bus(&self) -> SPI {
        self.bus
    }

    /// Takes ownership of the bus. Nothing has been exchanged yet.
    pub fn new(bus: SPI) -> (interface: Self)
        ensures
            interface.bus() == bus,
            interface.exchanges() == Seq::<SpiExchange>::empty(),
    {
        SpiBusInterface { bus, exchanges: Ghost(Seq::empty()) }
    }

    /// Gives the bus back.
    pub fn release(self) -> (bus: SPI)
        ensures
            bus == self.bus(),
    {
        self.bus
    }

    /// Every transaction this interface ran on the bus so far, oldest first.
    pub closed spec fn exchanges(&self) -> Seq<SpiExchange> {
        self.exchanges@
    }
}

impl<SPI: SpiBus> SpiBusInterface<SPI> {
    /// Reads the register at `address` in one two-byte transfer: the address
    /// with the read flag goes out first, and the byte that comes in during
    /// the second position is the register's value.
    pub fn read_register(&mut self, address: u8) -> (outcome: Result<u8, Error>)
        requires
            address < 0x80,
        ensures
            final(self).exchanges().len() == old(self).exchanges().len() + 1,
            final(self).exchanges().drop_last() == old(self).exchanges(),
            final(self).exchanges().last() matches SpiExchange::Transfer { sent, received }
                && sent == spi_read_frame_spec(address)
                && (received matches Some(words) ==> words.len() == 2)
                && outcome == spi_read_outcome_spec(received),
            outcome is Err ==> outcome == Err::<u8, Error>(Error::Spi),
    {
        let frame = spi_read_frame(address);
        let received = spi_transfer(&mut self.bus, &frame);
        let outcome = spi_read_outcome(received);
        proof {
            let words = match received {
                Some(words) => Some(words@),
                None => None,
            };
            let exchange = SpiExchange::Transfer { sent: frame@, received: words };
            assert(self.exchanges@.push(exchange).drop_last() =~= self.exchanges@);
            self.exchanges@ = self.exchanges@.push(exchange);
        }
        outcome
    }

    /// Writes `buffer` to the register at `address` in one two-byte write:
    /// the address with its top bit clear, then the value.
    pub fn write_register(&mut self, address: u8, buffer: u8) -> (outcome: Result<(), Error>)
        requires
            address < 0x80,
        ensures
            final(self).exchanges().len() == old(self).exchanges().len() + 1,
            final(self).exchanges().drop_last() == old(self).exchanges(),
            final(self).exchanges().last() == (SpiExchange::Write {
                sent: frame_spec(address, buffer),
                done: outcome is Ok,
            }),
            outcome is Err ==> outcome == Err::<(), Error>(Error::Spi),
    {
        let frame = spi_write_frame(address, buffer);
        let done = spi_write(&mut self.bus, &frame);
        let outcome = spi_write_outcome(done);
        proof {
            let exchange = SpiExchange::Write { sent: frame@, done };
            assert(self.exchanges@.push(exchange).drop_last() =~= self.exchanges@);
            self.exchanges@ = self.exchanges@.push(exchange);
        }
        outcome
    }
}

/// Register access over an I2C bus, with the device at its fixed address.
///
/// In its model the interface keeps the list of the transactions it ran on
/// the bus. Its two methods have the shape of [`Interface`]; the impl of the
/// trait itself needs the bound on the bus type and stands outside the
/// verified code.
pub struct I2cInterface<I2C> {
    bus: I2C,
    exchanges: Ghost<Seq<I2cExchange>>,
}

impl<I2C> I2cInterface<I2C> {
    /// The bus the interface owns.
    pub closed spec fn bus(&self) -> I2C {
        self.bus
    }

    /// Takes ownership of the bus. Nothing has been exchanged yet.
    pub fn new(bus: I2C) -> (interface: Self)
        ensures
            interface.bus() == bus,
            interface.exchanges() == Seq::<I2cExchange>::empty(),
    {
        I2cInterface { bus, exchanges: Ghost(Seq::empty()) }
    }

    /// Gives the bus back.
    pub fn release(self) -> (bus: I2C)
        ensures
            bus == self.bus(),
    {
        self.bus
    }

    /// Every transaction this interface ran on the bus so far, oldest first.
    pub closed spec fn exchanges(&self) -> Seq<I2cExchange> {
        self.exchanges@
    }
}

impl<I2C: I2c> I2cInterface<I2C> {
    /// Reads the register at `address` in one combined transaction: the
    /// register address is written without a stop, then one byte is read.
    pub fn read_register(&mut self, address: u8) -> (outcome: Result<u8, Error>)
        ensures
            final(self).exchanges().len() == old(self).exchanges().len() + 1,
            final(self).exchanges().drop_last() == old(self).exchanges(),
            final(self).exchanges().last() matches I2cExchange::WriteRead {
                device,
                sent,
                length,
                received,
            } && device == I2C_ADDRESS && sent == seq![address] && length == 1
                && (received matches Some(bytes) ==> bytes.len() == 1)
                && outcome == i2c_read_outcome_spec(received),
            outcome is Err ==> outcome == Err::<u8, Error>(Error::I2C),
    {
        let frame = i2c_read_frame(address);
        let received = i2c_write_read(&mut self.bus, I2C_ADDRESS, &frame);
        let outcome = i2c_read_outcome(received);
        proof {
            let bytes = match received {
                Some(bytes) => Some(bytes@),
                None => None,
            };
            let exchange = I2cExchange::WriteRead {
                device: I2C_ADDRESS,
                sent: frame@,
                length: 1,
                received: bytes,
            };
            assert(self.exchanges@.push(exchange).drop_last() =~= self.exchanges@);
            self.exchanges@ = self.exchanges@.push(exchange);
        }
        outcome
    }

    /// Writes `buffer` to the register at `address` in one transaction that
    /// sends the register address, then the value.
    pub fn write_register(&mut self, address: u8, buffer: u8) -> (outcome: Result<(), Error>)
        ensures
            final(self).exchanges().len() == old(self).exchanges().len() + 1,
            final(self).exchanges().drop_last() == old(self).exchanges(),
            final(self).exchanges().last() == (I2cExchange::Write {
                device: I2C_ADDRESS,
                sent: frame_spec(address, buffer),
                done: outcome is Ok,
            }),
            outcome is Err ==> outcome == Err::<(), Error>(Error::I2C),
    {
        let frame = i2c_write_frame(address, buffer);
        let done = i2c_write(&mut self.bus, I2C_ADDRESS, &frame);
        let outcome = i2c_write_outcome(done);
        proof {
            let exchange = I2cExchange::Write { device: I2C_ADDRESS, sent: frame@, done };
            assert(self.exchanges@.push(exchange).drop_last() =~= self.exchanges@);
            self.exchanges@ = self.exchanges@.push(exchange);
        }
        outcome
    }
}

} // verus!
