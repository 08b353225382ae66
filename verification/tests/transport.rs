use embedded_hal::i2c::{self, I2c};
use embedded_hal::spi::{self, SpiBus};
use icm42688p::interface::{
    i2c_read_frame, i2c_read_outcome, i2c_write_frame, i2c_write_outcome, spi_read_frame,
    spi_read_outcome, spi_write_frame, spi_write_outcome, I2C_ADDRESS, SPI_READ, SPI_WRITE,
};
use icm42688p::{Error, I2cInterface, SpiBusInterface};

/// What the scripted SPI bus saw.
#[derive(Debug, PartialEq, Eq, Clone)]
enum SpiCall {
    Transfer(Vec<u8>, usize),
    Write(Vec<u8>),
}

/// An SPI bus that answers every transfer with `reply` and fails when told to.
struct ScriptedSpi {
    calls: Vec<SpiCall>,
    reply: [u8; 2],
    fail: bool,
}

impl ScriptedSpi {
    fn new(reply: [u8; 2]) -> Self {
        ScriptedSpi { calls: Vec::new(), reply, fail: false }
    }

    fn failing() -> Self {
        ScriptedSpi { calls: Vec::new(), reply: [0, 0], fail: true }
    }

    fn finish(&self) -> Result<(), spi::ErrorKind> {
        if self.fail {
            Err(spi::ErrorKind::Other)
        } else {
            Ok(())
        }
    }
}

impl spi::ErrorType for ScriptedSpi {
    type Error = spi::ErrorKind;
}

impl SpiBus for ScriptedSpi {
    fn read(&mut self, _words: &mut [u8]) -> Result<(), Self::Error> {
        panic!("the interface never reads without writing");
    }

    fn write(&mut self, words: &[u8]) -> Result<(), Self::Error> {
        self.calls.push(SpiCall::Write(words.to_vec()));
        self.finish()
    }

    fn transfer(&mut self, read: &mut [u8], write: &[u8]) -> Result<(), Self::Error> {
        self.calls.push(SpiCall::Transfer(write.to_vec(), read.len()));
        for (slot, byte) in read.iter_mut().zip(self.reply.iter()) {
            *slot = *byte;
        }
        self.finish()
    }

    fn transfer_in_place(&mut self, _words: &mut [u8]) -> Result<(), Self::Error> {
        panic!("the interface never transfers in place");
    }

    fn flush(&mut self) -> Result<(), Self::Error> {
        Ok(())
    }
}

/// What the scripted I2C bus saw: the device address and, per operation,
/// the bytes written or the number of bytes asked for.
#[derive(Debug, PartialEq, Eq, Clone)]
enum I2cStep {
    Write(Vec<u8>),
    Read(usize),
}

/// An I2C bus that answers every read with `reply` and fails when told to.
struct ScriptedI2c {
    transactions: Vec<(u8, Vec<I2cStep>)>,
    reply: u8,
    fail: bool,
}

impl ScriptedI2c {
    fn new(reply: u8) -> Self {
        ScriptedI2c { transactions: Vec::new(), reply, fail: false }
    }

    fn failing() -> Self {
        ScriptedI2c { transactions: Vec::new(), reply: 0, fail: true }
    }
}

impl i2c::ErrorType for ScriptedI2c {
    type Error = i2c::ErrorKind;
}

impl I2c for ScriptedI2c {
    fn transaction(
        &mut self,
        address: u8,
        operations: &mut [i2c::Operation<'_>],
    ) -> Result<(), Self::Error> {
        let mut steps = Vec::new();
        for operation in operations.iter_mut() {
            match operation {
                i2c::Operation::Write(bytes) => steps.push(I2cStep::Write(bytes.to_vec())),
                i2c::Operation::Read(buffer) => {
                    steps.push(I2cStep::Read(buffer.len()));
                    for slot in buffer.iter_mut() {
                        *slot = self.reply;
                    }
                }
            }
        }
        self.transactions.push((address, steps));
        if self.fail {
            Err(i2c::ErrorKind::Other)
        } else {
            Ok(())
        }
    }
}

#[test]
fn spi_frames_carry_the_read_flag_in_the_top_bit() {
    assert_eq!(SPI_READ, 0b1000_0000);
    assert_eq!(SPI_WRITE, 0b0000_0000);
    assert_eq!(spi_read_frame(0x75), [0xF5, 0x00]);
    assert_eq!(spi_read_frame(0x00), [0x80, 0x00]);
    assert_eq!(spi_read_frame(0x7F), [0xFF, 0x00]);
    assert_eq!(spi_write_frame(0x4E, 0x0F), [0x4E, 0x0F]);
    assert_eq!(spi_write_frame(0x7F, 0xFF), [0x7F, 0xFF]);
    for address in 0..0x80u8 {
        assert_eq!(spi_read_frame(address), [0x80 | address, 0x00]);
        assert_eq!(spi_write_frame(address, 0xA5), [address, 0xA5]);
    }
}

#[test]
fn spi_outcomes_take_the_second_byte_or_report_the_bus() {
    assert_eq!(spi_read_outcome(Some([0x12, 0x34])), Ok(0x34));
    assert_eq!(spi_read_outcome(None), Err(Error::Spi));
    assert_eq!(spi_write_outcome(true), Ok(()));
    assert_eq!(spi_write_outcome(false), Err(Error::Spi));
}

#[test]
fn i2c_frames_lead_with_the_register_address() {
    assert_eq!(I2C_ADDRESS, 0b1101000);
    assert_eq!(i2c_read_frame(0x75), [0x75]);
    assert_eq!(i2c_write_frame(0x4E, 0x0F), [0x4E, 0x0F]);
}

#[test]
fn i2c_outcomes_take_the_byte_or_report_the_bus() {
    assert_eq!(i2c_read_outcome(Some([0x47])), Ok(0x47));
    assert_eq!(i2c_read_outcome(None), Err(Error::I2C));
    assert_eq!(i2c_write_outcome(true), Ok(()));
    assert_eq!(i2c_write_outcome(false), Err(Error::I2C));
}

#[test]
fn spi_read_of_who_am_i_sends_f5_00_and_returns_the_second_byte() {
    let mut interface = SpiBusInterface::new(ScriptedSpi::new([0xAA, 0x47]));
    assert_eq!(interface.read_register(0x75), Ok(0x47));
    let bus = interface.release();
    assert_eq!(bus.calls, vec![SpiCall::Transfer(vec![0x80 | 0x75, 0x00], 2)]);
}

#[test]
fn spi_write_sends_address_then_value() {
    let mut interface = SpiBusInterface::new(ScriptedSpi::new([0, 0]));
    assert_eq!(interface.write_register(0x4E, 0x0F), Ok(()));
    let bus = interface.release();
    assert_eq!(bus.calls, vec![SpiCall::Write(vec![0x4E, 0x0F])]);
}

#[test]
fn spi_faults_become_the_spi_error() {
    let mut interface = SpiBusInterface::new(ScriptedSpi::failing());
    assert_eq!(interface.read_register(0x75), Err(Error::Spi));
    assert_eq!(interface.write_register(0x4E, 0x0F), Err(Error::Spi));
    let bus = interface.release();
    assert_eq!(
        bus.calls,
        vec![SpiCall::Transfer(vec![0xF5, 0x00], 2), SpiCall::Write(vec![0x4E, 0x0F])],
    );
}

#[test]
fn spi_transactions_follow_each_other_in_order() {
    let mut interface = SpiBusInterface::new(ScriptedSpi::new([0x00, 0x06]));
    assert_eq!(interface.read_register(0x50), Ok(0x06));
    assert_eq!(interface.write_register(0x50, 0x26), Ok(()));
    assert_eq!(interface.read_register(0x4F), Ok(0x06));
    let bus = interface.release();
    assert_eq!(
        bus.calls,
        vec![
            SpiCall::Transfer(vec![0xD0, 0x00], 2),
            SpiCall::Write(vec![0x50, 0x26]),
            SpiCall::Transfer(vec![0xCF, 0x00], 2),
        ],
    );
}

#[test]
fn i2c_read_of_who_am_i_writes_75_then_reads_one_byte() {
    let mut interface = I2cInterface::new(ScriptedI2c::new(0x47));
    assert_eq!(interface.read_register(0x75), Ok(0x47));
    let bus = interface.release();
    assert_eq!(
        bus.transactions,
        vec![(0b1101000, vec![I2cStep::Write(vec![0x75]), I2cStep::Read(1)])],
    );
}

#[test]
fn i2c_write_sends_address_and_value_in_one_transaction() {
    let mut interface = I2cInterface::new(ScriptedI2c::new(0));
    assert_eq!(interface.write_register(0x4E, 0x0F), Ok(()));
    let bus = interface.release();
    assert_eq!(bus.transactions, vec![(0x68, vec![I2cStep::Write(vec![0x4E, 0x0F])])]);
}

#[test]
fn i2c_faults_become_the_i2c_error() {
    let mut interface = I2cInterface::new(ScriptedI2c::failing());
    assert_eq!(interface.read_register(0x75), Err(Error::I2C));
    assert_eq!(interface.write_register(0x4E, 0x0F), Err(Error::I2C));
    let bus = interface.release();
    assert_eq!(bus.transactions.len(), 2);
}
