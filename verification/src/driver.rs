//! The driver: typed operations on the sensor, composed of bank selection,
//! register access and the configuration codec.

use crate::bitfield::BitField;
use crate::config::{
    AccelMode, AccelODR, AccelRange, FifoMode, GyroMode, GyroODR, GyroRange, PowerMode,
};
use crate::error::Error;
use crate::interface::{Access, Interface};
use crate::register::{BankSelection, Register};
use crate::sample::{to_centi_celsius, to_milli_dps, to_milli_g, word_from_bytes};
use crate::transcript::{
    acceleration_run, angular_velocity_run, bank_selection_run, configure_run, init_run,
    lemma_prefix_chain, lemma_read_run_extends, lemma_read_value_run_extends,
    lemma_read_word_run_extends, lemma_select_run_extends, lemma_write_field_run_extends,
    read_axes_run, read_field_run, read_run, read_value_run, read_word_run, select_run,
    temperature_run, write_field_run, write_run, Outcome, DEVICE_ID,
};
use vstd::prelude::*;

verus! {

/// ICM-42688-P driver.
///
/// Orientation of axes:
///
/// ```text
/// +Z
/// ^   +Y head
/// | 7
/// |/
/// +-------> +X
/// ```
///
/// The driver owns its interface and mirrors the bank selected on the device,
/// so that the bank-select register is written only when an access needs
/// another bank. The mirror starts at the device's power-on default, bank 0,
/// and follows every bank selection the driver makes or reads.
///
/// In its model the driver keeps a history: every access it asked its
/// interface for, with the outcome that came back.
pub struct Icm42688p<T> {
    interface: T,
    bank: BankSelection,
    history: Ghost<Seq<Access>>,
}

impl<T: Interface> Icm42688p<T> {
    /// Every register access the driver asked its interface for, with its
    /// outcome, oldest first.
    pub closed spec fn history(&self) -> Seq<Access> {
        self.history@
    }

    /// The interface the driver owns.
    pub closed spec fn interface(&self) -> T {
        self.interface
    }

    /// The bank the driver believes selected on the device.
    pub closed spec fn cached_bank(&self) -> BankSelection {
        self.bank
    }

    /// Whether an operation took the driver from `before` to this state,
    /// returning `result`: the history only grew, and `run`, the replay of
    /// the operation against the grown history from where `before` ended,
    /// gives `result`, the bank now believed selected, and the end of the
    /// history.
    pub open spec fn ran<V>(
        &self,
        before: &Self,
        run: Option<Outcome<V>>,
        result: Result<V, Error>,
    ) -> bool {
        &&& before.history().is_prefix_of(self.history())
        &&& run == Some(
            Outcome { result, bank: self.cached_bank(), end: self.history().len() as int },
        )
    }

    /// A driver on `interface`, with bank 0 believed selected. Nothing is
    /// sent to the device.
    pub fn new(interface: T) -> (imu: Self)
        ensures
            imu.interface() == interface,
            imu.history() == Seq::<Access>::empty(),
            imu.cached_bank() == BankSelection::Bank0,
    {
        Icm42688p { interface, bank: BankSelection::Bank0, history: Ghost(Seq::empty()) }
    }

    /// Gives the interface back.
    pub fn release(self) -> (interface: T)
        ensures
            interface == self.interface(),
    {
        self.interface
    }

    /// Asks the interface for a read and takes it down in the history.
    fn bus_read(&mut self, address: u8) -> (outcome: Result<u8, Error>)
        requires
            address < 0x80,
        ensures
            final(self).history() == old(self).history().push(Access::Read { address, outcome }),
            final(self).cached_bank() == old(self).cached_bank(),
    {
        let outcome = self.interface.read_register(address);
        proof {
            self.history@ = self.history@.push(Access::Read { address, outcome });
        }
        outcome
    }

    /// Asks the interface for a write and takes it down in the history.
    fn bus_write(&mut self, address: u8, value: u8) -> (outcome: Result<(), Error>)
        requires
            address < 0x80,
        ensures
            final(self).history() == old(self).history().push(
                Access::Write { address, value, outcome },
            ),
            final(self).cached_bank() == old(self).cached_bank(),
    {
        let outcome = self.interface.write_register(address, value);
        proof {
            self.history@ = self.history@.push(Access::Write { address, value, outcome });
        }
        outcome
    }

    /// Makes sure the bank of `register` is selected before an access to it.
    fn select(&mut self, register: Register) -> (r: Result<(), Error>)
        ensures
            final(self).ran(
                old(self),
                select_run(
                    final(self).history(),
                    old(self).history().len() as int,
                    old(self).cached_bank(),
                    register,
                ),
                r,
            ),
    {
        let target = register.bank_selection();
        if register != Register::RegBankSel && self.bank != target {
            let outcome = self.bus_write(Register::RegBankSel.address(), target.code());
            if outcome.is_ok() {
                self.bank = target;
            }
            outcome
        } else {
            Ok(())
        }
    }

    /// Reads `register`, after selecting its bank where another bank is
    /// believed selected.
    pub fn read(&mut self, register: Register) -> (r: Result<u8, Error>)
        ensures
            final(self).ran(
                old(self),
                read_run(
                    final(self).history(),
                    old(self).history().len() as int,
                    old(self).cached_bank(),
                    register,
                ),
                r,
            ),
    {
        let ghost start = self.history().len() as int;
        let ghost bank = self.cached_bank();
        match self.select(register) {
            Err(e) => Err(e),
            Ok(()) => {
                let ghost selected = self.history();
                let outcome = self.bus_read(register.address());
                proof {
                    lemma_select_run_extends(selected, self.history(), start, bank, register);
                }
                outcome
            },
        }
    }

    /// Writes `buffer` to `register`, after selecting its bank where another
    /// bank is believed selected. A successful write of a bank's code to the
    /// bank-select register makes that bank the one believed selected.
    pub fn write(&mut self, register: Register, buffer: u8) -> (r: Result<(), Error>)
        ensures
            final(self).ran(
                old(self),
                write_run(
                    final(self).history(),
                    old(self).history().len() as int,
                    old(self).cached_bank(),
                    register,
                    buffer,
                ),
                r,
            ),
    {
        let ghost start = self.history().len() as int;
        let ghost bank = self.cached_bank();
        match self.select(register) {
            Err(e) => Err(e),
            Ok(()) => {
                let ghost selected = self.history();
                let outcome = self.bus_write(register.address(), buffer);
                proof {
                    lemma_select_run_extends(selected, self.history(), start, bank, register);
                }
                if register == Register::RegBankSel && outcome.is_ok() {
                    match BankSelection::try_from(buffer) {
                        Ok(selected_bank) => {
                            self.bank = selected_bank;
                        },
                        Err(_) => {},
                    }
                }
                outcome
            },
        }
    }

    /// Reads the device's identity register.
    pub fn device_id(&mut self) -> (r: Result<u8, Error>)
        ensures
            final(self).ran(
                old(self),
                read_run(
                    final(self).history(),
                    old(self).history().len() as int,
                    old(self).cached_bank(),
                    Register::WhoAmI,
                ),
                r,
            ),
    {
        self.read(Register::WhoAmI)
    }

    /// Reads which bank is selected on the device and takes it over as the
    /// bank believed selected. A byte that names no bank is `DataCorrupted`.
    pub fn bank_selection(&mut self) -> (r: Result<BankSelection, Error>)
        ensures
            final(self).ran(
                old(self),
                bank_selection_run(
                    final(self).history(),
                    old(self).history().len() as int,
                    old(self).cached_bank(),
                ),
                r,
            ),
    {
        match self.read(Register::RegBankSel) {
            Err(e) => Err(e),
            Ok(byte) => match BankSelection::try_from(byte) {
                Ok(bank) => {
                    self.bank = bank;
                    Ok(bank)
                },
                Err(_) => Err(Error::DataCorrupted),
            },
        }
    }

    /// Selects `bank_selection` on the device with one write to the
    /// bank-select register; once that went through, the bank is the one
    /// believed selected.
    pub fn set_bank_selection(&mut self, bank_selection: BankSelection) -> (r: Result<(), Error>)
        ensures
            final(self).ran(
                old(self),
                write_run(
                    final(self).history(),
                    old(self).history().len() as int,
                    old(self).cached_bank(),
                    Register::RegBankSel,
                    bank_selection.spec_code(),
                ),
                r,
            ),
    {
        self.write(Register::RegBankSel, bank_selection.code())
    }

    /// Reads one bit field of `register`.
    pub fn read_field(&mut self, register: Register, field: BitField) -> (r: Result<u8, Error>)
        requires
            field.wf(),
        ensures
            final(self).ran(
                old(self),
                read_field_run(
                    final(self).history(),
                    old(self).history().len() as int,
                    old(self).cached_bank(),
                    register,
                    field,
                ),
                r,
            ),
    {
        match self.read(register) {
            Err(e) => Err(e),
            Ok(byte) => Ok(field.extract(byte)),
        }
    }

    /// Replaces one bit field of `register` by the low bits of `value` and
    /// leaves the other bits of the register as they were read: the
    /// register is read, the field's bits are cleared and `value`, shifted to
    /// the field's offset, is set in their place, and the byte is written
    /// back.
    pub fn write_field(&mut self, register: Register, field: BitField, value: u8) -> (r: Result<
        (),
        Error,
    >)
        requires
            field.wf(),
        ensures
            final(self).ran(
                old(self),
                write_field_run(
                    final(self).history(),
                    old(self).history().len() as int,
                    old(self).cached_bank(),
                    register,
                    field,
                    value,
                ),
                r,
            ),
    {
        let ghost start = self.history().len() as int;
        let ghost bank = self.cached_bank();
        let ghost initial = self.history();
        proof {
            reveal(write_field_run);
        }
        match self.read(register) {
            Err(e) => Err(e),
            Ok(byte) => {
                let ghost read = self.history();
                let outcome = self.write(register, field.insert(byte, value));
                proof {
                    reveal(write_field_run);
                    lemma_read_run_extends(read, self.history(), start, bank, register);
                    lemma_prefix_chain(initial, read, self.history());
                }
                outcome
            },
        }
    }

    /// Reads a 16-bit sample from the register with its upper byte and the
    /// register with its lower byte, in this order.
    pub fn read_word(&mut self, high: Register, low: Register) -> (r: Result<i16, Error>)
        ensures
            final(self).ran(
                old(self),
                read_word_run(
                    final(self).history(),
                    old(self).history().len() as int,
                    old(self).cached_bank(),
                    high,
                    low,
                ),
                r,
            ),
    {
        let ghost start = self.history().len() as int;
        let ghost bank = self.cached_bank();
        let ghost initial = self.history();
        proof {
            reveal(read_word_run);
        }
        match self.read(high) {
            Err(e) => Err(e),
            Ok(high_byte) => {
                let ghost read = self.history();
                let outcome = self.read(low);
                proof {
                    lemma_read_run_extends(read, self.history(), start, bank, high);
                    lemma_prefix_chain(initial, read, self.history());
                }
                match outcome {
                    Err(e) => Err(e),
                    Ok(low_byte) => Ok(word_from_bytes(high_byte, low_byte)),
                }
            },
        }
    }

    /// Reads three 16-bit samples, one per axis, in the order X, Y, Z.
    fn read_axes(
        &mut self,
        x: (Register, Register),
        y: (Register, Register),
        z: (Register, Register),
    ) -> (r: Result<(i16, i16, i16), Error>)
        ensures
            final(self).ran(
                old(self),
                read_axes_run(
                    final(self).history(),
                    old(self).history().len() as int,
                    old(self).cached_bank(),
                    x,
                    y,
                    z,
                ),
                r,
            ),
    {
        let ghost start = self.history().len() as int;
        let ghost bank = self.cached_bank();
        let ghost initial = self.history();
        let x_value = match self.read_word(x.0, x.1) {
            Err(e) => {
                return Err(e);
            },
            Ok(value) => value,
        };
        let ghost first = self.history();
        let ghost first_bank = self.cached_bank();
        let second_outcome = self.read_word(y.0, y.1);
        let ghost second = self.history();
        let ghost second_bank = self.cached_bank();
        proof {
            lemma_read_word_run_extends(first, second, start, bank, x.0, x.1);
            lemma_prefix_chain(initial, first, second);
        }
        let y_value = match second_outcome {
            Err(e) => {
                return Err(e);
            },
            Ok(value) => value,
        };
        let third_outcome = self.read_word(z.0, z.1);
        proof {
            lemma_read_word_run_extends(first, self.history(), start, bank, x.0, x.1);
            lemma_read_word_run_extends(
                second,
                self.history(),
                first.len() as int,
                first_bank,
                y.0,
                y.1,
            );
            lemma_prefix_chain(initial, second, self.history());
        }
        match third_outcome {
            Err(e) => Err(e),
            Ok(z_value) => Ok((x_value, y_value, z_value)),
        }
    }

    /// Reads the acceleration along the three axes as raw samples: for each
    /// axis, in the order X, Y, Z, the upper byte and then the lower byte of
    /// a 16-bit two's-complement number.
    pub fn raw_acceleration(&mut self) -> (r: Result<(i16, i16, i16), Error>)
        ensures
            final(self).ran(
                old(self),
                read_axes_run(
                    final(self).history(),
                    old(self).history().len() as int,
                    old(self).cached_bank(),
                    (Register::AccelDataX1, Register::AccelDataX0),
                    (Register::AccelDataY1, Register::AccelDataY0),
                    (Register::AccelDataZ1, Register::AccelDataZ0),
                ),
                r,
            ),
    {
        self.read_axes(
            (Register::AccelDataX1, Register::AccelDataX0),
            (Register::AccelDataY1, Register::AccelDataY0),
            (Register::AccelDataZ1, Register::AccelDataZ0),
        )
    }

    /// Reads the angular rate about the three axes as raw samples: for each
    /// axis, in the order X, Y, Z, the upper byte and then the lower byte of
    /// a 16-bit two's-complement number.
    pub fn raw_angular_velocity(&mut self) -> (r: Result<(i16, i16, i16), Error>)
        ensures
            final(self).ran(
                old(self),
                read_axes_run(
                    final(self).history(),
                    old(self).history().len() as int,
                    old(self).cached_bank(),
                    (Register::GyroDataX1, Register::GyroDataX0),
                    (Register::GyroDataY1, Register::GyroDataY0),
                    (Register::GyroDataZ1, Register::GyroDataZ0),
                ),
                r,
            ),
    {
        self.read_axes(
            (Register::GyroDataX1, Register::GyroDataX0),
            (Register::GyroDataY1, Register::GyroDataY0),
            (Register::GyroDataZ1, Register::GyroDataZ0),
        )
    }

    /// Reads the temperature as a raw sample: the upper byte and then the
    /// lower byte of a 16-bit two's-complement number.
    pub fn raw_temperature(&mut self) -> (r: Result<i16, Error>)
        ensures
            final(self).ran(
                old(self),
                read_word_run(
                    final(self).history(),
                    old(self).history().len() as int,
                    old(self).cached_bank(),
                    Register::TempData1,
                    Register::TempData0,
                ),
                r,
            ),
    {
        self.read_word(Register::TempData1, Register::TempData0)
    }

    /// Reads the accelerometer's full-scale range from its field and decodes it; a code that the
    /// device reserves is `DataCorrupted`.
    pub fn accel_range(&mut self) -> (r: Result<AccelRange, Error>)
        ensures
            final(self).ran(
                old(self),
                read_value_run(
                    final(self).history(),
                    old(self).history().len() as int,
                    old(self).cached_bank(),
                    AccelRange::spec_register(),
                    AccelRange::spec_field(),
                    |code: u8| AccelRange::decode(code),
                ),
                r,
            ),
    {
        match self.read_field(AccelRange::register(), AccelRange::field()) {
            Err(e) => Err(e),
            Ok(code) => AccelRange::try_from(code),
        }
    }

    /// Sets the accelerometer's full-scale range by a read-modify-write of its field, which
    /// leaves the other bits of the register as they were read.
    pub fn set_accel_range(&mut self, range: AccelRange) -> (r: Result<(), Error>)
        ensures
            final(self).ran(
                old(self),
                write_field_run(
                    final(self).history(),
                    old(self).history().len() as int,
                    old(self).cached_bank(),
                    AccelRange::spec_register(),
                    AccelRange::spec_field(),
                    range.spec_code(),
                ),
                r,
            ),
    {
        self.write_field(AccelRange::register(), AccelRange::field(), range.code())
    }

    /// Reads the gyroscope's full-scale range from its field and decodes it; a code that the
    /// device reserves is `DataCorrupted`.
    pub fn gyro_range(&mut self) -> (r: Result<GyroRange, Error>)
        ensures
            final(self).ran(
                old(self),
                read_value_run(
                    final(self).history(),
                    old(self).history().len() as int,
                    old(self).cached_bank(),
                    GyroRange::spec_register(),
                    GyroRange::spec_field(),
                    |code: u8| GyroRange::decode(code),
                ),
                r,
            ),
    {
        match self.read_field(GyroRange::register(), GyroRange::field()) {
            Err(e) => Err(e),
            Ok(code) => GyroRange::try_from(code),
        }
    }

    /// Sets the gyroscope's full-scale range by a read-modify-write of its field, which
    /// leaves the other bits of the register as they were read.
    pub fn set_gyro_range(&mut self, range: GyroRange) -> (r: Result<(), Error>)
        ensures
            final(self).ran(
                old(self),
                write_field_run(
                    final(self).history(),
                    old(self).history().len() as int,
                    old(self).cached_bank(),
                    GyroRange::spec_register(),
                    GyroRange::spec_field(),
                    range.spec_code(),
                ),
                r,
            ),
    {
        self.write_field(GyroRange::register(), GyroRange::field(), range.code())
    }

    /// Reads the accelerometer's output data rate from its field and decodes it; a code that the
    /// device reserves is `DataCorrupted`.
    pub fn accel_odr(&mut self) -> (r: Result<AccelODR, Error>)
        ensures
            final(self).ran(
                old(self),
                read_value_run(
                    final(self).history(),
                    old(self).history().len() as int,
                    old(self).cached_bank(),
                    AccelODR::spec_register(),
                    AccelODR::spec_field(),
                    |code: u8| AccelODR::decode(code),
                ),
                r,
            ),
    {
        match self.read_field(AccelODR::register(), AccelODR::field()) {
            Err(e) => Err(e),
            Ok(code) => AccelODR::try_from(code),
        }
    }

    /// Sets the accelerometer's output data rate by a read-modify-write of its field, which
    /// leaves the other bits of the register as they were read.
    pub fn set_accel_odr(&mut self, odr: AccelODR) -> (r: Result<(), Error>)
        ensures
            final(self).ran(
                old(self),
                write_field_run(
                    final(self).history(),
                    old(self).history().len() as int,
                    old(self).cached_bank(),
                    AccelODR::spec_register(),
                    AccelODR::spec_field(),
                    odr.spec_code(),
                ),
                r,
            ),
    {
        self.write_field(AccelODR::register(), AccelODR::field(), odr.code())
    }

    /// Reads the gyroscope's output data rate from its field and decodes it; a code that the
    /// device reserves is `DataCorrupted`.
    pub fn gyro_odr(&mut self) -> (r: Result<GyroODR, Error>)
        ensures
            final(self).ran(
                old(self),
                read_value_run(
                    final(self).history(),
                    old(self).history().len() as int,
                    old(self).cached_bank(),
                    GyroODR::spec_register(),
                    GyroODR::spec_field(),
                    |code: u8| GyroODR::decode(code),
                ),
                r,
            ),
    {
        match self.read_field(GyroODR::register(), GyroODR::field()) {
            Err(e) => Err(e),
            Ok(code) => GyroODR::try_from(code),
        }
    }

    /// Sets the gyroscope's output data rate by a read-modify-write of its field, which
    /// leaves the other bits of the register as they were read.
    pub fn set_gyro_odr(&mut self, odr: GyroODR) -> (r: Result<(), Error>)
        ensures
            final(self).ran(
                old(self),
                write_field_run(
                    final(self).history(),
                    old(self).history().len() as int,
                    old(self).cached_bank(),
                    GyroODR::spec_register(),
                    GyroODR::spec_field(),
                    odr.spec_code(),
                ),
                r,
            ),
    {
        self.write_field(GyroODR::register(), GyroODR::field(), odr.code())
    }

    /// Reads the power mode of both sensors from its field and decodes it; a code that the
    /// device reserves is `DataCorrupted`.
    pub fn power_mode(&mut self) -> (r: Result<PowerMode, Error>)
        ensures
            final(self).ran(
                old(self),
                read_value_run(
                    final(self).history(),
                    old(self).history().len() as int,
                    old(self).cached_bank(),
                    PowerMode::spec_register(),
                    PowerMode::spec_field(),
                    |code: u8| PowerMode::decode(code),
                ),
                r,
            ),
    {
        match self.read_field(PowerMode::register(), PowerMode::field()) {
            Err(e) => Err(e),
            Ok(code) => PowerMode::try_from(code),
        }
    }

    /// Sets the power mode of both sensors by a read-modify-write of its field, which
    /// leaves the other bits of the register as they were read.
    pub fn set_power_mode(&mut self, power_mode: PowerMode) -> (r: Result<(), Error>)
        ensures
            final(self).ran(
                old(self),
                write_field_run(
                    final(self).history(),
                    old(self).history().len() as int,
                    old(self).cached_bank(),
                    PowerMode::spec_register(),
                    PowerMode::spec_field(),
                    power_mode.spec_code(),
                ),
                r,
            ),
    {
        self.write_field(PowerMode::register(), PowerMode::field(), power_mode.code())
    }

    /// Reads the accelerometer's power mode from its field and decodes it; a code that the
    /// device reserves is `DataCorrupted`.
    pub fn accel_mode(&mut self) -> (r: Result<AccelMode, Error>)
        ensures
            final(self).ran(
                old(self),
                read_value_run(
                    final(self).history(),
                    old(self).history().len() as int,
                    old(self).cached_bank(),
                    AccelMode::spec_register(),
                    AccelMode::spec_field(),
                    |code: u8| AccelMode::decode(code),
                ),
                r,
            ),
    {
        match self.read_field(AccelMode::register(), AccelMode::field()) {
            Err(e) => Err(e),
            Ok(code) => AccelMode::try_from(code),
        }
    }

    /// Sets the accelerometer's power mode by a read-modify-write of its field, which
    /// leaves the other bits of the register as they were read.
    pub fn set_accel_mode(&mut self, mode: AccelMode) -> (r: Result<(), Error>)
        ensures
            final(self).ran(
                old(self),
                write_field_run(
                    final(self).history(),
                    old(self).history().len() as int,
                    old(self).cached_bank(),
                    AccelMode::spec_register(),
                    AccelMode::spec_field(),
                    mode.spec_code(),
                ),
                r,
            ),
    {
        self.write_field(AccelMode::register(), AccelMode::field(), mode.code())
    }

    /// Reads the gyroscope's power mode from its field and decodes it; a code that the
    /// device reserves is `DataCorrupted`.
    pub fn gyro_mode(&mut self) -> (r: Result<GyroMode, Error>)
        ensures
            final(self).ran(
                old(self),
                read_value_run(
                    final(self).history(),
                    old(self).history().len() as int,
                    old(self).cached_bank(),
                    GyroMode::spec_register(),
                    GyroMode::spec_field(),
                    |code: u8| GyroMode::decode(code),
                ),
                r,
            ),
    {
        match self.read_field(GyroMode::register(), GyroMode::field()) {
            Err(e) => Err(e),
            Ok(code) => GyroMode::try_from(code),
        }
    }

    /// Sets the gyroscope's power mode by a read-modify-write of its field, which
    /// leaves the other bits of the register as they were read.
    pub fn set_gyro_mode(&mut self, mode: GyroMode) -> (r: Result<(), Error>)
        ensures
            final(self).ran(
                old(self),
                write_field_run(
                    final(self).history(),
                    old(self).history().len() as int,
                    old(self).cached_bank(),
                    GyroMode::spec_register(),
                    GyroMode::spec_field(),
                    mode.spec_code(),
                ),
                r,
            ),
    {
        self.write_field(GyroMode::register(), GyroMode::field(), mode.code())
    }

    /// Reads the mode of the sample buffer from its field and decodes it; a code that the
    /// device reserves is `DataCorrupted`.
    pub fn fifo_mode(&mut self) -> (r: Result<FifoMode, Error>)
        ensures
            final(self).ran(
                old(self),
                read_value_run(
                    final(self).history(),
                    old(self).history().len() as int,
                    old(self).cached_bank(),
                    FifoMode::spec_register(),
                    FifoMode::spec_field(),
                    |code: u8| FifoMode::decode(code),
                ),
                r,
            ),
    {
        match self.read_field(FifoMode::register(), FifoMode::field()) {
            Err(e) => Err(e),
            Ok(code) => FifoMode::try_from(code),
        }
    }

    /// Sets the mode of the sample buffer by a read-modify-write of its field, which
    /// leaves the other bits of the register as they were read.
    pub fn set_fifo_mode(&mut self, mode: FifoMode) -> (r: Result<(), Error>)
        ensures
            final(self).ran(
                old(self),
                write_field_run(
                    final(self).history(),
                    old(self).history().len() as int,
                    old(self).cached_bank(),
                    FifoMode::spec_register(),
                    FifoMode::spec_field(),
                    mode.spec_code(),
                ),
                r,
            ),
    {
        self.write_field(FifoMode::register(), FifoMode::field(), mode.code())
    }

    /// Applies the default configuration: the default accelerometer range,
    /// gyroscope range, accelerometer rate and gyroscope rate, then the
    /// six-axis low-noise power mode. The first failure ends it; what was
    /// written before stays written.
    pub fn configure(&mut self) -> (r: Result<(), Error>)
        ensures
            final(self).ran(
                old(self),
                configure_run(
                    final(self).history(),
                    old(self).history().len() as int,
                    old(self).cached_bank(),
                ),
                r,
            ),
    {
        let ghost h0 = self.history();
        let ghost b0 = self.cached_bank();
        let first = self.set_accel_range(AccelRange::default());
        let ghost h1 = self.history();
        let ghost b1 = self.cached_bank();
        if first.is_err() {
            return first;
        }
        let second = self.set_gyro_range(GyroRange::default());
        let ghost h2 = self.history();
        let ghost b2 = self.cached_bank();
        proof {
            lemma_prefix_chain(h0, h1, h2);
            lemma_write_field_run_extends(
                h1,
                h2,
                h0.len() as int,
                b0,
                AccelRange::spec_register(),
                AccelRange::spec_field(),
                AccelRange::G16.spec_code(),
            );
        }
        if second.is_err() {
            return second;
        }
        let third = self.set_accel_odr(AccelODR::default());
        let ghost h3 = self.history();
        let ghost b3 = self.cached_bank();
        proof {
            lemma_prefix_chain(h0, h2, h3);
            lemma_prefix_chain(h1, h2, h3);
            lemma_write_field_run_extends(
                h1,
                h3,
                h0.len() as int,
                b0,
                AccelRange::spec_register(),
                AccelRange::spec_field(),
                AccelRange::G16.spec_code(),
            );
            lemma_write_field_run_extends(
                h2,
                h3,
                h1.len() as int,
                b1,
                GyroRange::spec_register(),
                GyroRange::spec_field(),
                GyroRange::Dps2000.spec_code(),
            );
        }
        if third.is_err() {
            return third;
        }
        let fourth = self.set_gyro_odr(GyroODR::default());
        let ghost h4 = self.history();
        let ghost b4 = self.cached_bank();
        proof {
            lemma_prefix_chain(h0, h3, h4);
            lemma_prefix_chain(h1, h3, h4);
            lemma_prefix_chain(h2, h3, h4);
            lemma_write_field_run_extends(
                h1,
                h4,
                h0.len() as int,
                b0,
                AccelRange::spec_register(),
                AccelRange::spec_field(),
                AccelRange::G16.spec_code(),
            );
            lemma_write_field_run_extends(
                h2,
                h4,
                h1.len() as int,
                b1,
                GyroRange::spec_register(),
                GyroRange::spec_field(),
                GyroRange::Dps2000.spec_code(),
            );
            lemma_write_field_run_extends(
                h3,
                h4,
                h2.len() as int,
                b2,
                AccelODR::spec_register(),
                AccelODR::spec_field(),
                AccelODR::Hz1k.spec_code(),
            );
        }
        if fourth.is_err() {
            return fourth;
        }
        let fifth = self.set_power_mode(PowerMode::SixAxisLowNoise);
        let ghost h5 = self.history();
        proof {
            lemma_prefix_chain(h0, h4, h5);
            lemma_prefix_chain(h1, h4, h5);
            lemma_prefix_chain(h2, h4, h5);
            lemma_prefix_chain(h3, h4, h5);
            lemma_write_field_run_extends(
                h1,
                h5,
                h0.len() as int,
                b0,
                AccelRange::spec_register(),
                AccelRange::spec_field(),
                AccelRange::G16.spec_code(),
            );
            lemma_write_field_run_extends(
                h2,
                h5,
                h1.len() as int,
                b1,
                GyroRange::spec_register(),
                GyroRange::spec_field(),
                GyroRange::Dps2000.spec_code(),
            );
            lemma_write_field_run_extends(
                h3,
                h5,
                h2.len() as int,
                b2,
                AccelODR::spec_register(),
                AccelODR::spec_field(),
                AccelODR::Hz1k.spec_code(),
            );
            lemma_write_field_run_extends(
                h4,
                h5,
                h3.len() as int,
                b3,
                GyroODR::spec_register(),
                GyroODR::spec_field(),
                GyroODR::Hz1k.spec_code(),
            );
        }
        fifth
    }

    /// Checks the device's identity and, where it is the expected one,
    /// applies the default configuration. Any other identity is
    /// `BadDeviceId`, and nothing is written after it was read.
    pub fn init(&mut self) -> (r: Result<(), Error>)
        ensures
            final(self).ran(
                old(self),
                init_run(
                    final(self).history(),
                    old(self).history().len() as int,
                    old(self).cached_bank(),
                ),
                r,
            ),
    {
        let ghost initial = self.history();
        let ghost bank = self.cached_bank();
        match self.device_id() {
            Err(e) => Err(e),
            Ok(id) => {
                if id != DEVICE_ID {
                    Err(Error::BadDeviceId)
                } else {
                    let ghost identified = self.history();
                    let outcome = self.configure();
                    proof {
                        lemma_prefix_chain(initial, identified, self.history());
                        lemma_read_run_extends(
                            identified,
                            self.history(),
                            initial.len() as int,
                            bank,
                            Register::WhoAmI,
                        );
                    }
                    outcome
                }
            },
        }
    }

    /// Reads the acceleration along the three axes in thousandths of a g.
    /// The range is read from the device first, so the samples are scaled by
    /// the range the device holds at the time of the reading.
    pub fn acceleration_milli_g(&mut self) -> (r: Result<(i32, i32, i32), Error>)
        ensures
            final(self).ran(
                old(self),
                acceleration_run(
                    final(self).history(),
                    old(self).history().len() as int,
                    old(self).cached_bank(),
                ),
                r,
            ),
    {
        let ghost initial = self.history();
        let ghost bank = self.cached_bank();
        match self.accel_range() {
            Err(e) => Err(e),
            Ok(range) => {
                let ghost ranged = self.history();
                let outcome = self.raw_acceleration();
                proof {
                    lemma_prefix_chain(initial, ranged, self.history());
                    lemma_read_value_run_extends(
                        ranged,
                        self.history(),
                        initial.len() as int,
                        bank,
                        AccelRange::spec_register(),
                        AccelRange::spec_field(),
                        |code: u8| AccelRange::decode(code),
                    );
                }
                match outcome {
                    Err(e) => Err(e),
                    Ok((x, y, z)) => Ok(
                        (
                            to_milli_g(range, x),
                            to_milli_g(range, y),
                            to_milli_g(range, z),
                        ),
                    ),
                }
            },
        }
    }

    /// Reads the angular rate about the three axes in thousandths of a
    /// degree per second. The range is read from the device first, so the
    /// samples are scaled by the range the device holds at the time of the
    /// reading.
    pub fn angular_velocity_milli_dps(&mut self) -> (r: Result<(i32, i32, i32), Error>)
        ensures
            final(self).ran(
                old(self),
                angular_velocity_run(
                    final(self).history(),
                    old(self).history().len() as int,
                    old(self).cached_bank(),
                ),
                r,
            ),
    {
        let ghost initial = self.history();
        let ghost bank = self.cached_bank();
        match self.gyro_range() {
            Err(e) => Err(e),
            Ok(range) => {
                let ghost ranged = self.history();
                let outcome = self.raw_angular_velocity();
                proof {
                    lemma_prefix_chain(initial, ranged, self.history());
                    lemma_read_value_run_extends(
                        ranged,
                        self.history(),
                        initial.len() as int,
                        bank,
                        GyroRange::spec_register(),
                        GyroRange::spec_field(),
                        |code: u8| GyroRange::decode(code),
                    );
                }
                match outcome {
                    Err(e) => Err(e),
                    Ok((x, y, z)) => Ok(
                        (
                            to_milli_dps(range, x),
                            to_milli_dps(range, y),
                            to_milli_dps(range, z),
                        ),
                    ),
                }
            },
        }
    }

    /// Reads the temperature in hundredths of a degree Celsius.
    pub fn temperature_centi_celsius(&mut self) -> (r: Result<i32, Error>)
        ensures
            final(self).ran(
                old(self),
                temperature_run(
                    final(self).history(),
                    old(self).history().len() as int,
                    old(self).cached_bank(),
                ),
                r,
            ),
    {
        match self.raw_temperature() {
            Err(e) => Err(e),
            Ok(raw) => Ok(to_centi_celsius(raw)),
        }
    }
}

} // verus!
