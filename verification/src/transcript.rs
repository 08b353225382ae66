//! What each operation of the driver does on the bus, told as a reading of
//! the driver's history.
//!
//! The device decides what a register read returns and whether an access
//! succeeds, so the effect of an operation cannot be a function of its
//! arguments alone. It is a function of the arguments and of what the device
//! answered, and the history of the driver holds both: every access that the
//! driver asked its interface for, with the outcome that came back.
//!
//! Each `*_run` function below replays one operation against a history `log`,
//! starting at position `at` with `cached` as the bank the driver believes
//! selected. It follows the accesses the operation must make, takes the
//! device's answers from the log, and gives back the operation's result, the
//! bank believed selected afterwards and the position behind its last
//! access; or `None` where the log does not hold the accesses the operation
//! makes. The driver's functions promise that the history they leave behind
//! replays to exactly what they returned, and ends where the replay ends.
//!
//! The proof functions in the second half state what follows for every
//! history: when the bank-select register is written, what a
//! read-modify-write puts on the bus, and where an initialization ends.

use crate::bitfield::{low_bits, BitField};
use crate::config::{AccelODR, AccelRange, GyroODR, GyroRange, PowerMode};
use crate::error::Error;
use crate::interface::Access;
use crate::register::{BankSelection, Register};
use crate::sample::{centi_celsius, milli_dps, milli_g, word};
use vstd::prelude::*;

verus! {

/// The identity that the device reports in its `WhoAmI` register.
pub const DEVICE_ID: u8 = 0x47;

/// How the replay of an operation ended.
pub struct Outcome<V> {
    /// What the operation returned.
    pub result: Result<V, Error>,
    /// The bank the driver believes selected after the operation.
    pub bank: BankSelection,
    /// The position in the history behind the operation's last access.
    pub end: int,
}

impl<V> Outcome<V> {
    /// The outcome of an operation that stops with the error of one of its steps.
    pub open spec fn failed<W>(step: Outcome<W>) -> Outcome<V>
        recommends
            step.result is Err,
    {
        Outcome { result: Err(step.result->Err_0), bank: step.bank, end: step.end }
    }

    /// The same outcome with `f` applied to the result.
    pub open spec fn and_then<W>(self, f: spec_fn(V) -> Result<W, Error>) -> Outcome<W> {
        Outcome {
            result: match self.result {
                Ok(value) => f(value),
                Err(e) => Err(e),
            },
            bank: self.bank,
            end: self.end,
        }
    }
}

/// Whether the bank-select register has to be written before `register` can
/// be accessed: the register is not the bank-select register itself, which is
/// present in every bank, and its bank is not the one believed selected.
pub open spec fn needs_bank_switch(cached: BankSelection, register: Register) -> bool {
    register != Register::RegBankSel && cached != register.spec_bank_selection()
}

/// The bank believed selected after `value` was written to `register` with
/// `outcome`: a successful write of a bank's code to the bank-select register
/// selects that bank, and nothing else changes the belief.
pub open spec fn bank_after_write(
    cached: BankSelection,
    register: Register,
    value: u8,
    outcome: Result<(), Error>,
) -> BankSelection {
    if register == Register::RegBankSel && outcome is Ok {
        match BankSelection::decode(value) {
            Ok(bank) => bank,
            Err(_) => cached,
        }
    } else {
        cached
    }
}

/// Replays the bank check that precedes every register access: nothing where
/// no switch is needed, else one write of the register's bank to the
/// bank-select register, after which that bank is believed selected if the
/// write went through.
pub open spec fn select_run(log: Seq<Access>, at: int, cached: BankSelection, register: Register)
    -> Option<Outcome<()>> {
    if !needs_bank_switch(cached, register) {
        Some(Outcome { result: Ok(()), bank: cached, end: at })
    } else if at < log.len() {
        match log[at] {
            Access::Write { address, value, outcome } => {
                if address == Register::RegBankSel.spec_address() && value
                    == register.spec_bank_selection().spec_code() {
                    Some(
                        Outcome {
                            result: outcome,
                            bank: if outcome is Ok {
                                register.spec_bank_selection()
                            } else {
                                cached
                            },
                            end: at + 1,
                        },
                    )
                } else {
                    None
                }
            },
            _ => None,
        }
    } else {
        None
    }
}

/// Replays a read of `register`: the bank check, then, unless that failed,
/// one read at the register's address, whose outcome is the result.
pub open spec fn read_run(log: Seq<Access>, at: int, cached: BankSelection, register: Register)
    -> Option<Outcome<u8>> {
    match select_run(log, at, cached, register) {
        None => None,
        Some(selected) => {
            if selected.result is Err {
                Some(Outcome::failed(selected))
            } else if selected.end < log.len() {
                match log[selected.end] {
                    Access::Read { address, outcome } => {
                        if address == register.spec_address() {
                            Some(
                                Outcome {
                                    result: outcome,
                                    bank: selected.bank,
                                    end: selected.end + 1,
                                },
                            )
                        } else {
                            None
                        }
                    },
                    _ => None,
                }
            } else {
                None
            }
        },
    }
}

/// Replays a write of `value` to `register`: the bank check, then, unless
/// that failed, one write of `value` at the register's address, whose
/// outcome is the result.
pub open spec fn write_run(
    log: Seq<Access>,
    at: int,
    cached: BankSelection,
    register: Register,
    value: u8,
) -> Option<Outcome<()>> {
    match select_run(log, at, cached, register) {
        None => None,
        Some(selected) => {
            if selected.result is Err {
                Some(Outcome::failed(selected))
            } else if selected.end < log.len() {
                match log[selected.end] {
                    Access::Write { address, value: written, outcome } => {
                        if address == register.spec_address() && written == value {
                            Some(
                                Outcome {
                                    result: outcome,
                                    bank: bank_after_write(selected.bank, register, value, outcome),
                                    end: selected.end + 1,
                                },
                            )
                        } else {
                            None
                        }
                    },
                    _ => None,
                }
            } else {
                None
            }
        },
    }
}

/// Replays a read of the bank-select register that also brings the driver's
/// belief in line with the device: where the byte read names a bank, that
/// bank is the result and is believed selected; any other byte is
/// `DataCorrupted` and leaves the belief as it was.
pub open spec fn bank_selection_run(log: Seq<Access>, at: int, cached: BankSelection) -> Option<
    Outcome<BankSelection>,
> {
    match read_run(log, at, cached, Register::RegBankSel) {
        None => None,
        Some(read) => Some(
            match read.result {
                Ok(byte) => match BankSelection::decode(byte) {
                    Ok(bank) => Outcome { result: Ok(bank), bank, end: read.end },
                    Err(_) => Outcome {
                        result: Err(Error::DataCorrupted),
                        bank: read.bank,
                        end: read.end,
                    },
                },
                Err(e) => Outcome { result: Err(e), bank: read.bank, end: read.end },
            },
        ),
    }
}

/// Replays a read of one bit field: a read of `register`, of which the
/// field's bits, moved down to bit 0, are the result.
pub open spec fn read_field_run(
    log: Seq<Access>,
    at: int,
    cached: BankSelection,
    register: Register,
    field: BitField,
) -> Option<Outcome<u8>> {
    match read_run(log, at, cached, register) {
        None => None,
        Some(read) => Some(read.and_then(|byte: u8| Ok::<u8, Error>(field.spec_extract(byte)))),
    }
}

/// Replays a read of a typed configuration value: a read of `register`, of
/// which the field's bits, moved down to bit 0, are decoded by `decode`.
pub open spec fn read_value_run<V>(
    log: Seq<Access>,
    at: int,
    cached: BankSelection,
    register: Register,
    field: BitField,
    decode: spec_fn(u8) -> Result<V, Error>,
) -> Option<Outcome<V>> {
    match read_run(log, at, cached, register) {
        None => None,
        Some(read) => Some(read.and_then(|byte: u8| decode(field.spec_extract(byte)))),
    }
}

/// Replays a read-modify-write of one bit field: a read of `register`, then,
/// unless that failed, a write of the byte read with only the field's bits
/// replaced by `value`.
#[verifier::opaque]
pub open spec fn write_field_run(
    log: Seq<Access>,
    at: int,
    cached: BankSelection,
    register: Register,
    field: BitField,
    value: u8,
) -> Option<Outcome<()>> {
    match read_run(log, at, cached, register) {
        None => None,
        Some(read) => match read.result {
            Err(_) => Some(Outcome::failed(read)),
            Ok(byte) => write_run(log, read.end, read.bank, register, field.spec_insert(byte, value)),
        },
    }
}

/// Replays a read of a 16-bit sample: a read of the register with the upper
/// byte, then, unless that failed, a read of the register with the lower
/// byte; the result is the two bytes put together, upper byte first.
#[verifier::opaque]
pub open spec fn read_word_run(
    log: Seq<Access>,
    at: int,
    cached: BankSelection,
    high: Register,
    low: Register,
) -> Option<Outcome<i16>> {
    match read_run(log, at, cached, high) {
        None => None,
        Some(upper) => match upper.result {
            Err(_) => Some(Outcome::failed(upper)),
            Ok(high_byte) => match read_run(log, upper.end, upper.bank, low) {
                None => None,
                Some(lower) => Some(
                    lower.and_then(|low_byte: u8| Ok::<i16, Error>(word(high_byte, low_byte))),
                ),
            },
        },
    }
}

/// Replays a read of three 16-bit samples, one per axis, in the order X, Y,
/// Z; the first failure ends it.
pub open spec fn read_axes_run(
    log: Seq<Access>,
    at: int,
    cached: BankSelection,
    x: (Register, Register),
    y: (Register, Register),
    z: (Register, Register),
) -> Option<Outcome<(i16, i16, i16)>> {
    match read_word_run(log, at, cached, x.0, x.1) {
        None => None,
        Some(first) => match first.result {
            Err(_) => Some(Outcome::failed(first)),
            Ok(x_value) => match read_word_run(log, first.end, first.bank, y.0, y.1) {
                None => None,
                Some(second) => match second.result {
                    Err(_) => Some(Outcome::failed(second)),
                    Ok(y_value) => match read_word_run(log, second.end, second.bank, z.0, z.1) {
                        None => None,
                        Some(third) => Some(
                            third.and_then(
                                |z_value: i16|
                                    Ok::<(i16, i16, i16), Error>((x_value, y_value, z_value)),
                            ),
                        ),
                    },
                },
            },
        },
    }
}

/// Replays a reading of the acceleration in thousandths of a g: a read of
/// the accelerometer's range, then, unless that failed, a read of the three
/// raw samples, each of which is scaled by the range that was just read.
pub open spec fn acceleration_run(log: Seq<Access>, at: int, cached: BankSelection) -> Option<
    Outcome<(i32, i32, i32)>,
> {
    match read_value_run(
        log,
        at,
        cached,
        AccelRange::spec_register(),
        AccelRange::spec_field(),
        |code: u8| AccelRange::decode(code),
    ) {
        None => None,
        Some(first) => match first.result {
            Err(_) => Some(Outcome::failed(first)),
            Ok(range) => match read_axes_run(
                log,
                first.end,
                first.bank,
                (Register::AccelDataX1, Register::AccelDataX0),
                (Register::AccelDataY1, Register::AccelDataY0),
                (Register::AccelDataZ1, Register::AccelDataZ0),
            ) {
                None => None,
                Some(axes) => Some(
                    axes.and_then(
                        |raw: (i16, i16, i16)|
                            Ok::<(i32, i32, i32), Error>(
                                (
                                    milli_g(range, raw.0) as i32,
                                    milli_g(range, raw.1) as i32,
                                    milli_g(range, raw.2) as i32,
                                ),
                            ),
                    ),
                ),
            },
        },
    }
}

/// Replays a reading of the angular rate in thousandths of a degree per
/// second: a read of the gyroscope's range, then, unless that failed, a read
/// of the three raw samples, each of which is scaled by the range that was
/// just read.
pub open spec fn angular_velocity_run(log: Seq<Access>, at: int, cached: BankSelection) -> Option<
    Outcome<(i32, i32, i32)>,
> {
    match read_value_run(
        log,
        at,
        cached,
        GyroRange::spec_register(),
        GyroRange::spec_field(),
        |code: u8| GyroRange::decode(code),
    ) {
        None => None,
        Some(first) => match first.result {
            Err(_) => Some(Outcome::failed(first)),
            Ok(range) => match read_axes_run(
                log,
                first.end,
                first.bank,
                (Register::GyroDataX1, Register::GyroDataX0),
                (Register::GyroDataY1, Register::GyroDataY0),
                (Register::GyroDataZ1, Register::GyroDataZ0),
            ) {
                None => None,
                Some(axes) => Some(
                    axes.and_then(
                        |raw: (i16, i16, i16)|
                            Ok::<(i32, i32, i32), Error>(
                                (
                                    milli_dps(range, raw.0) as i32,
                                    milli_dps(range, raw.1) as i32,
                                    milli_dps(range, raw.2) as i32,
                                ),
                            ),
                    ),
                ),
            },
        },
    }
}

/// Replays a reading of the temperature in hundredths of a degree Celsius:
/// a read of the raw sample, which is then converted.
pub open spec fn temperature_run(log: Seq<Access>, at: int, cached: BankSelection) -> Option<
    Outcome<i32>,
> {
    match read_word_run(log, at, cached, Register::TempData1, Register::TempData0) {
        None => None,
        Some(raw) => Some(
            raw.and_then(|sample: i16| Ok::<i32, Error>(centi_celsius(sample) as i32)),
        ),
    }
}

/// Replays the configuration that follows a successful identity check: the
/// default accelerometer range, gyroscope range, accelerometer rate and
/// gyroscope rate and the six-axis low-noise power mode are written in this
/// order, each as a read-modify-write of its field; the first failure ends it.
pub open spec fn configure_run(log: Seq<Access>, at: int, cached: BankSelection) -> Option<
    Outcome<()>,
> {
    match write_field_run(
        log,
        at,
        cached,
        AccelRange::spec_register(),
        AccelRange::spec_field(),
        AccelRange::G16.spec_code(),
    ) {
        None => None,
        Some(first) => if first.result is Err {
            Some(first)
        } else {
            match write_field_run(
                log,
                first.end,
                first.bank,
                GyroRange::spec_register(),
                GyroRange::spec_field(),
                GyroRange::Dps2000.spec_code(),
            ) {
                None => None,
                Some(second) => if second.result is Err {
                    Some(second)
                } else {
                    match write_field_run(
                        log,
                        second.end,
                        second.bank,
                        AccelODR::spec_register(),
                        AccelODR::spec_field(),
                        AccelODR::Hz1k.spec_code(),
                    ) {
                        None => None,
                        Some(third) => if third.result is Err {
                            Some(third)
                        } else {
                            match write_field_run(
                                log,
                                third.end,
                                third.bank,
                                GyroODR::spec_register(),
                                GyroODR::spec_field(),
                                GyroODR::Hz1k.spec_code(),
                            ) {
                                None => None,
                                Some(fourth) => if fourth.result is Err {
                                    Some(fourth)
                                } else {
                                    write_field_run(
                                        log,
                                        fourth.end,
                                        fourth.bank,
                                        PowerMode::spec_register(),
                                        PowerMode::spec_field(),
                                        PowerMode::SixAxisLowNoise.spec_code(),
                                    )
                                },
                            }
                        },
                    }
                },
            }
        },
    }
}

/// Replays the initialization: a read of the identity register, then, only
/// where that read succeeded and gave the expected identity, the
/// configuration. Any other identity is `BadDeviceId`, and nothing follows it.
pub open spec fn init_run(log: Seq<Access>, at: int, cached: BankSelection) -> Option<Outcome<()>> {
    match read_run(log, at, cached, Register::WhoAmI) {
        None => None,
        Some(identity) => match identity.result {
            Err(_) => Some(Outcome::failed(identity)),
            Ok(id) => if id != DEVICE_ID {
                Some(
                    Outcome { result: Err(Error::BadDeviceId), bank: identity.bank, end: identity.end },
                )
            } else {
                configure_run(log, identity.end, identity.bank)
            },
        },
    }
}

/// A history that extends another agrees with it wherever the shorter one
/// has an entry.
pub proof fn lemma_prefix_agrees(log: Seq<Access>, longer: Seq<Access>)
    requires
        log.is_prefix_of(longer),
    ensures
        log.len() <= longer.len(),
        forall|i: int| 0 <= i < log.len() ==> log[i] == longer[i],
{
    assert forall|i: int| 0 <= i < log.len() implies log[i] == longer[i] by {
        assert(log[i] == longer.subrange(0, log.len() as int)[i]);
    }
}

/// A bank check that replays on a history replays alike on every history
/// that extends it, and it ends within the history.
pub proof fn lemma_select_run_extends(
    log: Seq<Access>,
    longer: Seq<Access>,
    at: int,
    cached: BankSelection,
    register: Register,
)
    requires
        0 <= at <= log.len(),
        log.is_prefix_of(longer),
        select_run(log, at, cached, register) is Some,
    ensures
        select_run(longer, at, cached, register) == select_run(log, at, cached, register),
        at <= select_run(log, at, cached, register)->0.end <= log.len(),
{
    lemma_prefix_agrees(log, longer);
}

/// A read that replays on a history replays alike on every history that
/// extends it, and it ends within the history.
pub proof fn lemma_read_run_extends(
    log: Seq<Access>,
    longer: Seq<Access>,
    at: int,
    cached: BankSelection,
    register: Register,
)
    requires
        0 <= at <= log.len(),
        log.is_prefix_of(longer),
        read_run(log, at, cached, register) is Some,
    ensures
        read_run(longer, at, cached, register) == read_run(log, at, cached, register),
        at <= read_run(log, at, cached, register)->0.end <= log.len(),
{
    lemma_prefix_agrees(log, longer);
    lemma_select_run_extends(log, longer, at, cached, register);
}

/// A write that replays on a history replays alike on every history that
/// extends it, and it ends within the history.
pub proof fn lemma_write_run_extends(
    log: Seq<Access>,
    longer: Seq<Access>,
    at: int,
    cached: BankSelection,
    register: Register,
    value: u8,
)
    requires
        0 <= at <= log.len(),
        log.is_prefix_of(longer),
        write_run(log, at, cached, register, value) is Some,
    ensures
        write_run(longer, at, cached, register, value) == write_run(
            log,
            at,
            cached,
            register,
            value,
        ),
        at <= write_run(log, at, cached, register, value)->0.end <= log.len(),
{
    lemma_prefix_agrees(log, longer);
    lemma_select_run_extends(log, longer, at, cached, register);
}

/// A read-modify-write that replays on a history replays alike on every
/// history that extends it, and it ends within the history.
pub proof fn lemma_write_field_run_extends(
    log: Seq<Access>,
    longer: Seq<Access>,
    at: int,
    cached: BankSelection,
    register: Register,
    field: BitField,
    value: u8,
)
    requires
        0 <= at <= log.len(),
        log.is_prefix_of(longer),
        write_field_run(log, at, cached, register, field, value) is Some,
    ensures
        write_field_run(longer, at, cached, register, field, value) == write_field_run(
            log,
            at,
            cached,
            register,
            field,
            value,
        ),
        at <= write_field_run(log, at, cached, register, field, value)->0.end <= log.len(),
{
    reveal(write_field_run);
    lemma_read_run_extends(log, longer, at, cached, register);
    let read = read_run(log, at, cached, register)->0;
    if read.result is Ok {
        lemma_write_run_extends(
            log,
            longer,
            read.end,
            read.bank,
            register,
            field.spec_insert(read.result->Ok_0, value),
        );
    }
}

/// A read of a 16-bit sample that replays on a history replays alike on
/// every history that extends it, and it ends within the history.
pub proof fn lemma_read_word_run_extends(
    log: Seq<Access>,
    longer: Seq<Access>,
    at: int,
    cached: BankSelection,
    high: Register,
    low: Register,
)
    requires
        0 <= at <= log.len(),
        log.is_prefix_of(longer),
        read_word_run(log, at, cached, high, low) is Some,
    ensures
        read_word_run(longer, at, cached, high, low) == read_word_run(log, at, cached, high, low),
        at <= read_word_run(log, at, cached, high, low)->0.end <= log.len(),
{
    reveal(read_word_run);
    lemma_read_run_extends(log, longer, at, cached, high);
    let upper = read_run(log, at, cached, high)->0;
    if upper.result is Ok {
        lemma_read_run_extends(log, longer, upper.end, upper.bank, low);
    }
}

/// A read of a typed value that replays on a history replays alike on every
/// history that extends it, and it ends within the history.
pub proof fn lemma_read_value_run_extends<V>(
    log: Seq<Access>,
    longer: Seq<Access>,
    at: int,
    cached: BankSelection,
    register: Register,
    field: BitField,
    decode: spec_fn(u8) -> Result<V, Error>,
)
    requires
        0 <= at <= log.len(),
        log.is_prefix_of(longer),
        read_value_run(log, at, cached, register, field, decode) is Some,
    ensures
        read_value_run(longer, at, cached, register, field, decode) == read_value_run(
            log,
            at,
            cached,
            register,
            field,
            decode,
        ),
        at <= read_value_run(log, at, cached, register, field, decode)->0.end <= log.len(),
{
    lemma_read_run_extends(log, longer, at, cached, register);
}

/// Extending a history twice extends it.
pub proof fn lemma_prefix_chain(first: Seq<Access>, second: Seq<Access>, third: Seq<Access>)
    requires
        first.is_prefix_of(second),
        second.is_prefix_of(third),
    ensures
        first.is_prefix_of(third),
{
    lemma_prefix_agrees(first, second);
    lemma_prefix_agrees(second, third);
    assert(first =~= third.subrange(0, first.len() as int));
}

/// Whether an access is a write to the bank-select register.
pub open spec fn is_bank_select(access: Access) -> bool {
    access matches Access::Write { address, .. } && address == Register::RegBankSel.spec_address()
}

/// The number of writes to the bank-select register among the accesses of
/// `log` from position `from` up to, not including, position `to`.
pub open spec fn bank_selects(log: Seq<Access>, from: int, to: int) -> nat
    decreases to - from,
{
    if from >= to {
        0
    } else {
        bank_selects(log, from + 1, to) + if is_bank_select(log[from]) {
            1nat
        } else {
            0nat
        }
    }
}

/// The bank-select register is not written where the bank of the register
/// to read is the one believed selected: the read is the one access made.
/// Where another bank is believed selected, the bank-select register is
/// written exactly once, before anything else, with the code of the
/// register's bank, and the read follows only if that write went through.
pub proof fn lemma_read_selects_bank_at_most_once(
    log: Seq<Access>,
    at: int,
    cached: BankSelection,
    register: Register,
)
    requires
        0 <= at,
        read_run(log, at, cached, register) matches Some(run),
    ensures
        ({
            let run = read_run(log, at, cached, register)->0;
            let target = register.spec_bank_selection();
            if needs_bank_switch(cached, register) {
                &&& bank_selects(log, at, run.end) == 1
                &&& log[at] matches Access::Write { address, value, outcome }
                &&& address == Register::RegBankSel.spec_address()
                &&& value == target.spec_code()
                &&& match outcome {
                    Ok(_) => run.end == at + 2 && run.bank == target && log[at + 1] == (
                    Access::Read { address: register.spec_address(), outcome: run.result }),
                    Err(e) => run.end == at + 1 && run.bank == cached && run.result == Err::<
                        u8,
                        Error,
                    >(e),
                }
            } else {
                &&& bank_selects(log, at, run.end) == 0
                &&& run.end == at + 1
                &&& run.bank == cached
                &&& log[at] == (Access::Read {
                    address: register.spec_address(),
                    outcome: run.result,
                })
            }
        }),
{
    let run = read_run(log, at, cached, register)->0;
    reveal_with_fuel(bank_selects, 3);
}

/// The same for a write to any register but the bank-select register
/// itself: no write to the bank-select register where the register's bank is
/// believed selected, else exactly one, before anything else.
pub proof fn lemma_write_selects_bank_at_most_once(
    log: Seq<Access>,
    at: int,
    cached: BankSelection,
    register: Register,
    value: u8,
)
    requires
        0 <= at,
        register != Register::RegBankSel,
        write_run(log, at, cached, register, value) is Some,
    ensures
        ({
            let run = write_run(log, at, cached, register, value)->0;
            let target = register.spec_bank_selection();
            if cached != target {
                &&& bank_selects(log, at, run.end) == 1
                &&& log[at] matches Access::Write { address, value: code, outcome }
                &&& address == Register::RegBankSel.spec_address()
                &&& code == target.spec_code()
                &&& match outcome {
                    Ok(_) => run.end == at + 2 && run.bank == target && log[at + 1] == (
                    Access::Write { address: register.spec_address(), value, outcome: run.result }),
                    Err(e) => run.end == at + 1 && run.bank == cached && run.result == Err::<
                        (),
                        Error,
                    >(e),
                }
            } else {
                &&& bank_selects(log, at, run.end) == 0
                &&& run.end == at + 1
                &&& run.bank == cached
                &&& log[at] == (Access::Write {
                    address: register.spec_address(),
                    value,
                    outcome: run.result,
                })
            }
        }),
{
    reveal_with_fuel(bank_selects, 3);
    Register::lemma_catalog_is_sound(register, Register::RegBankSel);
}

/// Once a register was read or written successfully, its bank is the one
/// believed selected: the next access to it does not write the bank-select
/// register.
pub proof fn lemma_access_leaves_bank_selected(
    log: Seq<Access>,
    at: int,
    cached: BankSelection,
    register: Register,
    value: u8,
)
    requires
        0 <= at,
        register != Register::RegBankSel,
    ensures
        read_run(log, at, cached, register) matches Some(run) ==> (run.result is Ok
            ==> !needs_bank_switch(run.bank, register)),
        write_run(log, at, cached, register, value) matches Some(run) ==> (run.result is Ok
            ==> !needs_bank_switch(run.bank, register)),
{
}

/// A read-modify-write whose read succeeded makes exactly one more access,
/// directly behind the read: a write, to the same register, of the byte that
/// was read with nothing but the field changed. Outside the field every bit
/// is written back as it was read; inside it stands `value`, cut to the
/// field's width.
pub proof fn lemma_write_field_keeps_other_bits(
    log: Seq<Access>,
    at: int,
    cached: BankSelection,
    register: Register,
    field: BitField,
    value: u8,
)
    requires
        0 <= at,
        field.wf(),
        write_field_run(log, at, cached, register, field, value) is Some,
        read_run(log, at, cached, register) matches Some(read) && read.result is Ok,
    ensures
        ({
            let read = read_run(log, at, cached, register)->0;
            let byte = read.result->Ok_0;
            let run = write_field_run(log, at, cached, register, field, value)->0;
            &&& run.end == read.end + 1
            &&& log[read.end] matches Access::Write { address, value: written, outcome }
            &&& address == register.spec_address()
            &&& outcome == run.result
            &&& written == field.spec_insert(byte, value)
            &&& written & !field.spec_mask() == byte & !field.spec_mask()
            &&& field.spec_extract(written) == value & low_bits(field.width)
        }),
{
    reveal(write_field_run);
    let read = read_run(log, at, cached, register)->0;
    field.lemma_insert_touches_only_the_field(read.result->Ok_0, value);
}

/// An identity other than the expected one ends the initialization with
/// `BadDeviceId` directly behind the read of the identity register: no
/// configuration is written.
pub proof fn lemma_init_stops_at_bad_identity(log: Seq<Access>, at: int, cached: BankSelection)
    requires
        0 <= at,
        read_run(log, at, cached, Register::WhoAmI) matches Some(identity) && identity.result
            matches Ok(id) && id != DEVICE_ID,
    ensures
        ({
            let identity = read_run(log, at, cached, Register::WhoAmI)->0;
            init_run(log, at, cached) == Some(
                Outcome::<()> {
                    result: Err(Error::BadDeviceId),
                    bank: identity.bank,
                    end: identity.end,
                },
            )
        }),
{
}

/// With the expected identity the initialization goes on to the
/// configuration and ends as the configuration ends: it succeeds exactly
/// when every access of the configuration succeeds.
pub proof fn lemma_init_configures_on_expected_identity(
    log: Seq<Access>,
    at: int,
    cached: BankSelection,
)
    requires
        0 <= at,
        read_run(log, at, cached, Register::WhoAmI) matches Some(identity) && identity.result
            == Ok::<u8, Error>(DEVICE_ID),
    ensures
        ({
            let identity = read_run(log, at, cached, Register::WhoAmI)->0;
            init_run(log, at, cached) == configure_run(log, identity.end, identity.bank)
        }),
{
}

/// An initialization never succeeds on another identity, and it fails with
/// `BadDeviceId` only where the identity register was read successfully and
/// held another identity.
pub proof fn lemma_init_result_tells_the_identity(log: Seq<Access>, at: int, cached: BankSelection)
    requires
        0 <= at,
        init_run(log, at, cached) is Some,
    ensures
        ({
            let identity = read_run(log, at, cached, Register::WhoAmI)->0;
            let run = init_run(log, at, cached)->0;
            &&& read_run(log, at, cached, Register::WhoAmI) is Some
            &&& run.result is Ok ==> identity.result == Ok::<u8, Error>(DEVICE_ID)
            &&& identity.result matches Ok(id) ==> (id != DEVICE_ID <==> run.end == identity.end)
        }),
{
    let identity = read_run(log, at, cached, Register::WhoAmI)->0;
    if identity.result == Ok::<u8, Error>(DEVICE_ID) {
        lemma_configure_run_advances(log, identity.end, identity.bank);
    }
}

/// A configuration makes at least one access, and never goes backwards.
pub proof fn lemma_configure_run_advances(log: Seq<Access>, at: int, cached: BankSelection)
    requires
        0 <= at,
        configure_run(log, at, cached) is Some,
    ensures
        configure_run(log, at, cached)->0.end > at,
{
    reveal(write_field_run);
}

} // verus!
