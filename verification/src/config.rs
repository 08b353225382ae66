//! The typed configuration values and their hardware codes.
//!
//! Each value is a small closed enumeration. `code` gives the bit pattern the
//! device uses for a value, `try_from` is its partial inverse, and `register`
//! and `field` say where in the register map the pattern lives.

use crate::bitfield::{lemma_low_bits, low_bits, BitField};
use crate::error::Error;
use crate::register::Register;
use vstd::prelude::*;
use vstd::std_specs::convert::TryFromSpecImpl;

verus! {

/// Accelerometer output data rate.
#[derive(Clone, Copy, Debug, PartialEq, Eq, Structural)]
pub enum AccelODR {
    /// 32 kHz
    Hz32k,
    /// 16 kHz
    Hz16k,
    /// 8 kHz
    Hz8k,
    /// 4 kHz
    Hz4k,
    /// 2 kHz
    Hz2k,
    /// 1 kHz
    Hz1k,
    /// 200 Hz
    Hz200,
    /// 100 Hz
    Hz100,
    /// 50 Hz
    Hz50,
    /// 25 Hz
    Hz25,
    /// 12.5 Hz
    Hz12_5,
    /// 6.25 Hz
    Hz6_25,
    /// 3.125 Hz
    Hz3_125,
    /// 1.5625 Hz
    Hz1_5625,
    /// 500 Hz
    Hz500,
}

impl AccelODR {
    /// The hardware code of the value.
    pub open spec fn spec_code(self) -> u8 {
        match self {
            AccelODR::Hz32k => 1,
            AccelODR::Hz16k => 2,
            AccelODR::Hz8k => 3,
            AccelODR::Hz4k => 4,
            AccelODR::Hz2k => 5,
            AccelODR::Hz1k => 6,
            AccelODR::Hz200 => 7,
            AccelODR::Hz100 => 8,
            AccelODR::Hz50 => 9,
            AccelODR::Hz25 => 10,
            AccelODR::Hz12_5 => 11,
            AccelODR::Hz6_25 => 12,
            AccelODR::Hz3_125 => 13,
            AccelODR::Hz1_5625 => 14,
            AccelODR::Hz500 => 15,
        }
    }

    /// The value that a hardware code stands for; `DataCorrupted` for a code
    /// that stands for none.
    pub open spec fn decode(code: u8) -> Result<AccelODR, Error> {
        match code {
            1 => Ok(AccelODR::Hz32k),
            2 => Ok(AccelODR::Hz16k),
            3 => Ok(AccelODR::Hz8k),
            4 => Ok(AccelODR::Hz4k),
            5 => Ok(AccelODR::Hz2k),
            6 => Ok(AccelODR::Hz1k),
            7 => Ok(AccelODR::Hz200),
            8 => Ok(AccelODR::Hz100),
            9 => Ok(AccelODR::Hz50),
            10 => Ok(AccelODR::Hz25),
            11 => Ok(AccelODR::Hz12_5),
            12 => Ok(AccelODR::Hz6_25),
            13 => Ok(AccelODR::Hz3_125),
            14 => Ok(AccelODR::Hz1_5625),
            15 => Ok(AccelODR::Hz500),
            _ => Err(Error::DataCorrupted),
        }
    }

    /// The register that holds the value.
    pub open spec fn spec_register() -> Register {
        Register::AccelConfig0
    }

    /// Where the value lies in its register: bits 3:0 of the accelerometer configuration register.
    pub open spec fn spec_field() -> BitField {
        BitField { offset: 0, width: 4 }
    }

    /// The hardware code of the value. It fits the width of the value's field
    /// and decodes back to the value.
    #[verifier::when_used_as_spec(spec_code)]
    pub fn code(self) -> (code: u8)
        ensures
            code == self.spec_code(),
            code <= 15,
            Self::decode(code) == Ok::<AccelODR, Error>(self),
    {
        match self {
            AccelODR::Hz32k => 1,
            AccelODR::Hz16k => 2,
            AccelODR::Hz8k => 3,
            AccelODR::Hz4k => 4,
            AccelODR::Hz2k => 5,
            AccelODR::Hz1k => 6,
            AccelODR::Hz200 => 7,
            AccelODR::Hz100 => 8,
            AccelODR::Hz50 => 9,
            AccelODR::Hz25 => 10,
            AccelODR::Hz12_5 => 11,
            AccelODR::Hz6_25 => 12,
            AccelODR::Hz3_125 => 13,
            AccelODR::Hz1_5625 => 14,
            AccelODR::Hz500 => 15,
        }
    }

    /// The register that holds the value.
    #[verifier::when_used_as_spec(spec_register)]
    pub fn register() -> (register: Register)
        ensures
            register == Self::spec_register(),
    {
        Register::AccelConfig0
    }

    /// Where the value lies in its register: bits 3:0 of the accelerometer configuration register.
    #[verifier::when_used_as_spec(spec_field)]
    pub fn field() -> (field: BitField)
        ensures
            field == Self::spec_field(),
            field.wf(),
    {
        BitField { offset: 0, width: 4 }
    }

    /// Encoding then decoding gives the value back, and the code fits the
    /// width of the value's field.
    pub proof fn lemma_code_round_trips(self)
        ensures
            Self::decode(self.spec_code()) == Ok::<AccelODR, Error>(self),
            self.spec_code() <= low_bits(Self::spec_field().width),
            Self::spec_field().wf(),
    {
        lemma_low_bits();
    }

    /// A value that was written into its field of any byte reads back from
    /// the updated byte as itself.
    pub proof fn lemma_written_value_reads_back(self, byte: u8)
        ensures
            Self::decode(
                Self::spec_field().spec_extract(
                    Self::spec_field().spec_insert(byte, self.spec_code()),
                ),
            ) == Ok::<AccelODR, Error>(self),
    {
        lemma_low_bits();
        Self::spec_field().lemma_insert_touches_only_the_field(byte, self.spec_code());
    }

    /// A code decodes exactly when some value has it, and then to that
    /// value; every other code is rejected as `DataCorrupted`.
    pub proof fn lemma_decode_inverts_code(code: u8)
        ensures
            match Self::decode(code) {
                Ok(value) => value.spec_code() == code,
                Err(e) => e == Error::DataCorrupted && forall|value: AccelODR|
                    value.spec_code() != code,
            },
    {
    }
}

impl TryFrom<u8> for AccelODR {
    type Error = Error;

    /// Decodes a hardware code; fails with `DataCorrupted` for a code that
    /// the device reserves.
    fn try_from(value: u8) -> (decoded: Result<Self, Self::Error>)
        ensures
            decoded == Self::decode(value),
    {
        match value {
            1 => Ok(AccelODR::Hz32k),
            2 => Ok(AccelODR::Hz16k),
            3 => Ok(AccelODR::Hz8k),
            4 => Ok(AccelODR::Hz4k),
            5 => Ok(AccelODR::Hz2k),
            6 => Ok(AccelODR::Hz1k),
            7 => Ok(AccelODR::Hz200),
            8 => Ok(AccelODR::Hz100),
            9 => Ok(AccelODR::Hz50),
            10 => Ok(AccelODR::Hz25),
            11 => Ok(AccelODR::Hz12_5),
            12 => Ok(AccelODR::Hz6_25),
            13 => Ok(AccelODR::Hz3_125),
            14 => Ok(AccelODR::Hz1_5625),
            15 => Ok(AccelODR::Hz500),
            _ => Err(Error::DataCorrupted),
        }
    }
}

impl TryFromSpecImpl<u8> for AccelODR {
    open spec fn obeys_try_from_spec() -> bool {
        true
    }

    open spec fn try_from_spec(value: u8) -> Result<Self, Self::Error> {
        Self::decode(value)
    }
}

impl Default for AccelODR {
    fn default() -> (value: Self)
        ensures
            value == AccelODR::Hz1k,
    {
        AccelODR::Hz1k
    }
}

/// Accelerometer full-scale range.
#[derive(Clone, Copy, Debug, PartialEq, Eq, Structural)]
pub enum AccelRange {
    /// ±16 g
    G16,
    /// ±8 g
    G8,
    /// ±4 g
    G4,
    /// ±2 g
    G2,
}

impl AccelRange {
    /// The hardware code of the value.
    pub open spec fn spec_code(self) -> u8 {
        match self {
            AccelRange::G16 => 0,
            AccelRange::G8 => 1,
            AccelRange::G4 => 2,
            AccelRange::G2 => 3,
        }
    }

    /// The value that a hardware code stands for; `DataCorrupted` for a code
    /// that stands for none.
    pub open spec fn decode(code: u8) -> Result<AccelRange, Error> {
        match code {
            0 => Ok(AccelRange::G16),
            1 => Ok(AccelRange::G8),
            2 => Ok(AccelRange::G4),
            3 => Ok(AccelRange::G2),
            _ => Err(Error::DataCorrupted),
        }
    }

    /// The register that holds the value.
    pub open spec fn spec_register() -> Register {
        Register::AccelConfig0
    }

    /// Where the value lies in its register: bits 7:5 of the accelerometer configuration register.
    pub open spec fn spec_field() -> BitField {
        BitField { offset: 5, width: 3 }
    }

    /// The hardware code of the value. It fits the width of the value's field
    /// and decodes back to the value.
    #[verifier::when_used_as_spec(spec_code)]
    pub fn code(self) -> (code: u8)
        ensures
            code == self.spec_code(),
            code <= 7,
            Self::decode(code) == Ok::<AccelRange, Error>(self),
    {
        match self {
            AccelRange::G16 => 0,
            AccelRange::G8 => 1,
            AccelRange::G4 => 2,
            AccelRange::G2 => 3,
        }
    }

    /// The register that holds the value.
    #[verifier::when_used_as_spec(spec_register)]
    pub fn register() -> (register: Register)
        ensures
            register == Self::spec_register(),
    {
        Register::AccelConfig0
    }

    /// Where the value lies in its register: bits 7:5 of the accelerometer configuration register.
    #[verifier::when_used_as_spec(spec_field)]
    pub fn field() -> (field: BitField)
        ensures
            field == Self::spec_field(),
            field.wf(),
    {
        BitField { offset: 5, width: 3 }
    }

    /// Encoding then decoding gives the value back, and the code fits the
    /// width of the value's field.
    pub proof fn lemma_code_round_trips(self)
        ensures
            Self::decode(self.spec_code()) == Ok::<AccelRange, Error>(self),
            self.spec_code() <= low_bits(Self::spec_field().width),
            Self::spec_field().wf(),
    {
        lemma_low_bits();
    }

    /// A value that was written into its field of any byte reads back from
    /// the updated byte as itself.
    pub proof fn lemma_written_value_reads_back(self, byte: u8)
        ensures
            Self::decode(
                Self::spec_field().spec_extract(
                    Self::spec_field().spec_insert(byte, self.spec_code()),
                ),
            ) == Ok::<AccelRange, Error>(self),
    {
        lemma_low_bits();
        Self::spec_field().lemma_insert_touches_only_the_field(byte, self.spec_code());
    }

    /// A code decodes exactly when some value has it, and then to that
    /// value; every other code is rejected as `DataCorrupted`.
    pub proof fn lemma_decode_inverts_code(code: u8)
        ensures
            match Self::decode(code) {
                Ok(value) => value.spec_code() == code,
                Err(e) => e == Error::DataCorrupted && forall|value: AccelRange|
                    value.spec_code() != code,
            },
    {
    }
}

impl TryFrom<u8> for AccelRange {
    type Error = Error;

    /// Decodes a hardware code; fails with `DataCorrupted` for a code that
    /// the device reserves.
    fn try_from(value: u8) -> (decoded: Result<Self, Self::Error>)
        ensures
            decoded == Self::decode(value),
    {
        match value {
            0 => Ok(AccelRange::G16),
            1 => Ok(AccelRange::G8),
            2 => Ok(AccelRange::G4),
            3 => Ok(AccelRange::G2),
            _ => Err(Error::DataCorrupted),
        }
    }
}

impl TryFromSpecImpl<u8> for AccelRange {
    open spec fn obeys_try_from_spec() -> bool {
        true
    }

    open spec fn try_from_spec(value: u8) -> Result<Self, Self::Error> {
        Self::decode(value)
    }
}

impl Default for AccelRange {
    fn default() -> (value: Self)
        ensures
            value == AccelRange::G16,
    {
        AccelRange::G16
    }
}

/// Gyroscope output data rate.
#[derive(Clone, Copy, Debug, PartialEq, Eq, Structural)]
pub enum GyroODR {
    /// 32 kHz
    Hz32k,
    /// 16 kHz
    Hz16k,
    /// 8 kHz
    Hz8k,
    /// 4 kHz
    Hz4k,
    /// 2 kHz
    Hz2k,
    /// 1 kHz
    Hz1k,
    /// 200 Hz
    Hz200,
    /// 100 Hz
    Hz100,
    /// 50 Hz
    Hz50,
    /// 25 Hz
    Hz25,
    /// 12.5 Hz
    Hz12_5,
    /// 500 Hz
    Hz500,
}

impl GyroODR {
    /// The hardware code of the value.
    pub open spec fn spec_code(self) -> u8 {
        match self {
            GyroODR::Hz32k => 1,
            GyroODR::Hz16k => 2,
            GyroODR::Hz8k => 3,
            GyroODR::Hz4k => 4,
            GyroODR::Hz2k => 5,
            GyroODR::Hz1k => 6,
            GyroODR::Hz200 => 7,
            GyroODR::Hz100 => 8,
            GyroODR::Hz50 => 9,
            GyroODR::Hz25 => 10,
            GyroODR::Hz12_5 => 11,
            GyroODR::Hz500 => 15,
        }
    }

    /// The value that a hardware code stands for; `DataCorrupted` for a code
    /// that stands for none.
    pub open spec fn decode(code: u8) -> Result<GyroODR, Error> {
        match code {
            1 => Ok(GyroODR::Hz32k),
            2 => Ok(GyroODR::Hz16k),
            3 => Ok(GyroODR::Hz8k),
            4 => Ok(GyroODR::Hz4k),
            5 => Ok(GyroODR::Hz2k),
            6 => Ok(GyroODR::Hz1k),
            7 => Ok(GyroODR::Hz200),
            8 => Ok(GyroODR::Hz100),
            9 => Ok(GyroODR::Hz50),
            10 => Ok(GyroODR::Hz25),
            11 => Ok(GyroODR::Hz12_5),
            15 => Ok(GyroODR::Hz500),
            _ => Err(Error::DataCorrupted),
        }
    }

    /// The register that holds the value.
    pub open spec fn spec_register() -> Register {
        Register::GyroConfig0
    }

    /// Where the value lies in its register: bits 3:0 of the gyroscope configuration register.
    pub open spec fn spec_field() -> BitField {
        BitField { offset: 0, width: 4 }
    }

    /// The hardware code of the value. It fits the width of the value's field
    /// and decodes back to the value.
    #[verifier::when_used_as_spec(spec_code)]
    pub fn code(self) -> (code: u8)
        ensures
            code == self.spec_code(),
            code <= 15,
            Self::decode(code) == Ok::<GyroODR, Error>(self),
    {
        match self {
            GyroODR::Hz32k => 1,
            GyroODR::Hz16k => 2,
            GyroODR::Hz8k => 3,
            GyroODR::Hz4k => 4,
            GyroODR::Hz2k => 5,
            GyroODR::Hz1k => 6,
            GyroODR::Hz200 => 7,
            GyroODR::Hz100 => 8,
            GyroODR::Hz50 => 9,
            GyroODR::Hz25 => 10,
            GyroODR::Hz12_5 => 11,
            GyroODR::Hz500 => 15,
        }
    }

    /// The register that holds the value.
    #[verifier::when_used_as_spec(spec_register)]
    pub fn register() -> (register: Register)
        ensures
            register == Self::spec_register(),
    {
        Register::GyroConfig0
    }

    /// Where the value lies in its register: bits 3:0 of the gyroscope configuration register.
    #[verifier::when_used_as_spec(spec_field)]
    pub fn field() -> (field: BitField)
        ensures
            field == Self::spec_field(),
            field.wf(),
    {
        BitField { offset: 0, width: 4 }
    }

    /// Encoding then decoding gives the value back, and the code fits the
    /// width of the value's field.
    pub proof fn lemma_code_round_trips(self)
        ensures
            Self::decode(self.spec_code()) == Ok::<GyroODR, Error>(self),
            self.spec_code() <= low_bits(Self::spec_field().width),
            Self::spec_field().wf(),
    {
        lemma_low_bits();
    }

    /// A value that was written into its field of any byte reads back from
    /// the updated byte as itself.
    pub proof fn lemma_written_value_reads_back(self, byte: u8)
        ensures
            Self::decode(
                Self::spec_field().spec_extract(
                    Self::spec_field().spec_insert(byte, self.spec_code()),
                ),
            ) == Ok::<GyroODR, Error>(self),
    {
        lemma_low_bits();
        Self::spec_field().lemma_insert_touches_only_the_field(byte, self.spec_code());
    }

    /// A code decodes exactly when some value has it, and then to that
    /// value; every other code is rejected as `DataCorrupted`.
    pub proof fn lemma_decode_inverts_code(code: u8)
        ensures
            match Self::decode(code) {
                Ok(value) => value.spec_code() == code,
                Err(e) => e == Error::DataCorrupted && forall|value: GyroODR|
                    value.spec_code() != code,
            },
    {
    }
}

impl TryFrom<u8> for GyroODR {
    type Error = Error;

    /// Decodes a hardware code; fails with `DataCorrupted` for a code that
    /// the device reserves.
    fn try_from(value: u8) -> (decoded: Result<Self, Self::Error>)
        ensures
            decoded == Self::decode(value),
    {
        match value {
            1 => Ok(GyroODR::Hz32k),
            2 => Ok(GyroODR::Hz16k),
            3 => Ok(GyroODR::Hz8k),
            4 => Ok(GyroODR::Hz4k),
            5 => Ok(GyroODR::Hz2k),
            6 => Ok(GyroODR::Hz1k),
            7 => Ok(GyroODR::Hz200),
            8 => Ok(GyroODR::Hz100),
            9 => Ok(GyroODR::Hz50),
            10 => Ok(GyroODR::Hz25),
            11 => Ok(GyroODR::Hz12_5),
            15 => Ok(GyroODR::Hz500),
            _ => Err(Error::DataCorrupted),
        }
    }
}

impl TryFromSpecImpl<u8> for GyroODR {
    open spec fn obeys_try_from_spec() -> bool {
        true
    }

    open spec fn try_from_spec(value: u8) -> Result<Self, Self::Error> {
        Self::decode(value)
    }
}

impl Default for GyroODR {
    fn default() -> (value: Self)
        ensures
            value == GyroODR::Hz1k,
    {
        GyroODR::Hz1k
    }
}

/// Gyroscope full-scale range.
#[derive(Clone, Copy, Debug, PartialEq, Eq, Structural)]
pub enum GyroRange {
    /// ±2000 °/s
    Dps2000,
    /// ±1000 °/s
    Dps1000,
    /// ±500 °/s
    Dps500,
    /// ±250 °/s
    Dps250,
    /// ±125 °/s
    Dps125,
    /// ±62.5 °/s
    Dps62_5,
    /// ±31.25 °/s
    Dps31_25,
    /// ±15.625 °/s
    Dps15_625,
}

impl GyroRange {
    /// The hardware code of the value.
    pub open spec fn spec_code(self) -> u8 {
        match self {
            GyroRange::Dps2000 => 0,
            GyroRange::Dps1000 => 1,
            GyroRange::Dps500 => 2,
            GyroRange::Dps250 => 3,
            GyroRange::Dps125 => 4,
            GyroRange::Dps62_5 => 5,
            GyroRange::Dps31_25 => 6,
            GyroRange::Dps15_625 => 7,
        }
    }

    /// The value that a hardware code stands for; `DataCorrupted` for a code
    /// that stands for none.
    pub open spec fn decode(code: u8) -> Result<GyroRange, Error> {
        match code {
            0 => Ok(GyroRange::Dps2000),
            1 => Ok(GyroRange::Dps1000),
            2 => Ok(GyroRange::Dps500),
            3 => Ok(GyroRange::Dps250),
            4 => Ok(GyroRange::Dps125),
            5 => Ok(GyroRange::Dps62_5),
            6 => Ok(GyroRange::Dps31_25),
            7 => Ok(GyroRange::Dps15_625),
            _ => Err(Error::DataCorrupted),
        }
    }

    /// The register that holds the value.
    pub open spec fn spec_register() -> Register {
        Register::GyroConfig0
    }

    /// Where the value lies in its register: bits 7:5 of the gyroscope configuration register.
    pub open spec fn spec_field() -> BitField {
        BitField { offset: 5, width: 3 }
    }

    /// The hardware code of the value. It fits the width of the value's field
    /// and decodes back to the value.
    #[verifier::when_used_as_spec(spec_code)]
    pub fn code(self) -> (code: u8)
        ensures
            code == self.spec_code(),
            code <= 7,
            Self::decode(code) == Ok::<GyroRange, Error>(self),
    {
        match self {
            GyroRange::Dps2000 => 0,
            GyroRange::Dps1000 => 1,
            GyroRange::Dps500 => 2,
            GyroRange::Dps250 => 3,
            GyroRange::Dps125 => 4,
            GyroRange::Dps62_5 => 5,
            GyroRange::Dps31_25 => 6,
            GyroRange::Dps15_625 => 7,
        }
    }

    /// The register that holds the value.
    #[verifier::when_used_as_spec(spec_register)]
    pub fn register() -> (register: Register)
        ensures
            register == Self::spec_register(),
    {
        Register::GyroConfig0
    }

    /// Where the value lies in its register: bits 7:5 of the gyroscope configuration register.
    #[verifier::when_used_as_spec(spec_field)]
    pub fn field() -> (field: BitField)
        ensures
            field == Self::spec_field(),
            field.wf(),
    {
        BitField { offset: 5, width: 3 }
    }

    /// Encoding then decoding gives the value back, and the code fits the
    /// width of the value's field.
    pub proof fn lemma_code_round_trips(self)
        ensures
            Self::decode(self.spec_code()) == Ok::<GyroRange, Error>(self),
            self.spec_code() <= low_bits(Self::spec_field().width),
            Self::spec_field().wf(),
    {
        lemma_low_bits();
    }

    /// A value that was written into its field of any byte reads back from
    /// the updated byte as itself.
    pub proof fn lemma_written_value_reads_back(self, byte: u8)
        ensures
            Self::decode(
                Self::spec_field().spec_extract(
                    Self::spec_field().spec_insert(byte, self.spec_code()),
                ),
            ) == Ok::<GyroRange, Error>(self),
    {
        lemma_low_bits();
        Self::spec_field().lemma_insert_touches_only_the_field(byte, self.spec_code());
    }

    /// A code decodes exactly when some value has it, and then to that
    /// value; every other code is rejected as `DataCorrupted`.
    pub proof fn lemma_decode_inverts_code(code: u8)
        ensures
            match Self::decode(code) {
                Ok(value) => value.spec_code() == code,
                Err(e) => e == Error::DataCorrupted && forall|value: GyroRange|
                    value.spec_code() != code,
            },
    {
    }
}

impl TryFrom<u8> for GyroRange {
    type Error = Error;

    /// Decodes a hardware code; fails with `DataCorrupted` for a code that
    /// the device reserves.
    fn try_from(value: u8) -> (decoded: Result<Self, Self::Error>)
        ensures
            decoded == Self::decode(value),
    {
        match value {
            0 => Ok(GyroRange::Dps2000),
            1 => Ok(GyroRange::Dps1000),
            2 => Ok(GyroRange::Dps500),
            3 => Ok(GyroRange::Dps250),
            4 => Ok(GyroRange::Dps125),
            5 => Ok(GyroRange::Dps62_5),
            6 => Ok(GyroRange::Dps31_25),
            7 => Ok(GyroRange::Dps15_625),
            _ => Err(Error::DataCorrupted),
        }
    }
}

impl TryFromSpecImpl<u8> for GyroRange {
    open spec fn obeys_try_from_spec() -> bool {
        true
    }

    open spec fn try_from_spec(value: u8) -> Result<Self, Self::Error> {
        Self::decode(value)
    }
}

impl Default for GyroRange {
    fn default() -> (value: Self)
        ensures
            value == GyroRange::Dps2000,
    {
        GyroRange::Dps2000
    }
}

/// Standard power modes: the gyroscope and accelerometer modes taken together.
#[derive(Clone, Copy, Debug, PartialEq, Eq, Structural)]
pub enum PowerMode {
    /// Gyroscope: off, accelerometer: off.
    Sleep,
    /// Gyroscope: drive on, accelerometer: off.
    Standby,
    /// Gyroscope: off, accelerometer: duty-cycled.
    AccelLowPower,
    /// Gyroscope: off, accelerometer: on.
    AccelLowNoise,
    /// Gyroscope: on, accelerometer: off.
    GyroLowNoise,
    /// Gyroscope: on, accelerometer: on.
    SixAxisLowNoise,
}

impl PowerMode {
    /// The hardware code of the value.
    pub open spec fn spec_code(self) -> u8 {
        match self {
            PowerMode::Sleep => 0,
            PowerMode::Standby => 4,
            PowerMode::AccelLowPower => 2,
            PowerMode::AccelLowNoise => 3,
            PowerMode::GyroLowNoise => 12,
            PowerMode::SixAxisLowNoise => 15,
        }
    }

    /// The value that a hardware code stands for; `DataCorrupted` for a code
    /// that stands for none.
    pub open spec fn decode(code: u8) -> Result<PowerMode, Error> {
        match code {
            0 => Ok(PowerMode::Sleep),
            4 => Ok(PowerMode::Standby),
            2 => Ok(PowerMode::AccelLowPower),
            3 => Ok(PowerMode::AccelLowNoise),
            12 => Ok(PowerMode::GyroLowNoise),
            15 => Ok(PowerMode::SixAxisLowNoise),
            _ => Err(Error::DataCorrupted),
        }
    }

    /// The register that holds the value.
    pub open spec fn spec_register() -> Register {
        Register::PwrMgmt0
    }

    /// Where the value lies in its register: the low nibble of the power management register.
    pub open spec fn spec_field() -> BitField {
        BitField { offset: 0, width: 4 }
    }

    /// The hardware code of the value. It fits the width of the value's field
    /// and decodes back to the value.
    #[verifier::when_used_as_spec(spec_code)]
    pub fn code(self) -> (code: u8)
        ensures
            code == self.spec_code(),
            code <= 15,
            Self::decode(code) == Ok::<PowerMode, Error>(self),
    {
        match self {
            PowerMode::Sleep => 0,
            PowerMode::Standby => 4,
            PowerMode::AccelLowPower => 2,
            PowerMode::AccelLowNoise => 3,
            PowerMode::GyroLowNoise => 12,
            PowerMode::SixAxisLowNoise => 15,
        }
    }

    /// The register that holds the value.
    #[verifier::when_used_as_spec(spec_register)]
    pub fn register() -> (register: Register)
        ensures
            register == Self::spec_register(),
    {
        Register::PwrMgmt0
    }

    /// Where the value lies in its register: the low nibble of the power management register.
    #[verifier::when_used_as_spec(spec_field)]
    pub fn field() -> (field: BitField)
        ensures
            field == Self::spec_field(),
            field.wf(),
    {
        BitField { offset: 0, width: 4 }
    }

    /// Encoding then decoding gives the value back, and the code fits the
    /// width of the value's field.
    pub proof fn lemma_code_round_trips(self)
        ensures
            Self::decode(self.spec_code()) == Ok::<PowerMode, Error>(self),
            self.spec_code() <= low_bits(Self::spec_field().width),
            Self::spec_field().wf(),
    {
        lemma_low_bits();
    }

    /// A value that was written into its field of any byte reads back from
    /// the updated byte as itself.
    pub proof fn lemma_written_value_reads_back(self, byte: u8)
        ensures
            Self::decode(
                Self::spec_field().spec_extract(
                    Self::spec_field().spec_insert(byte, self.spec_code()),
                ),
            ) == Ok::<PowerMode, Error>(self),
    {
        lemma_low_bits();
        Self::spec_field().lemma_insert_touches_only_the_field(byte, self.spec_code());
    }

    /// A code decodes exactly when some value has it, and then to that
    /// value; every other code is rejected as `DataCorrupted`.
    pub proof fn lemma_decode_inverts_code(code: u8)
        ensures
            match Self::decode(code) {
                Ok(value) => value.spec_code() == code,
                Err(e) => e == Error::DataCorrupted && forall|value: PowerMode|
                    value.spec_code() != code,
            },
    {
    }
}

impl TryFrom<u8> for PowerMode {
    type Error = Error;

    /// Decodes a hardware code; fails with `DataCorrupted` for a code that
    /// the device reserves.
    fn try_from(value: u8) -> (decoded: Result<Self, Self::Error>)
        ensures
            decoded == Self::decode(value),
    {
        match value {
            0 => Ok(PowerMode::Sleep),
            4 => Ok(PowerMode::Standby),
            2 => Ok(PowerMode::AccelLowPower),
            3 => Ok(PowerMode::AccelLowNoise),
            12 => Ok(PowerMode::GyroLowNoise),
            15 => Ok(PowerMode::SixAxisLowNoise),
            _ => Err(Error::DataCorrupted),
        }
    }
}

impl TryFromSpecImpl<u8> for PowerMode {
    open spec fn obeys_try_from_spec() -> bool {
        true
    }

    open spec fn try_from_spec(value: u8) -> Result<Self, Self::Error> {
        Self::decode(value)
    }
}

impl Default for PowerMode {
    fn default() -> (value: Self)
        ensures
            value == PowerMode::Sleep,
    {
        PowerMode::Sleep
    }
}

/// Accelerometer power mode.
#[derive(Clone, Copy, Debug, PartialEq, Eq, Structural)]
pub enum AccelMode {
    /// Accelerometer off.
    Off,
    /// Duty-cycled low-power mode.
    LowPower,
    /// Low-noise mode.
    LowNoise,
}

impl AccelMode {
    /// The hardware code of the value.
    pub open spec fn spec_code(self) -> u8 {
        match self {
            AccelMode::Off => 0,
            AccelMode::LowPower => 2,
            AccelMode::LowNoise => 3,
        }
    }

    /// The value that a hardware code stands for; `DataCorrupted` for a code
    /// that stands for none.
    pub open spec fn decode(code: u8) -> Result<AccelMode, Error> {
        match code {
            0 => Ok(AccelMode::Off),
            2 => Ok(AccelMode::LowPower),
            3 => Ok(AccelMode::LowNoise),
            _ => Err(Error::DataCorrupted),
        }
    }

    /// The register that holds the value.
    pub open spec fn spec_register() -> Register {
        Register::PwrMgmt0
    }

    /// Where the value lies in its register: bits 1:0 of the power management register.
    pub open spec fn spec_field() -> BitField {
        BitField { offset: 0, width: 2 }
    }

    /// The hardware code of the value. It fits the width of the value's field
    /// and decodes back to the value.
    #[verifier::when_used_as_spec(spec_code)]
    pub fn code(self) -> (code: u8)
        ensures
            code == self.spec_code(),
            code <= 3,
            Self::decode(code) == Ok::<AccelMode, Error>(self),
    {
        match self {
            AccelMode::Off => 0,
            AccelMode::LowPower => 2,
            AccelMode::LowNoise => 3,
        }
    }

    /// The register that holds the value.
    #[verifier::when_used_as_spec(spec_register)]
    pub fn register() -> (register: Register)
        ensures
            register == Self::spec_register(),
    {
        Register::PwrMgmt0
    }

    /// Where the value lies in its register: bits 1:0 of the power management register.
    #[verifier::when_used_as_spec(spec_field)]
    pub fn field() -> (field: BitField)
        ensures
            field == Self::spec_field(),
            field.wf(),
    {
        BitField { offset: 0, width: 2 }
    }

    /// Encoding then decoding gives the value back, and the code fits the
    /// width of the value's field.
    pub proof fn lemma_code_round_trips(self)
        ensures
            Self::decode(self.spec_code()) == Ok::<AccelMode, Error>(self),
            self.spec_code() <= low_bits(Self::spec_field().width),
            Self::spec_field().wf(),
    {
        lemma_low_bits();
    }

    /// A value that was written into its field of any byte reads back from
    /// the updated byte as itself.
    pub proof fn lemma_written_value_reads_back(self, byte: u8)
        ensures
            Self::decode(
                Self::spec_field().spec_extract(
                    Self::spec_field().spec_insert(byte, self.spec_code()),
                ),
            ) == Ok::<AccelMode, Error>(self),
    {
        lemma_low_bits();
        Self::spec_field().lemma_insert_touches_only_the_field(byte, self.spec_code());
    }

    /// A code decodes exactly when some value has it, and then to that
    /// value; every other code is rejected as `DataCorrupted`.
    pub proof fn lemma_decode_inverts_code(code: u8)
        ensures
            match Self::decode(code) {
                Ok(value) => value.spec_code() == code,
                Err(e) => e == Error::DataCorrupted && forall|value: AccelMode|
                    value.spec_code() != code,
            },
    {
    }
}

impl TryFrom<u8> for AccelMode {
    type Error = Error;

    /// Decodes a hardware code; fails with `DataCorrupted` for a code that
    /// the device reserves.
    fn try_from(value: u8) -> (decoded: Result<Self, Self::Error>)
        ensures
            decoded == Self::decode(value),
    {
        match value {
            0 => Ok(AccelMode::Off),
            2 => Ok(AccelMode::LowPower),
            3 => Ok(AccelMode::LowNoise),
            _ => Err(Error::DataCorrupted),
        }
    }
}

impl TryFromSpecImpl<u8> for AccelMode {
    open spec fn obeys_try_from_spec() -> bool {
        true
    }

    open spec fn try_from_spec(value: u8) -> Result<Self, Self::Error> {
        Self::decode(value)
    }
}

impl Default for AccelMode {
    fn default() -> (value: Self)
        ensures
            value == AccelMode::Off,
    {
        AccelMode::Off
    }
}

/// Gyroscope power mode.
#[derive(Clone, Copy, Debug, PartialEq, Eq, Structural)]
pub enum GyroMode {
    /// Gyroscope off.
    Off,
    /// Drive running, sensing off.
    Standby,
    /// Low-noise mode.
    LowNoise,
}

impl GyroMode {
    /// The hardware code of the value.
    pub open spec fn spec_code(self) -> u8 {
        match self {
            GyroMode::Off => 0,
            GyroMode::Standby => 1,
            GyroMode::LowNoise => 3,
        }
    }

    /// The value that a hardware code stands for; `DataCorrupted` for a code
    /// that stands for none.
    pub open spec fn decode(code: u8) -> Result<GyroMode, Error> {
        match code {
            0 => Ok(GyroMode::Off),
            1 => Ok(GyroMode::Standby),
            3 => Ok(GyroMode::LowNoise),
            _ => Err(Error::DataCorrupted),
        }
    }

    /// The register that holds the value.
    pub open spec fn spec_register() -> Register {
        Register::PwrMgmt0
    }

    /// Where the value lies in its register: bits 3:2 of the power management register.
    pub open spec fn spec_field() -> BitField {
        BitField { offset: 2, width: 2 }
    }

    /// The hardware code of the value. It fits the width of the value's field
    /// and decodes back to the value.
    #[verifier::when_used_as_spec(spec_code)]
    pub fn code(self) -> (code: u8)
        ensures
            code == self.spec_code(),
            code <= 3,
            Self::decode(code) == Ok::<GyroMode, Error>(self),
    {
        match self {
            GyroMode::Off => 0,
            GyroMode::Standby => 1,
            GyroMode::LowNoise => 3,
        }
    }

    /// The register that holds the value.
    #[verifier::when_used_as_spec(spec_register)]
    pub fn register() -> (register: Register)
        ensures
            register == Self::spec_register(),
    {
        Register::PwrMgmt0
    }

    /// Where the value lies in its register: bits 3:2 of the power management register.
    #[verifier::when_used_as_spec(spec_field)]
    pub fn field() -> (field: BitField)
        ensures
            field == Self::spec_field(),
            field.wf(),
    {
        BitField { offset: 2, width: 2 }
    }

    /// Encoding then decoding gives the value back, and the code fits the
    /// width of the value's field.
    pub proof fn lemma_code_round_trips(self)
        ensures
            Self::decode(self.spec_code()) == Ok::<GyroMode, Error>(self),
            self.spec_code() <= low_bits(Self::spec_field().width),
            Self::spec_field().wf(),
    {
        lemma_low_bits();
    }

    /// A value that was written into its field of any byte reads back from
    /// the updated byte as itself.
    pub proof fn lemma_written_value_reads_back(self, byte: u8)
        ensures
            Self::decode(
                Self::spec_field().spec_extract(
                    Self::spec_field().spec_insert(byte, self.spec_code()),
                ),
            ) == Ok::<GyroMode, Error>(self),
    {
        lemma_low_bits();
        Self::spec_field().lemma_insert_touches_only_the_field(byte, self.spec_code());
    }

    /// A code decodes exactly when some value has it, and then to that
    /// value; every other code is rejected as `DataCorrupted`.
    pub proof fn lemma_decode_inverts_code(code: u8)
        ensures
            match Self::decode(code) {
                Ok(value) => value.spec_code() == code,
                Err(e) => e == Error::DataCorrupted && forall|value: GyroMode|
                    value.spec_code() != code,
            },
    {
    }
}

impl TryFrom<u8> for GyroMode {
    type Error = Error;

    /// Decodes a hardware code; fails with `DataCorrupted` for a code that
    /// the device reserves.
    fn try_from(value: u8) -> (decoded: Result<Self, Self::Error>)
        ensures
            decoded == Self::decode(value),
    {
        match value {
            0 => Ok(GyroMode::Off),
            1 => Ok(GyroMode::Standby),
            3 => Ok(GyroMode::LowNoise),
            _ => Err(Error::DataCorrupted),
        }
    }
}

impl TryFromSpecImpl<u8> for GyroMode {
    open spec fn obeys_try_from_spec() -> bool {
        true
    }

    open spec fn try_from_spec(value: u8) -> Result<Self, Self::Error> {
        Self::decode(value)
    }
}

impl Default for GyroMode {
    fn default() -> (value: Self)
        ensures
            value == GyroMode::Off,
    {
        GyroMode::Off
    }
}

/// What the on-device sample buffer does with new samples.
#[derive(Clone, Copy, Debug, PartialEq, Eq, Structural)]
pub enum FifoMode {
    /// Samples bypass the buffer.
    Bypass,
    /// New samples replace the oldest once the buffer is full.
    StreamToFifo,
    /// New samples are dropped once the buffer is full.
    StopOnFull,
}

impl FifoMode {
    /// The hardware code of the value.
    pub open spec fn spec_code(self) -> u8 {
        match self {
            FifoMode::Bypass => 0,
            FifoMode::StreamToFifo => 1,
            FifoMode::StopOnFull => 2,
        }
    }

    /// The value that a hardware code stands for; `DataCorrupted` for a code
    /// that stands for none.
    pub open spec fn decode(code: u8) -> Result<FifoMode, Error> {
        match code {
            0 => Ok(FifoMode::Bypass),
            1 => Ok(FifoMode::StreamToFifo),
            2 => Ok(FifoMode::StopOnFull),
            _ => Err(Error::DataCorrupted),
        }
    }

    /// The register that holds the value.
    pub open spec fn spec_register() -> Register {
        Register::FifoConfig
    }

    /// Where the value lies in its register: bits 7:6 of the FIFO configuration register.
    pub open spec fn spec_field() -> BitField {
        BitField { offset: 6, width: 2 }
    }

    /// The hardware code of the value. It fits the width of the value's field
    /// and decodes back to the value.
    #[verifier::when_used_as_spec(spec_code)]
    pub fn code(self) -> (code: u8)
        ensures
            code == self.spec_code(),
            code <= 3,
            Self::decode(code) == Ok::<FifoMode, Error>(self),
    {
        match self {
            FifoMode::Bypass => 0,
            FifoMode::StreamToFifo => 1,
            FifoMode::StopOnFull => 2,
        }
    }

    /// The register that holds the value.
    #[verifier::when_used_as_spec(spec_register)]
    pub fn register() -> (register: Register)
        ensures
            register == Self::spec_register(),
    {
        Register::FifoConfig
    }

    /// Where the value lies in its register: bits 7:6 of the FIFO configuration register.
    #[verifier::when_used_as_spec(spec_field)]
    pub fn field() -> (field: BitField)
        ensures
            field == Self::spec_field(),
            field.wf(),
    {
        BitField { offset: 6, width: 2 }
    }

    /// Encoding then decoding gives the value back, and the code fits the
    /// width of the value's field.
    pub proof fn lemma_code_round_trips(self)
        ensures
            Self::decode(self.spec_code()) == Ok::<FifoMode, Error>(self),
            self.spec_code() <= low_bits(Self::spec_field().width),
            Self::spec_field().wf(),
    {
        lemma_low_bits();
    }

    /// A value that was written into its field of any byte reads back from
    /// the updated byte as itself.
    pub proof fn lemma_written_value_reads_back(self, byte: u8)
        ensures
            Self::decode(
                Self::spec_field().spec_extract(
                    Self::spec_field().spec_insert(byte, self.spec_code()),
                ),
            ) == Ok::<FifoMode, Error>(self),
    {
        lemma_low_bits();
        Self::spec_field().lemma_insert_touches_only_the_field(byte, self.spec_code());
    }

    /// A code decodes exactly when some value has it, and then to that
    /// value; every other code is rejected as `DataCorrupted`.
    pub proof fn lemma_decode_inverts_code(code: u8)
        ensures
            match Self::decode(code) {
                Ok(value) => value.spec_code() == code,
                Err(e) => e == Error::DataCorrupted && forall|value: FifoMode|
                    value.spec_code() != code,
            },
    {
    }
}

impl TryFrom<u8> for FifoMode {
    type Error = Error;

    /// Decodes a hardware code; fails with `DataCorrupted` for a code that
    /// the device reserves.
    fn try_from(value: u8) -> (decoded: Result<Self, Self::Error>)
        ensures
            decoded == Self::decode(value),
    {
        match value {
            0 => Ok(FifoMode::Bypass),
            1 => Ok(FifoMode::StreamToFifo),
            2 => Ok(FifoMode::StopOnFull),
            _ => Err(Error::DataCorrupted),
        }
    }
}

impl TryFromSpecImpl<u8> for FifoMode {
    open spec fn obeys_try_from_spec() -> bool {
        true
    }

    open spec fn try_from_spec(value: u8) -> Result<Self, Self::Error> {
        Self::decode(value)
    }
}

impl Default for FifoMode {
    fn default() -> (value: Self)
        ensures
            value == FifoMode::Bypass,
    {
        FifoMode::Bypass
    }
}

/// The fields that share a register have no bit in common: in the
/// accelerometer configuration the range and the rate, in the gyroscope
/// configuration the range and the rate, in the power management the two
/// sensors' modes. Writing one of them therefore leaves the other as it
/// was. The combined power mode covers exactly the two sensors' modes: its
/// code is four times the gyroscope's code plus the accelerometer's.
pub proof fn lemma_fields_do_not_overlap(byte: u8, value: u8)
    ensures
        AccelRange::spec_field().disjoint(AccelODR::spec_field()),
        GyroRange::spec_field().disjoint(GyroODR::spec_field()),
        GyroMode::spec_field().disjoint(AccelMode::spec_field()),
        AccelODR::spec_field().spec_extract(AccelRange::spec_field().spec_insert(byte, value))
            == AccelODR::spec_field().spec_extract(byte),
        AccelRange::spec_field().spec_extract(AccelODR::spec_field().spec_insert(byte, value))
            == AccelRange::spec_field().spec_extract(byte),
        GyroODR::spec_field().spec_extract(GyroRange::spec_field().spec_insert(byte, value))
            == GyroODR::spec_field().spec_extract(byte),
        GyroRange::spec_field().spec_extract(GyroODR::spec_field().spec_insert(byte, value))
            == GyroRange::spec_field().spec_extract(byte),
        AccelMode::spec_field().spec_extract(GyroMode::spec_field().spec_insert(byte, value))
            == AccelMode::spec_field().spec_extract(byte),
        GyroMode::spec_field().spec_extract(AccelMode::spec_field().spec_insert(byte, value))
            == GyroMode::spec_field().spec_extract(byte),
        PowerMode::spec_field().spec_mask() == GyroMode::spec_field().spec_mask()
            | AccelMode::spec_field().spec_mask(),
        PowerMode::spec_field().spec_extract(byte) == 4 * GyroMode::spec_field().spec_extract(
            byte,
        ) + AccelMode::spec_field().spec_extract(byte),
{
    AccelRange::spec_field().lemma_insert_keeps_other_fields(AccelODR::spec_field(), byte, value);
    AccelODR::spec_field().lemma_insert_keeps_other_fields(AccelRange::spec_field(), byte, value);
    GyroRange::spec_field().lemma_insert_keeps_other_fields(GyroODR::spec_field(), byte, value);
    GyroODR::spec_field().lemma_insert_keeps_other_fields(GyroRange::spec_field(), byte, value);
    GyroMode::spec_field().lemma_insert_keeps_other_fields(AccelMode::spec_field(), byte, value);
    AccelMode::spec_field().lemma_insert_keeps_other_fields(GyroMode::spec_field(), byte, value);
    lemma_power_field_is_both_mode_fields(byte);
}

proof fn lemma_power_field_is_both_mode_fields(byte: u8)
    by (bit_vector)
    ensures
        (0xFFu8 >> 4u8) << 0u8 == ((0xFFu8 >> 6u8) << 2u8) | ((0xFFu8 >> 6u8) << 0u8),
        (byte >> 0u8) & (0xFFu8 >> 4u8) == 4 * ((byte >> 2u8) & (0xFFu8 >> 6u8)) + ((byte >> 0u8)
            & (0xFFu8 >> 6u8)),
{
}

impl AccelRange {
    /// Sensitivity scale factor in LSB per g: how many counts of a raw
    /// sample make up one g at this range.
    pub open spec fn spec_lsb_per_g(self) -> u16 {
        match self {
            AccelRange::G16 => 2048,
            AccelRange::G8 => 4096,
            AccelRange::G4 => 8192,
            AccelRange::G2 => 16384,
        }
    }

    /// Sensitivity scale factor in LSB per g.
    #[verifier::when_used_as_spec(spec_lsb_per_g)]
    pub fn lsb_per_g(self) -> (factor: u16)
        ensures
            factor == self.spec_lsb_per_g(),
            factor > 0,
    {
        match self {
            AccelRange::G16 => 2048,
            AccelRange::G8 => 4096,
            AccelRange::G4 => 8192,
            AccelRange::G2 => 16384,
        }
    }
}

impl GyroRange {
    /// Ten times the sensitivity scale factor in LSB per degree per second,
    /// which the device gives to one decimal place: 164 stands for 16.4.
    pub open spec fn spec_lsb_per_dps_x10(self) -> u16 {
        match self {
            GyroRange::Dps2000 => 164,
            GyroRange::Dps1000 => 328,
            GyroRange::Dps500 => 655,
            GyroRange::Dps250 => 1310,
            GyroRange::Dps125 => 2620,
            GyroRange::Dps62_5 => 5243,
            GyroRange::Dps31_25 => 10486,
            GyroRange::Dps15_625 => 20972,
        }
    }

    /// Ten times the sensitivity scale factor in LSB per degree per second.
    #[verifier::when_used_as_spec(spec_lsb_per_dps_x10)]
    pub fn lsb_per_dps_x10(self) -> (factor: u16)
        ensures
            factor == self.spec_lsb_per_dps_x10(),
            factor > 0,
    {
        match self {
            GyroRange::Dps2000 => 164,
            GyroRange::Dps1000 => 328,
            GyroRange::Dps500 => 655,
            GyroRange::Dps250 => 1310,
            GyroRange::Dps125 => 2620,
            GyroRange::Dps62_5 => 5243,
            GyroRange::Dps31_25 => 10486,
            GyroRange::Dps15_625 => 20972,
        }
    }
}

impl PowerMode {
    /// The gyroscope's share of the mode.
    pub open spec fn spec_gyro_mode(self) -> GyroMode {
        match self {
            PowerMode::Sleep => GyroMode::Off,
            PowerMode::Standby => GyroMode::Standby,
            PowerMode::AccelLowPower => GyroMode::Off,
            PowerMode::AccelLowNoise => GyroMode::Off,
            PowerMode::GyroLowNoise => GyroMode::LowNoise,
            PowerMode::SixAxisLowNoise => GyroMode::LowNoise,
        }
    }

    /// The accelerometer's share of the mode.
    pub open spec fn spec_accel_mode(self) -> AccelMode {
        match self {
            PowerMode::Sleep => AccelMode::Off,
            PowerMode::Standby => AccelMode::Off,
            PowerMode::AccelLowPower => AccelMode::LowPower,
            PowerMode::AccelLowNoise => AccelMode::LowNoise,
            PowerMode::GyroLowNoise => AccelMode::Off,
            PowerMode::SixAxisLowNoise => AccelMode::LowNoise,
        }
    }

    /// The gyroscope's share of the mode: its code is bits 3:2 of the
    /// mode's code.
    #[verifier::when_used_as_spec(spec_gyro_mode)]
    pub fn gyro_mode(self) -> (mode: GyroMode)
        ensures
            mode == self.spec_gyro_mode(),
            self.spec_code() == 4 * mode.spec_code() + self.spec_accel_mode().spec_code(),
    {
        match self {
            PowerMode::Sleep => GyroMode::Off,
            PowerMode::Standby => GyroMode::Standby,
            PowerMode::AccelLowPower => GyroMode::Off,
            PowerMode::AccelLowNoise => GyroMode::Off,
            PowerMode::GyroLowNoise => GyroMode::LowNoise,
            PowerMode::SixAxisLowNoise => GyroMode::LowNoise,
        }
    }

    /// The accelerometer's share of the mode: its code is bits 1:0 of the
    /// mode's code.
    #[verifier::when_used_as_spec(spec_accel_mode)]
    pub fn accel_mode(self) -> (mode: AccelMode)
        ensures
            mode == self.spec_accel_mode(),
            self.spec_code() == 4 * self.spec_gyro_mode().spec_code() + mode.spec_code(),
    {
        match self {
            PowerMode::Sleep => AccelMode::Off,
            PowerMode::Standby => AccelMode::Off,
            PowerMode::AccelLowPower => AccelMode::LowPower,
            PowerMode::AccelLowNoise => AccelMode::LowNoise,
            PowerMode::GyroLowNoise => AccelMode::Off,
            PowerMode::SixAxisLowNoise => AccelMode::LowNoise,
        }
    }
}

} // verus!
