//! Raw samples: how the bytes of the data registers make up a number, and
//! what the number means in physical units.
//!
//! Physical units are given in fixed point. Every conversion is the raw
//! sample times a whole number of sub-units, divided by the counts per unit,
//! rounded down.

use crate::config::{AccelRange, GyroRange};
use vstd::arithmetic::div_mod::{
    lemma_fundamental_div_mod, lemma_fundamental_div_mod_converse, lemma_mod_bound,
};
use vstd::prelude::*;

verus! {

/// Counts of a raw temperature sample per degree Celsius, times one hundred:
/// the device gives 132.48 counts per degree.
pub const TEMPERATURE_LSB_PER_CELSIUS_X100: u16 = 13248;

/// The temperature, in degrees Celsius, at which the raw sample is zero.
pub const TEMPERATURE_OFFSET_CELSIUS: u8 = 25;

/// The 16-bit two's-complement number whose upper byte is `high` and whose
/// lower byte is `low`.
pub open spec fn word(high: u8, low: u8) -> i16 {
    if high >= 0x80 {
        (high * 256 + low - 65536) as i16
    } else {
        (high * 256 + low) as i16
    }
}

/// `raw * numerator / counts`, rounded down to a whole number.
pub open spec fn scaled(raw: i16, numerator: int, counts: int) -> int {
    (raw * numerator) / counts
}

/// The acceleration of a raw sample in thousandths of a g at `range`: the
/// sample divided by the range's counts per g, rounded down to a thousandth.
pub open spec fn milli_g(range: AccelRange, raw: i16) -> int {
    scaled(raw, 1000, range.spec_lsb_per_g() as int)
}

/// The angular rate of a raw sample in thousandths of a degree per second
/// at `range`: the sample divided by the range's counts per degree per
/// second, rounded down to a thousandth.
pub open spec fn milli_dps(range: GyroRange, raw: i16) -> int {
    scaled(raw, 10000, range.spec_lsb_per_dps_x10() as int)
}

/// The temperature of a raw sample in hundredths of a degree Celsius: the
/// sample divided by 132.48 counts per degree, rounded down to a hundredth,
/// plus 25 degrees.
pub open spec fn centi_celsius(raw: i16) -> int {
    scaled(raw, 10000, 13248) + 2500
}

/// Puts the two bytes of a sample together, upper byte first, and reads
/// them as a 16-bit two's-complement number.
pub fn word_from_bytes(high: u8, low: u8) -> (value: i16)
    ensures
        value == word(high, low),
        high < 0x80 ==> value == high * 256 + low,
        high >= 0x80 ==> value == high * 256 + low - 65536,
{
    let unsigned: u16 = (high as u16) * 256 + (low as u16);
    if unsigned >= 0x8000 {
        ((unsigned as i32) - 65536) as i16
    } else {
        unsigned as i16
    }
}

/// Scales a raw sample: `raw * numerator / counts`, rounded down.
pub fn scale(raw: i16, numerator: u16, counts: u16) -> (value: i32)
    requires
        counts > 0,
    ensures
        value == scaled(raw, numerator as int, counts as int),
        raw >= 0 ==> 0 <= value <= raw * numerator,
        raw < 0 ==> raw * numerator <= value <= 0,
{
    proof {
        assert(-32768 * 65535 <= raw * numerator <= 32767 * 65535) by (nonlinear_arith)
            requires
                -32768 <= raw <= 32767,
                0 <= numerator <= 65535,
        ;
        assert(raw >= 0 ==> raw * numerator >= 0) by (nonlinear_arith)
            requires
                numerator >= 0,
        ;
        assert(raw < 0 ==> raw * numerator <= 0) by (nonlinear_arith)
            requires
                numerator >= 0,
        ;
    }
    let product: i64 = (raw as i64) * (numerator as i64);
    let divisor: u64 = counts as u64;
    if product >= 0 {
        let quotient: u64 = (product as u64) / divisor;
        proof {
            lemma_fundamental_div_mod(product as int, divisor as int);
            lemma_mod_bound(product as int, divisor as int);
            assert(divisor * quotient <= product);
            assert(quotient <= product) by (nonlinear_arith)
                requires
                    divisor * quotient <= product,
                    divisor >= 1,
                    quotient >= 0,
            ;
        }
        quotient as i32
    } else {
        let magnitude: u64 = (-product) as u64;
        let lifted: u64 = magnitude + (divisor - 1);
        let quotient: u64 = lifted / divisor;
        proof {
            let remainder = lifted as int % divisor as int;
            lemma_fundamental_div_mod(lifted as int, divisor as int);
            lemma_mod_bound(lifted as int, divisor as int);
            assert(lifted == divisor * quotient + remainder);
            assert((-(quotient as int)) * divisor == -(divisor * quotient)) by (nonlinear_arith);
            lemma_fundamental_div_mod_converse(
                product as int,
                divisor as int,
                -(quotient as int),
                divisor - 1 - remainder,
            );
            assert(quotient >= 1 && quotient <= magnitude) by (nonlinear_arith)
                requires
                    magnitude + divisor - 1 == divisor * quotient + remainder,
                    0 <= remainder < divisor,
                    magnitude >= 1,
                    divisor >= 1,
                    quotient >= 0,
            ;
        }
        -(quotient as i64) as i32
    }
}

/// Converts a raw acceleration sample to thousandths of a g at `range`,
/// rounding down.
pub fn to_milli_g(range: AccelRange, raw: i16) -> (value: i32)
    ensures
        value == milli_g(range, raw),
{
    scale(raw, 1000, range.lsb_per_g())
}

/// Converts a raw angular rate sample to thousandths of a degree per second
/// at `range`, rounding down.
pub fn to_milli_dps(range: GyroRange, raw: i16) -> (value: i32)
    ensures
        value == milli_dps(range, raw),
{
    scale(raw, 10000, range.lsb_per_dps_x10())
}

/// Converts a raw temperature sample to hundredths of a degree Celsius,
/// rounding down.
pub fn to_centi_celsius(raw: i16) -> (temperature: i32)
    ensures
        temperature == centi_celsius(raw),
{
    scale(raw, 10000, TEMPERATURE_LSB_PER_CELSIUS_X100) + 100 * (TEMPERATURE_OFFSET_CELSIUS as i32)
}

} // verus!
