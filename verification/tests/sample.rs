use icm42688p::fifo::{
    FifoPacket, ACCEL_ODR_DIFF, CONTAINS_ACCEL_DATA, CONTAINS_FSYNC_TIME, CONTAINS_GYRO_DATA,
    CONTAINS_ODR_TIMESTAMP, FIFO_EMPTY, GYRO_ODR_DIFF,
};
use icm42688p::sample::{
    scale, to_centi_celsius, to_milli_dps, to_milli_g, word_from_bytes,
    TEMPERATURE_LSB_PER_CELSIUS_X100, TEMPERATURE_OFFSET_CELSIUS,
};
use icm42688p::{AccelRange, GyroRange};

fn celsius(raw: i16) -> f32 {
    raw as f32 * 100.0 / TEMPERATURE_LSB_PER_CELSIUS_X100 as f32 + TEMPERATURE_OFFSET_CELSIUS as f32
}

#[test]
fn word_is_big_endian_twos_complement() {
    assert_eq!(word_from_bytes(0x00, 0x00), 0);
    assert_eq!(word_from_bytes(0x00, 0x01), 1);
    assert_eq!(word_from_bytes(0x01, 0x00), 256);
    assert_eq!(word_from_bytes(0x10, 0x00), 4096);
    assert_eq!(word_from_bytes(0x7F, 0xFF), i16::MAX);
    assert_eq!(word_from_bytes(0x80, 0x00), i16::MIN);
    assert_eq!(word_from_bytes(0xF0, 0x00), -4096);
    assert_eq!(word_from_bytes(0xFF, 0xFF), -1);
    assert_eq!(word_from_bytes(0x12, 0x34), 0x1234);
}

#[test]
fn word_agrees_with_from_be_bytes_everywhere() {
    for high in 0..=255u8 {
        for low in 0..=255u8 {
            assert_eq!(word_from_bytes(high, low), i16::from_be_bytes([high, low]));
        }
    }
}

#[test]
fn temperature_raw_zero_is_25_celsius() {
    assert_eq!(celsius(0), 25.0);
    assert_eq!(to_centi_celsius(0), 2500);
}

#[test]
fn temperature_raw_13248_is_125_celsius() {
    assert!((celsius(13248) - 125.0).abs() < 1e-3);
    assert_eq!(to_centi_celsius(13248), 12500);
}

#[test]
fn temperature_rounds_down_to_a_hundredth() {
    assert_eq!(to_centi_celsius(1), 2500);
    assert_eq!(to_centi_celsius(-1), 2499);
    assert_eq!(to_centi_celsius(2), 2501);
    assert_eq!(to_centi_celsius(-13248), -7500);
    assert_eq!(to_centi_celsius(i16::MAX), 27233);
    assert_eq!(to_centi_celsius(i16::MIN), -22235);
}

#[test]
fn temperature_agrees_with_floor_division_everywhere() {
    for raw in i16::MIN..=i16::MAX {
        let expected = 2500 + (raw as i64 * 10000).div_euclid(13248);
        assert_eq!(to_centi_celsius(raw) as i64, expected);
    }
}

#[test]
fn scale_rounds_down_on_both_sides_of_zero() {
    assert_eq!(scale(0, 1000, 4096), 0);
    assert_eq!(scale(4096, 1000, 4096), 1000);
    assert_eq!(scale(-4096, 1000, 4096), -1000);
    assert_eq!(scale(1, 1000, 4096), 0);
    assert_eq!(scale(-1, 1000, 4096), -1);
    assert_eq!(scale(7, 2, 3), 4);
    assert_eq!(scale(-7, 2, 3), -5);
    assert_eq!(scale(6, 2, 3), 4);
    assert_eq!(scale(-6, 2, 3), -4);
    assert_eq!(scale(123, 0, 5), 0);
    assert_eq!(scale(i16::MAX, u16::MAX, 1), 32767 * 65535);
    assert_eq!(scale(i16::MIN, u16::MAX, 1), -32768 * 65535);
    assert_eq!(scale(i16::MIN, u16::MAX, u16::MAX), -32768);
}

#[test]
fn scale_agrees_with_floor_division() {
    for raw in [i16::MIN, -4097, -4096, -4095, -3, -2, -1, 0, 1, 2, 3, 4095, 4096, i16::MAX] {
        for numerator in [0u16, 1, 7, 1000, 10000, u16::MAX] {
            for counts in [1u16, 2, 3, 164, 2048, 13248, u16::MAX] {
                let expected = (raw as i64 * numerator as i64).div_euclid(counts as i64);
                assert_eq!(scale(raw, numerator, counts) as i64, expected);
            }
        }
    }
}

#[test]
fn milli_g_of_4096_counts_at_8g_is_one_g() {
    assert_eq!(to_milli_g(AccelRange::G8, 4096), 1000);
    assert_eq!(to_milli_g(AccelRange::G8, 0), 0);
    assert_eq!(to_milli_g(AccelRange::G8, -4096), -1000);
    assert_eq!(to_milli_g(AccelRange::G16, 2048), 1000);
    assert_eq!(to_milli_g(AccelRange::G4, 8192), 1000);
    assert_eq!(to_milli_g(AccelRange::G2, 16384), 1000);
    assert_eq!(to_milli_g(AccelRange::G2, i16::MAX), 1999);
    assert_eq!(to_milli_g(AccelRange::G16, i16::MIN), -16000);
    assert_eq!(to_milli_g(AccelRange::G16, 1), 0);
    assert_eq!(to_milli_g(AccelRange::G16, -1), -1);
}

#[test]
fn milli_dps_divides_by_the_fractional_factor() {
    assert_eq!(to_milli_dps(GyroRange::Dps2000, 164), 10_000);
    assert_eq!(to_milli_dps(GyroRange::Dps2000, -164), -10_000);
    assert_eq!(to_milli_dps(GyroRange::Dps250, 1310), 10_000);
    assert_eq!(to_milli_dps(GyroRange::Dps250, 131), 1000);
    assert_eq!(to_milli_dps(GyroRange::Dps500, 655), 10_000);
    assert_eq!(to_milli_dps(GyroRange::Dps15_625, 20972), 10_000);
    assert_eq!(to_milli_dps(GyroRange::Dps2000, i16::MAX), 1_997_987);
    assert_eq!(to_milli_dps(GyroRange::Dps2000, 1), 60);
    assert_eq!(to_milli_dps(GyroRange::Dps2000, -1), -61);
}

fn packet(header: u8) -> FifoPacket {
    FifoPacket {
        header,
        accel_x: 1,
        accel_y: 0xFFFE,
        accel_z: 3,
        gyro_x: 0xFFFC,
        gyro_y: 5,
        gyro_z: 0xFFFA,
        temperature: 7,
        timestamp: 8,
        ext_accel_x_gyro_x: 9,
        ext_accel_y_gyro_y: 10,
        ext_accel_z_gyro_z: 11,
    }
}

#[test]
fn fifo_packet_gives_accelerometer_only_when_flagged() {
    assert_eq!(packet(0x40).accelerometer(), Some((1, 0xFFFE, 3)));
    assert_eq!(packet(0x40).gyroscope(), None);
    assert_eq!(packet(0xBF).accelerometer(), None);
}

#[test]
fn fifo_packet_gives_gyroscope_only_when_flagged() {
    assert_eq!(packet(0x20).gyroscope(), Some((0xFFFC, 5, 0xFFFA)));
    assert_eq!(packet(0x20).accelerometer(), None);
    assert_eq!(packet(0xDF).gyroscope(), None);
}

#[test]
fn fifo_packet_gives_both_when_both_flagged() {
    assert_eq!(packet(0x60).accelerometer(), Some((1, 0xFFFE, 3)));
    assert_eq!(packet(0x60).gyroscope(), Some((0xFFFC, 5, 0xFFFA)));
    assert_eq!(packet(0x00).accelerometer(), None);
    assert_eq!(packet(0x00).gyroscope(), None);
}

#[test]
fn header_flags_have_their_bits() {
    assert_eq!(FIFO_EMPTY, 1 << 7);
    assert_eq!(CONTAINS_ACCEL_DATA, 1 << 6);
    assert_eq!(CONTAINS_GYRO_DATA, 1 << 5);
    assert_eq!(CONTAINS_ODR_TIMESTAMP, 0b10 << 2);
    assert_eq!(CONTAINS_FSYNC_TIME, 0b11 << 2);
    assert_eq!(ACCEL_ODR_DIFF, 1 << 1);
    assert_eq!(GYRO_ODR_DIFF, 1 << 0);
}

#[test]
fn fifo_packet_ignores_the_other_header_flags() {
    let others = FIFO_EMPTY | CONTAINS_FSYNC_TIME | ACCEL_ODR_DIFF | GYRO_ODR_DIFF;
    assert_eq!(packet(others).accelerometer(), None);
    assert_eq!(packet(others).gyroscope(), None);
    assert_eq!(packet(others | CONTAINS_ACCEL_DATA).accelerometer(), Some((1, 0xFFFE, 3)));
    assert_eq!(packet(others | CONTAINS_GYRO_DATA).gyroscope(), Some((0xFFFC, 5, 0xFFFA)));
}
