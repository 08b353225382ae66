use embedded_hal::spi::{self, SpiBus};
use icm42688p::transcript::DEVICE_ID;
use icm42688p::{
    AccelMode, AccelODR, AccelRange, BankSelection, BitField, Error, FifoMode, GyroMode, GyroODR,
    GyroRange, Icm42688p, Interface, PowerMode, Register, SpiBusInterface,
};

const BANK_SELECT: u8 = 0x76;

/// One register access as the mock device saw it.
#[derive(Debug, PartialEq, Eq, Clone, Copy)]
enum Seen {
    Read(u8),
    Write(u8, u8),
}

/// A device with one byte per address, which takes down every access and
/// fails the access with the given number, counted from zero.
struct MockDevice {
    registers: [u8; 128],
    seen: Vec<Seen>,
    fail_at: Option<usize>,
}

impl MockDevice {
    fn new() -> Self {
        let mut registers = [0u8; 128];
        registers[0x75] = 0x47;
        MockDevice { registers, seen: Vec::new(), fail_at: None }
    }

    fn with(mut self, register: Register, value: u8) -> Self {
        self.registers[register.address() as usize] = value;
        self
    }

    fn failing_at(mut self, access: usize) -> Self {
        self.fail_at = Some(access);
        self
    }

    fn fails_now(&self) -> bool {
        self.fail_at == Some(self.seen.len())
    }

    fn bank_selects(&self) -> usize {
        self.seen.iter().filter(|seen| matches!(seen, Seen::Write(BANK_SELECT, _))).count()
    }
}

impl Interface for MockDevice {
    fn read_register(&mut self, address: u8) -> Result<u8, Error> {
        let fails = self.fails_now();
        self.seen.push(Seen::Read(address));
        if fails {
            Err(Error::Spi)
        } else {
            Ok(self.registers[address as usize])
        }
    }

    fn write_register(&mut self, address: u8, buffer: u8) -> Result<(), Error> {
        let fails = self.fails_now();
        self.seen.push(Seen::Write(address, buffer));
        if fails {
            Err(Error::I2C)
        } else {
            self.registers[address as usize] = buffer;
            Ok(())
        }
    }
}

#[test]
fn read_in_the_cached_bank_sends_no_bank_select() {
    let mut imu = Icm42688p::new(MockDevice::new());
    assert_eq!(imu.read(Register::WhoAmI), Ok(0x47));
    let device = imu.release();
    assert_eq!(device.bank_selects(), 0);
    assert_eq!(device.seen, vec![Seen::Read(0x75)]);
}

#[test]
fn write_in_the_cached_bank_sends_no_bank_select() {
    let mut imu = Icm42688p::new(MockDevice::new());
    assert_eq!(imu.write(Register::IntConfig, 0x1B), Ok(()));
    let device = imu.release();
    assert_eq!(device.bank_selects(), 0);
    assert_eq!(device.seen, vec![Seen::Write(0x14, 0x1B)]);
}

#[test]
fn read_in_another_bank_selects_the_bank_exactly_once() {
    let mut imu = Icm42688p::new(MockDevice::new());
    assert_eq!(imu.set_bank_selection(BankSelection::Bank2), Ok(()));
    assert_eq!(imu.read(Register::WhoAmI), Ok(0x47));
    assert_eq!(imu.read(Register::WhoAmI), Ok(0x47));
    assert_eq!(imu.read(Register::AccelConfig0), Ok(0x00));
    let device = imu.release();
    assert_eq!(
        device.seen,
        vec![
            Seen::Write(0x76, 2),
            Seen::Write(0x76, 0),
            Seen::Read(0x75),
            Seen::Read(0x75),
            Seen::Read(0x50),
        ],
    );
    assert_eq!(device.bank_selects(), 2);
}

#[test]
fn write_in_another_bank_selects_the_bank_exactly_once() {
    let mut imu = Icm42688p::new(MockDevice::new());
    assert_eq!(imu.set_bank_selection(BankSelection::Bank4), Ok(()));
    assert_eq!(imu.write(Register::IntConfig, 0x1B), Ok(()));
    assert_eq!(imu.write(Register::IntConfig, 0x02), Ok(()));
    let device = imu.release();
    assert_eq!(
        device.seen,
        vec![
            Seen::Write(0x76, 4),
            Seen::Write(0x76, 0),
            Seen::Write(0x14, 0x1B),
            Seen::Write(0x14, 0x02),
        ],
    );
}

#[test]
fn bank_select_register_is_reached_without_a_bank_check() {
    let mut imu = Icm42688p::new(MockDevice::new());
    assert_eq!(imu.set_bank_selection(BankSelection::Bank1), Ok(()));
    assert_eq!(imu.read(Register::RegBankSel), Ok(1));
    assert_eq!(imu.set_bank_selection(BankSelection::Bank3), Ok(()));
    let device = imu.release();
    assert_eq!(
        device.seen,
        vec![Seen::Write(0x76, 1), Seen::Read(0x76), Seen::Write(0x76, 3)],
    );
}

#[test]
fn failed_bank_select_is_surfaced_and_ends_the_access() {
    let mut imu = Icm42688p::new(MockDevice::new().failing_at(1));
    assert_eq!(imu.set_bank_selection(BankSelection::Bank2), Ok(()));
    assert_eq!(imu.read(Register::WhoAmI), Err(Error::I2C));
    // The cache still holds bank 2, so the next access selects bank 0 again.
    assert_eq!(imu.read(Register::WhoAmI), Ok(0x47));
    let device = imu.release();
    assert_eq!(
        device.seen,
        vec![Seen::Write(0x76, 2), Seen::Write(0x76, 0), Seen::Write(0x76, 0), Seen::Read(0x75)],
    );
}

#[test]
fn failed_set_bank_selection_leaves_the_cache() {
    let mut imu = Icm42688p::new(MockDevice::new().failing_at(0));
    assert_eq!(imu.set_bank_selection(BankSelection::Bank2), Err(Error::I2C));
    assert_eq!(imu.read(Register::WhoAmI), Ok(0x47));
    let device = imu.release();
    assert_eq!(device.seen, vec![Seen::Write(0x76, 2), Seen::Read(0x75)]);
}

#[test]
fn bank_selection_reads_the_device_and_takes_the_bank_over() {
    let mut imu = Icm42688p::new(MockDevice::new().with(Register::RegBankSel, 3));
    assert_eq!(imu.bank_selection(), Ok(BankSelection::Bank3));
    assert_eq!(imu.read(Register::WhoAmI), Ok(0x47));
    let device = imu.release();
    assert_eq!(device.seen, vec![Seen::Read(0x76), Seen::Write(0x76, 0), Seen::Read(0x75)]);
}

#[test]
fn bank_selection_rejects_a_byte_that_names_no_bank() {
    let mut imu = Icm42688p::new(MockDevice::new().with(Register::RegBankSel, 5));
    assert_eq!(imu.bank_selection(), Err(Error::DataCorrupted));
    assert_eq!(imu.read(Register::WhoAmI), Ok(0x47));
    let device = imu.release();
    assert_eq!(device.seen, vec![Seen::Read(0x76), Seen::Read(0x75)]);
}

#[test]
fn writing_a_bank_code_to_the_bank_select_register_moves_the_cache() {
    let mut imu = Icm42688p::new(MockDevice::new());
    assert_eq!(imu.write(Register::RegBankSel, 1), Ok(()));
    assert_eq!(imu.read(Register::WhoAmI), Ok(0x47));
    let device = imu.release();
    assert_eq!(device.seen, vec![Seen::Write(0x76, 1), Seen::Write(0x76, 0), Seen::Read(0x75)]);
}

#[test]
fn init_succeeds_on_the_expected_identity() {
    assert_eq!(DEVICE_ID, 0x47);
    let mut imu = Icm42688p::new(MockDevice::new());
    assert_eq!(imu.init(), Ok(()));
    let device = imu.release();
    assert_eq!(
        device.seen,
        vec![
            Seen::Read(0x75),
            Seen::Read(0x50),
            Seen::Write(0x50, 0x00),
            Seen::Read(0x4F),
            Seen::Write(0x4F, 0x00),
            Seen::Read(0x50),
            Seen::Write(0x50, 0x06),
            Seen::Read(0x4F),
            Seen::Write(0x4F, 0x06),
            Seen::Read(0x4E),
            Seen::Write(0x4E, 0x0F),
        ],
    );
    assert_eq!(device.registers[0x50], 0x06);
    assert_eq!(device.registers[0x4F], 0x06);
    assert_eq!(device.registers[0x4E], 0x0F);
}

#[test]
fn init_overwrites_only_the_configured_fields() {
    let device = MockDevice::new()
        .with(Register::AccelConfig0, 0xFF)
        .with(Register::GyroConfig0, 0xFF)
        .with(Register::PwrMgmt0, 0xF0);
    let mut imu = Icm42688p::new(device);
    assert_eq!(imu.init(), Ok(()));
    assert_eq!(imu.accel_range(), Ok(AccelRange::G16));
    assert_eq!(imu.gyro_range(), Ok(GyroRange::Dps2000));
    assert_eq!(imu.accel_odr(), Ok(AccelODR::Hz1k));
    assert_eq!(imu.gyro_odr(), Ok(GyroODR::Hz1k));
    assert_eq!(imu.power_mode(), Ok(PowerMode::SixAxisLowNoise));
    let device = imu.release();
    assert_eq!(device.registers[0x50], 0b0001_0110);
    assert_eq!(device.registers[0x4F], 0b0001_0110);
    assert_eq!(device.registers[0x4E], 0xFF);
}

#[test]
fn init_rejects_any_other_identity_and_writes_nothing() {
    for identity in 0..=255u8 {
        if identity == 0x47 {
            continue;
        }
        let mut imu = Icm42688p::new(MockDevice::new().with(Register::WhoAmI, identity));
        assert_eq!(imu.init(), Err(Error::BadDeviceId));
        let device = imu.release();
        assert_eq!(device.seen, vec![Seen::Read(0x75)]);
    }
}

#[test]
fn init_surfaces_the_first_bus_error_and_stops() {
    let mut imu = Icm42688p::new(MockDevice::new().failing_at(0));
    assert_eq!(imu.init(), Err(Error::Spi));
    assert_eq!(imu.release().seen.len(), 1);

    let mut imu = Icm42688p::new(MockDevice::new().failing_at(4));
    assert_eq!(imu.init(), Err(Error::I2C));
    let device = imu.release();
    assert_eq!(
        device.seen,
        vec![
            Seen::Read(0x75),
            Seen::Read(0x50),
            Seen::Write(0x50, 0x00),
            Seen::Read(0x4F),
            Seen::Write(0x4F, 0x00),
        ],
    );
}

#[test]
fn configure_applies_the_defaults_without_an_identity_check() {
    let mut imu = Icm42688p::new(MockDevice::new().with(Register::WhoAmI, 0x00));
    assert_eq!(imu.configure(), Ok(()));
    let device = imu.release();
    assert_eq!(device.seen.len(), 10);
    assert_eq!(device.seen[0], Seen::Read(0x50));
    assert_eq!(device.seen[9], Seen::Write(0x4E, 0x0F));
}

#[test]
fn set_accel_range_keeps_marker_bits_outside_the_field() {
    let mut imu = Icm42688p::new(MockDevice::new().with(Register::AccelConfig0, 0xFF));
    assert_eq!(imu.set_accel_range(AccelRange::G8), Ok(()));
    let device = imu.release();
    assert_eq!(device.seen, vec![Seen::Read(0x50), Seen::Write(0x50, 0b0011_1111)]);
}

#[test]
fn set_accel_odr_keeps_marker_bits_outside_the_field() {
    let mut imu = Icm42688p::new(MockDevice::new().with(Register::AccelConfig0, 0xFF));
    assert_eq!(imu.set_accel_odr(AccelODR::Hz100), Ok(()));
    let device = imu.release();
    assert_eq!(device.seen, vec![Seen::Read(0x50), Seen::Write(0x50, 0b1111_1000)]);
}

#[test]
fn set_gyro_range_and_odr_share_a_register_without_disturbing_each_other() {
    let mut imu = Icm42688p::new(MockDevice::new());
    assert_eq!(imu.set_gyro_range(GyroRange::Dps250), Ok(()));
    assert_eq!(imu.set_gyro_odr(GyroODR::Hz500), Ok(()));
    assert_eq!(imu.gyro_range(), Ok(GyroRange::Dps250));
    assert_eq!(imu.gyro_odr(), Ok(GyroODR::Hz500));
    assert_eq!(imu.set_gyro_range(GyroRange::Dps15_625), Ok(()));
    assert_eq!(imu.gyro_odr(), Ok(GyroODR::Hz500));
    let device = imu.release();
    assert_eq!(device.registers[0x4F], 0b1110_1111);
}

#[test]
fn set_power_mode_writes_the_low_nibble() {
    let mut imu = Icm42688p::new(MockDevice::new().with(Register::PwrMgmt0, 0xA0));
    assert_eq!(imu.set_power_mode(PowerMode::GyroLowNoise), Ok(()));
    assert_eq!(imu.power_mode(), Ok(PowerMode::GyroLowNoise));
    assert_eq!(imu.gyro_mode(), Ok(GyroMode::LowNoise));
    assert_eq!(imu.accel_mode(), Ok(AccelMode::Off));
    let device = imu.release();
    assert_eq!(device.registers[0x4E], 0xAC);
}

#[test]
fn sleep_is_a_power_mode_like_any_other() {
    let mut imu = Icm42688p::new(MockDevice::new().with(Register::PwrMgmt0, 0x0F));
    assert_eq!(imu.set_power_mode(PowerMode::Sleep), Ok(()));
    assert_eq!(imu.power_mode(), Ok(PowerMode::Sleep));
    assert_eq!(imu.set_power_mode(PowerMode::SixAxisLowNoise), Ok(()));
    assert_eq!(imu.power_mode(), Ok(PowerMode::SixAxisLowNoise));
}

#[test]
fn accel_and_gyro_modes_are_separate_fields_of_one_register() {
    let mut imu = Icm42688p::new(MockDevice::new().with(Register::PwrMgmt0, 0xF0));
    assert_eq!(imu.set_accel_mode(AccelMode::LowNoise), Ok(()));
    assert_eq!(imu.set_gyro_mode(GyroMode::Standby), Ok(()));
    assert_eq!(imu.accel_mode(), Ok(AccelMode::LowNoise));
    assert_eq!(imu.gyro_mode(), Ok(GyroMode::Standby));
    let device = imu.release();
    assert_eq!(device.registers[0x4E], 0b1111_0111);
}

#[test]
fn fifo_mode_lives_in_the_top_bits_of_its_register() {
    let mut imu = Icm42688p::new(MockDevice::new().with(Register::FifoConfig, 0x3F));
    assert_eq!(imu.fifo_mode(), Ok(FifoMode::Bypass));
    assert_eq!(imu.set_fifo_mode(FifoMode::StopOnFull), Ok(()));
    assert_eq!(imu.fifo_mode(), Ok(FifoMode::StopOnFull));
    let device = imu.release();
    assert_eq!(device.registers[0x16], 0xBF);
}

#[test]
fn getters_reject_reserved_codes() {
    let device = MockDevice::new()
        .with(Register::AccelConfig0, 0b1000_0000)
        .with(Register::GyroConfig0, 0b0000_1100)
        .with(Register::PwrMgmt0, 0b0000_0001)
        .with(Register::FifoConfig, 0b1100_0000);
    let mut imu = Icm42688p::new(device);
    assert_eq!(imu.accel_range(), Err(Error::DataCorrupted));
    assert_eq!(imu.accel_odr(), Err(Error::DataCorrupted));
    assert_eq!(imu.gyro_odr(), Err(Error::DataCorrupted));
    assert_eq!(imu.gyro_range(), Ok(GyroRange::Dps2000));
    assert_eq!(imu.power_mode(), Err(Error::DataCorrupted));
    assert_eq!(imu.accel_mode(), Err(Error::DataCorrupted));
    assert_eq!(imu.gyro_mode(), Ok(GyroMode::Off));
    assert_eq!(imu.fifo_mode(), Err(Error::DataCorrupted));
}

#[test]
fn getters_ignore_the_bits_of_other_fields() {
    let device = MockDevice::new().with(Register::AccelConfig0, 0b0111_0110);
    let mut imu = Icm42688p::new(device);
    assert_eq!(imu.accel_range(), Ok(AccelRange::G2));
    assert_eq!(imu.accel_odr(), Ok(AccelODR::Hz1k));
}

#[test]
fn setter_stops_after_a_failed_read() {
    let mut imu = Icm42688p::new(MockDevice::new().failing_at(0));
    assert_eq!(imu.set_accel_range(AccelRange::G4), Err(Error::Spi));
    let device = imu.release();
    assert_eq!(device.seen, vec![Seen::Read(0x50)]);
}

#[test]
fn setter_surfaces_a_failed_write() {
    let mut imu = Icm42688p::new(MockDevice::new().failing_at(1));
    assert_eq!(imu.set_accel_range(AccelRange::G4), Err(Error::I2C));
    let device = imu.release();
    assert_eq!(device.seen, vec![Seen::Read(0x50), Seen::Write(0x50, 0b0100_0000)]);
    assert_eq!(device.registers[0x50], 0x00);
}

#[test]
fn read_field_and_write_field_work_on_any_field() {
    let field = BitField::new(1, 2).expect("the field lies within a byte");
    let mut imu = Icm42688p::new(MockDevice::new().with(Register::IntConfig, 0b1111_1001));
    assert_eq!(imu.read_field(Register::IntConfig, field), Ok(0b00));
    assert_eq!(imu.write_field(Register::IntConfig, field, 0b10), Ok(()));
    assert_eq!(imu.read_field(Register::IntConfig, field), Ok(0b10));
    let device = imu.release();
    assert_eq!(device.registers[0x14], 0b1111_1101);
}

#[test]
fn raw_acceleration_reads_upper_then_lower_byte_per_axis() {
    let device = MockDevice::new()
        .with(Register::AccelDataX1, 0x12)
        .with(Register::AccelDataX0, 0x34)
        .with(Register::AccelDataY1, 0xFF)
        .with(Register::AccelDataY0, 0xFE)
        .with(Register::AccelDataZ1, 0x80)
        .with(Register::AccelDataZ0, 0x00);
    let mut imu = Icm42688p::new(device);
    assert_eq!(imu.raw_acceleration(), Ok((0x1234, -2, i16::MIN)));
    let device = imu.release();
    assert_eq!(
        device.seen,
        vec![
            Seen::Read(0x1F),
            Seen::Read(0x20),
            Seen::Read(0x21),
            Seen::Read(0x22),
            Seen::Read(0x23),
            Seen::Read(0x24),
        ],
    );
}

#[test]
fn raw_angular_velocity_reads_upper_then_lower_byte_per_axis() {
    let device = MockDevice::new()
        .with(Register::GyroDataX1, 0x00)
        .with(Register::GyroDataX0, 0x01)
        .with(Register::GyroDataY1, 0x7F)
        .with(Register::GyroDataY0, 0xFF)
        .with(Register::GyroDataZ1, 0xFF)
        .with(Register::GyroDataZ0, 0x00);
    let mut imu = Icm42688p::new(device);
    assert_eq!(imu.raw_angular_velocity(), Ok((1, i16::MAX, -256)));
    let device = imu.release();
    assert_eq!(
        device.seen,
        vec![
            Seen::Read(0x25),
            Seen::Read(0x26),
            Seen::Read(0x27),
            Seen::Read(0x28),
            Seen::Read(0x29),
            Seen::Read(0x2A),
        ],
    );
}

#[test]
fn raw_temperature_reads_upper_then_lower_byte() {
    let device =
        MockDevice::new().with(Register::TempData1, 0x33).with(Register::TempData0, 0xC0);
    let mut imu = Icm42688p::new(device);
    assert_eq!(imu.raw_temperature(), Ok(13248));
    assert_eq!(imu.read_word(Register::TempData1, Register::TempData0), Ok(13248));
    let device = imu.release();
    assert_eq!(
        device.seen,
        vec![Seen::Read(0x1D), Seen::Read(0x1E), Seen::Read(0x1D), Seen::Read(0x1E)],
    );
}

#[test]
fn raw_reads_stop_at_the_first_failure() {
    for failing in 0..6usize {
        let mut imu = Icm42688p::new(MockDevice::new().failing_at(failing));
        assert_eq!(imu.raw_acceleration(), Err(Error::Spi));
        assert_eq!(imu.release().seen.len(), failing + 1);
    }
    let mut imu = Icm42688p::new(MockDevice::new().failing_at(6));
    assert_eq!(imu.raw_acceleration(), Ok((0, 0, 0)));
}

#[test]
fn acceleration_at_8g_scales_4096_counts_to_one_g() {
    let device = MockDevice::new()
        .with(Register::AccelDataX1, 0x10)
        .with(Register::AccelDataX0, 0x00)
        .with(Register::AccelDataY1, 0x00)
        .with(Register::AccelDataY0, 0x00)
        .with(Register::AccelDataZ1, 0xF0)
        .with(Register::AccelDataZ0, 0x00);
    let mut imu = Icm42688p::new(device);
    assert_eq!(imu.set_accel_range(AccelRange::G8), Ok(()));
    let factor = imu.accel_range().expect("the range was just set").lsb_per_g() as f32;
    let (x, y, z) = imu.raw_acceleration().expect("the mock does not fail");
    assert_eq!((x, y, z), (4096, 0, -4096));
    assert_eq!((x as f32 / factor, y as f32 / factor, z as f32 / factor), (1.0, 0.0, -1.0));
}

#[test]
fn angular_velocity_scales_by_the_range_in_the_register() {
    let device = MockDevice::new()
        .with(Register::GyroConfig0, 0b0110_0110)
        .with(Register::GyroDataX1, 0x05)
        .with(Register::GyroDataX0, 0x1E);
    let mut imu = Icm42688p::new(device);
    let range = imu.gyro_range().expect("the code is defined");
    assert_eq!(range, GyroRange::Dps250);
    let (x, _, _) = imu.raw_angular_velocity().expect("the mock does not fail");
    assert_eq!(x, 1310);
    assert_eq!(x as f32 / (range.lsb_per_dps_x10() as f32 / 10.0), 10.0);
}

#[test]
fn acceleration_milli_g_reads_the_range_then_the_samples() {
    let device = MockDevice::new()
        .with(Register::AccelConfig0, 0b0010_0110)
        .with(Register::AccelDataX1, 0x10)
        .with(Register::AccelDataZ1, 0xF0);
    let mut imu = Icm42688p::new(device);
    assert_eq!(imu.acceleration_milli_g(), Ok((1000, 0, -1000)));
    let device = imu.release();
    assert_eq!(
        device.seen,
        vec![
            Seen::Read(0x50),
            Seen::Read(0x1F),
            Seen::Read(0x20),
            Seen::Read(0x21),
            Seen::Read(0x22),
            Seen::Read(0x23),
            Seen::Read(0x24),
        ],
    );
}

#[test]
fn acceleration_milli_g_follows_the_range_in_the_register() {
    let device = MockDevice::new().with(Register::AccelDataX1, 0x10);
    let mut imu = Icm42688p::new(device);
    assert_eq!(imu.acceleration_milli_g(), Ok((2000, 0, 0)));
    assert_eq!(imu.set_accel_range(AccelRange::G2), Ok(()));
    assert_eq!(imu.acceleration_milli_g(), Ok((250, 0, 0)));
}

#[test]
fn acceleration_milli_g_rejects_a_reserved_range_before_reading_samples() {
    let device = MockDevice::new().with(Register::AccelConfig0, 0b1110_0000);
    let mut imu = Icm42688p::new(device);
    assert_eq!(imu.acceleration_milli_g(), Err(Error::DataCorrupted));
    assert_eq!(imu.release().seen, vec![Seen::Read(0x50)]);
}

#[test]
fn angular_velocity_milli_dps_reads_the_range_then_the_samples() {
    let device = MockDevice::new()
        .with(Register::GyroConfig0, 0b0110_0110)
        .with(Register::GyroDataX1, 0x05)
        .with(Register::GyroDataX0, 0x1E)
        .with(Register::GyroDataY1, 0xFA)
        .with(Register::GyroDataY0, 0xE2);
    let mut imu = Icm42688p::new(device);
    assert_eq!(imu.angular_velocity_milli_dps(), Ok((10_000, -10_000, 0)));
    let device = imu.release();
    assert_eq!(device.seen[0], Seen::Read(0x4F));
    assert_eq!(device.seen.len(), 7);
}

#[test]
fn temperature_centi_celsius_converts_the_raw_sample() {
    let device =
        MockDevice::new().with(Register::TempData1, 0x33).with(Register::TempData0, 0xC0);
    let mut imu = Icm42688p::new(device);
    assert_eq!(imu.temperature_centi_celsius(), Ok(12500));
    let mut imu = Icm42688p::new(MockDevice::new());
    assert_eq!(imu.temperature_centi_celsius(), Ok(2500));
    let mut imu = Icm42688p::new(MockDevice::new().failing_at(1));
    assert_eq!(imu.temperature_centi_celsius(), Err(Error::Spi));
}

/// A device behind an SPI bus: it answers a read frame with the register's
/// value in the second byte and stores what a write frame carries.
struct SpiDevice {
    registers: [u8; 128],
    frames: Vec<Vec<u8>>,
}

impl spi::ErrorType for SpiDevice {
    type Error = spi::ErrorKind;
}

impl SpiBus for SpiDevice {
    fn read(&mut self, _words: &mut [u8]) -> Result<(), Self::Error> {
        Err(spi::ErrorKind::Other)
    }

    fn write(&mut self, words: &[u8]) -> Result<(), Self::Error> {
        self.frames.push(words.to_vec());
        if words.len() != 2 || words[0] & 0x80 != 0 {
            return Err(spi::ErrorKind::Other);
        }
        self.registers[words[0] as usize] = words[1];
        Ok(())
    }

    fn transfer(&mut self, read: &mut [u8], write: &[u8]) -> Result<(), Self::Error> {
        self.frames.push(write.to_vec());
        if write.len() != 2 || read.len() != 2 || write[0] & 0x80 == 0 {
            return Err(spi::ErrorKind::Other);
        }
        read[0] = 0xEE;
        read[1] = self.registers[(write[0] & 0x7F) as usize];
        Ok(())
    }

    fn transfer_in_place(&mut self, _words: &mut [u8]) -> Result<(), Self::Error> {
        Err(spi::ErrorKind::Other)
    }

    fn flush(&mut self) -> Result<(), Self::Error> {
        Ok(())
    }
}

/// The SPI interface as the driver's transport.
struct OverSpi(SpiBusInterface<SpiDevice>);

impl Interface for OverSpi {
    fn read_register(&mut self, address: u8) -> Result<u8, Error> {
        assert!(address < 0x80);
        self.0.read_register(address)
    }

    fn write_register(&mut self, address: u8, buffer: u8) -> Result<(), Error> {
        assert!(address < 0x80);
        self.0.write_register(address, buffer)
    }
}

#[test]
fn driver_over_spi_initializes_and_reads_back_its_configuration() {
    let mut registers = [0u8; 128];
    registers[0x75] = 0x47;
    registers[0x1F] = 0x08;
    let bus = SpiDevice { registers, frames: Vec::new() };
    let mut imu = Icm42688p::new(OverSpi(SpiBusInterface::new(bus)));
    assert_eq!(imu.init(), Ok(()));
    assert_eq!(imu.power_mode(), Ok(PowerMode::SixAxisLowNoise));
    assert_eq!(imu.raw_acceleration(), Ok((2048, 0, 0)));
    let bus = imu.release().0.release();
    assert_eq!(bus.frames[0], vec![0xF5, 0x00]);
    assert_eq!(bus.frames[1], vec![0xD0, 0x00]);
    assert_eq!(bus.frames[2], vec![0x50, 0x00]);
    assert_eq!(bus.frames[10], vec![0x4E, 0x0F]);
    assert_eq!(bus.registers[0x4E], 0x0F);
}

#[test]
fn driver_over_spi_rejects_a_foreign_device() {
    let mut registers = [0u8; 128];
    registers[0x75] = 0x42;
    let bus = SpiDevice { registers, frames: Vec::new() };
    let mut imu = Icm42688p::new(OverSpi(SpiBusInterface::new(bus)));
    assert_eq!(imu.init(), Err(Error::BadDeviceId));
    let bus = imu.release().0.release();
    assert_eq!(bus.frames, vec![vec![0xF5, 0x00]]);
}
