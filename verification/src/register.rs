use vstd::prelude::*;

verus! {

/// Register bank selection.
///
/// The device multiplexes its registers onto a 7-bit address space through
/// five banks, exactly one of which is selected at any time.
#[derive(Copy, Clone, Eq, PartialEq, Debug, Structural)]
pub enum BankSelection {
    Bank0,
    Bank1,
    Bank2,
    Bank3,
    Bank4,
}

impl BankSelection {
    /// The bank that a hardware code names, or the error for a code that names none.
    pub open spec fn decode(code: u8) -> Result<BankSelection, ()> {
        match code {
            0 => Ok(BankSelection::Bank0),
            1 => Ok(BankSelection::Bank1),
            2 => Ok(BankSelection::Bank2),
            3 => Ok(BankSelection::Bank3),
            4 => Ok(BankSelection::Bank4),
            _ => Err(()),
        }
    }

    /// The hardware code of this bank, as written to the bank-select register.
    pub open spec fn spec_code(self) -> u8 {
        match self {
            BankSelection::Bank0 => 0,
            BankSelection::Bank1 => 1,
            BankSelection::Bank2 => 2,
            BankSelection::Bank3 => 3,
            BankSelection::Bank4 => 4,
        }
    }

    /// The hardware code of this bank.
    #[verifier::when_used_as_spec(spec_code)]
    pub fn code(self) -> (code: u8)
        ensures
            code == self.spec_code(),
            code <= 4,
            Self::decode(code) == Ok::<BankSelection, ()>(self),
    {
        match self {
            BankSelection::Bank0 => 0,
            BankSelection::Bank1 => 1,
            BankSelection::Bank2 => 2,
            BankSelection::Bank3 => 3,
            BankSelection::Bank4 => 4,
        }
    }
}

impl TryFrom<u8> for BankSelection {
    type Error = ();

    /// Decodes a bank code; any code above 4 names no bank.
    fn try_from(value: u8) -> (bank: Result<Self, Self::Error>)
        ensures
            bank == Self::decode(value),
    {
        match value {
            0 => Ok(BankSelection::Bank0),
            1 => Ok(BankSelection::Bank1),
            2 => Ok(BankSelection::Bank2),
            3 => Ok(BankSelection::Bank3),
            4 => Ok(BankSelection::Bank4),
            _ => Err(()),
        }
    }
}

impl vstd::std_specs::convert::TryFromSpecImpl<u8> for BankSelection {
    open spec fn obeys_try_from_spec() -> bool {
        true
    }

    open spec fn try_from_spec(value: u8) -> Result<Self, Self::Error> {
        Self::decode(value)
    }
}

/// The catalog of addressable registers.
#[derive(Copy, Clone, Eq, PartialEq, Debug, Structural)]
pub enum Register {
    /// Soft reset and SPI mode.
    DeviceConfig,
    /// Interrupt pin configuration.
    IntConfig,
    /// FIFO mode.
    FifoConfig,
    /// Temperature, upper byte.
    TempData1,
    /// Temperature, lower byte.
    TempData0,
    /// Acceleration along X, upper byte.
    AccelDataX1,
    /// Acceleration along X, lower byte.
    AccelDataX0,
    /// Acceleration along Y, upper byte.
    AccelDataY1,
    /// Acceleration along Y, lower byte.
    AccelDataY0,
    /// Acceleration along Z, upper byte.
    AccelDataZ1,
    /// Acceleration along Z, lower byte.
    AccelDataZ0,
    /// Angular rate about X, upper byte.
    GyroDataX1,
    /// Angular rate about X, lower byte.
    GyroDataX0,
    /// Angular rate about Y, upper byte.
    GyroDataY1,
    /// Angular rate about Y, lower byte.
    GyroDataY0,
    /// Angular rate about Z, upper byte.
    GyroDataZ1,
    /// Angular rate about Z, lower byte.
    GyroDataZ0,
    /// Interrupt status.
    IntStatus,
    /// FIFO fill level, upper byte.
    FifoCountH,
    /// FIFO fill level, lower byte.
    FifoCountL,
    /// FIFO read port.
    FifoData,
    /// Signal path reset.
    SignalPathReset,
    /// Interface configuration 0.
    IntfConfig0,
    /// Interface configuration 1.
    IntfConfig1,
    /// Power management: gyroscope and accelerometer modes.
    PwrMgmt0,
    /// Gyroscope full-scale range and output data rate.
    GyroConfig0,
    /// Accelerometer full-scale range and output data rate.
    AccelConfig0,
    /// Gyroscope filter configuration.
    GyroConfig1,
    /// Gyroscope and accelerometer filter bandwidth.
    GyroAccelConfig0,
    /// Accelerometer filter configuration.
    AccelConfig1,
    /// Timestamp configuration.
    TmstConfig,
    /// FIFO contents.
    FifoConfig1,
    /// FIFO watermark, lower byte.
    FifoConfig2,
    /// FIFO watermark, upper bits.
    FifoConfig3,
    /// Interrupt clearing.
    IntConfig0,
    /// Interrupt pulse configuration.
    IntConfig1,
    /// Interrupt routing to INT1.
    IntSource0,
    /// Self test.
    SelfTestConfig,
    /// Device identity.
    WhoAmI,
    /// Bank selection; present at this address in every bank.
    RegBankSel,
}

impl Register {
    /// The 7-bit address of the register within its bank.
    pub open spec fn spec_address(&self) -> u8 {
        match self {
            Register::DeviceConfig => 0x11,
            Register::IntConfig => 0x14,
            Register::FifoConfig => 0x16,
            Register::TempData1 => 0x1D,
            Register::TempData0 => 0x1E,
            Register::AccelDataX1 => 0x1F,
            Register::AccelDataX0 => 0x20,
            Register::AccelDataY1 => 0x21,
            Register::AccelDataY0 => 0x22,
            Register::AccelDataZ1 => 0x23,
            Register::AccelDataZ0 => 0x24,
            Register::GyroDataX1 => 0x25,
            Register::GyroDataX0 => 0x26,
            Register::GyroDataY1 => 0x27,
            Register::GyroDataY0 => 0x28,
            Register::GyroDataZ1 => 0x29,
            Register::GyroDataZ0 => 0x2A,
            Register::IntStatus => 0x2D,
            Register::FifoCountH => 0x2E,
            Register::FifoCountL => 0x2F,
            Register::FifoData => 0x30,
            Register::SignalPathReset => 0x4B,
            Register::IntfConfig0 => 0x4C,
            Register::IntfConfig1 => 0x4D,
            Register::PwrMgmt0 => 0x4E,
            Register::GyroConfig0 => 0x4F,
            Register::AccelConfig0 => 0x50,
            Register::GyroConfig1 => 0x51,
            Register::GyroAccelConfig0 => 0x52,
            Register::AccelConfig1 => 0x53,
            Register::TmstConfig => 0x54,
            Register::FifoConfig1 => 0x5F,
            Register::FifoConfig2 => 0x60,
            Register::FifoConfig3 => 0x61,
            Register::IntConfig0 => 0x63,
            Register::IntConfig1 => 0x64,
            Register::IntSource0 => 0x65,
            Register::SelfTestConfig => 0x70,
            Register::WhoAmI => 0x75,
            Register::RegBankSel => 0x76,
        }
    }

    /// The bank that has to be selected while the register is accessed.
    pub open spec fn spec_bank_selection(&self) -> BankSelection {
        BankSelection::Bank0
    }

    /// Whether the device lets the host read the register.
    pub open spec fn spec_is_readable(&self) -> bool {
        *self != Register::SignalPathReset
    }

    /// Whether the device lets the host write the register.
    pub open spec fn spec_is_writable(&self) -> bool {
        match self {
            Register::DeviceConfig => true,
            Register::IntConfig => true,
            Register::FifoConfig => true,
            Register::TempData1 => false,
            Register::TempData0 => false,
            Register::AccelDataX1 => false,
            Register::AccelDataX0 => false,
            Register::AccelDataY1 => false,
            Register::AccelDataY0 => false,
            Register::AccelDataZ1 => false,
            Register::AccelDataZ0 => false,
            Register::GyroDataX1 => false,
            Register::GyroDataX0 => false,
            Register::GyroDataY1 => false,
            Register::GyroDataY0 => false,
            Register::GyroDataZ1 => false,
            Register::GyroDataZ0 => false,
            Register::IntStatus => false,
            Register::FifoCountH => false,
            Register::FifoCountL => false,
            Register::FifoData => false,
            Register::SignalPathReset => true,
            Register::IntfConfig0 => true,
            Register::IntfConfig1 => true,
            Register::PwrMgmt0 => true,
            Register::GyroConfig0 => true,
            Register::AccelConfig0 => true,
            Register::GyroConfig1 => true,
            Register::GyroAccelConfig0 => true,
            Register::AccelConfig1 => true,
            Register::TmstConfig => true,
            Register::FifoConfig1 => true,
            Register::FifoConfig2 => true,
            Register::FifoConfig3 => true,
            Register::IntConfig0 => true,
            Register::IntConfig1 => true,
            Register::IntSource0 => true,
            Register::SelfTestConfig => true,
            Register::WhoAmI => false,
            Register::RegBankSel => true,
        }
    }

    /// The name of the register as the device's documentation writes it.
    pub open spec fn spec_name(&self) -> Seq<char> {
        match self {
            Register::DeviceConfig => "DEVICE_CONFIG"@,
            Register::IntConfig => "INT_CONFIG"@,
            Register::FifoConfig => "FIFO_CONFIG"@,
            Register::TempData1 => "TEMP_DATA1"@,
            Register::TempData0 => "TEMP_DATA0"@,
            Register::AccelDataX1 => "ACCEL_DATA_X1"@,
            Register::AccelDataX0 => "ACCEL_DATA_X0"@,
            Register::AccelDataY1 => "ACCEL_DATA_Y1"@,
            Register::AccelDataY0 => "ACCEL_DATA_Y0"@,
            Register::AccelDataZ1 => "ACCEL_DATA_Z1"@,
            Register::AccelDataZ0 => "ACCEL_DATA_Z0"@,
            Register::GyroDataX1 => "GYRO_DATA_X1"@,
            Register::GyroDataX0 => "GYRO_DATA_X0"@,
            Register::GyroDataY1 => "GYRO_DATA_Y1"@,
            Register::GyroDataY0 => "GYRO_DATA_Y0"@,
            Register::GyroDataZ1 => "GYRO_DATA_Z1"@,
            Register::GyroDataZ0 => "GYRO_DATA_Z0"@,
            Register::IntStatus => "INT_STATUS"@,
            Register::FifoCountH => "FIFO_COUNTH"@,
            Register::FifoCountL => "FIFO_COUNTL"@,
            Register::FifoData => "FIFO_DATA"@,
            Register::SignalPathReset => "SIGNAL_PATH_RESET"@,
            Register::IntfConfig0 => "INTF_CONFIG0"@,
            Register::IntfConfig1 => "INTF_CONFIG1"@,
            Register::PwrMgmt0 => "PWR_MGMT0"@,
            Register::GyroConfig0 => "GYRO_CONFIG0"@,
            Register::AccelConfig0 => "ACCEL_CONFIG0"@,
            Register::GyroConfig1 => "GYRO_CONFIG1"@,
            Register::GyroAccelConfig0 => "GYRO_ACCEL_CONFIG0"@,
            Register::AccelConfig1 => "ACCEL_CONFIG1"@,
            Register::TmstConfig => "TMST_CONFIG"@,
            Register::FifoConfig1 => "FIFO_CONFIG1"@,
            Register::FifoConfig2 => "FIFO_CONFIG2"@,
            Register::FifoConfig3 => "FIFO_CONFIG3"@,
            Register::IntConfig0 => "INT_CONFIG0"@,
            Register::IntConfig1 => "INT_CONFIG1"@,
            Register::IntSource0 => "INT_SOURCE0"@,
            Register::SelfTestConfig => "SELF_TEST_CONFIG"@,
            Register::WhoAmI => "WHO_AM_I"@,
            Register::RegBankSel => "REG_BANK_SEL"@,
        }
    }

    /// The 7-bit address of the register within its bank.
    #[verifier::when_used_as_spec(spec_address)]
    pub fn address(&self) -> (address: u8)
        ensures
            address == self.spec_address(),
            address < 0x80,
    {
        match *self {
            Register::DeviceConfig => 0x11,
            Register::IntConfig => 0x14,
            Register::FifoConfig => 0x16,
            Register::TempData1 => 0x1D,
            Register::TempData0 => 0x1E,
            Register::AccelDataX1 => 0x1F,
            Register::AccelDataX0 => 0x20,
            Register::AccelDataY1 => 0x21,
            Register::AccelDataY0 => 0x22,
            Register::AccelDataZ1 => 0x23,
            Register::AccelDataZ0 => 0x24,
            Register::GyroDataX1 => 0x25,
            Register::GyroDataX0 => 0x26,
            Register::GyroDataY1 => 0x27,
            Register::GyroDataY0 => 0x28,
            Register::GyroDataZ1 => 0x29,
            Register::GyroDataZ0 => 0x2A,
            Register::IntStatus => 0x2D,
            Register::FifoCountH => 0x2E,
            Register::FifoCountL => 0x2F,
            Register::FifoData => 0x30,
            Register::SignalPathReset => 0x4B,
            Register::IntfConfig0 => 0x4C,
            Register::IntfConfig1 => 0x4D,
            Register::PwrMgmt0 => 0x4E,
            Register::GyroConfig0 => 0x4F,
            Register::AccelConfig0 => 0x50,
            Register::GyroConfig1 => 0x51,
            Register::GyroAccelConfig0 => 0x52,
            Register::AccelConfig1 => 0x53,
            Register::TmstConfig => 0x54,
            Register::FifoConfig1 => 0x5F,
            Register::FifoConfig2 => 0x60,
            Register::FifoConfig3 => 0x61,
            Register::IntConfig0 => 0x63,
            Register::IntConfig1 => 0x64,
            Register::IntSource0 => 0x65,
            Register::SelfTestConfig => 0x70,
            Register::WhoAmI => 0x75,
            Register::RegBankSel => 0x76,
        }
    }

    /// The bank that has to be selected while the register is accessed.
    #[verifier::when_used_as_spec(spec_bank_selection)]
    pub fn bank_selection(&self) -> (bank: BankSelection)
        ensures
            bank == self.spec_bank_selection(),
    {
        match *self {
            Register::DeviceConfig => BankSelection::Bank0,
            Register::IntConfig => BankSelection::Bank0,
            Register::FifoConfig => BankSelection::Bank0,
            Register::TempData1 => BankSelection::Bank0,
            Register::TempData0 => BankSelection::Bank0,
            Register::AccelDataX1 => BankSelection::Bank0,
            Register::AccelDataX0 => BankSelection::Bank0,
            Register::AccelDataY1 => BankSelection::Bank0,
            Register::AccelDataY0 => BankSelection::Bank0,
            Register::AccelDataZ1 => BankSelection::Bank0,
            Register::AccelDataZ0 => BankSelection::Bank0,
            Register::GyroDataX1 => BankSelection::Bank0,
            Register::GyroDataX0 => BankSelection::Bank0,
            Register::GyroDataY1 => BankSelection::Bank0,
            Register::GyroDataY0 => BankSelection::Bank0,
            Register::GyroDataZ1 => BankSelection::Bank0,
            Register::GyroDataZ0 => BankSelection::Bank0,
            Register::IntStatus => BankSelection::Bank0,
            Register::FifoCountH => BankSelection::Bank0,
            Register::FifoCountL => BankSelection::Bank0,
            Register::FifoData => BankSelection::Bank0,
            Register::SignalPathReset => BankSelection::Bank0,
            Register::IntfConfig0 => BankSelection::Bank0,
            Register::IntfConfig1 => BankSelection::Bank0,
            Register::PwrMgmt0 => BankSelection::Bank0,
            Register::GyroConfig0 => BankSelection::Bank0,
            Register::AccelConfig0 => BankSelection::Bank0,
            Register::GyroConfig1 => BankSelection::Bank0,
            Register::GyroAccelConfig0 => BankSelection::Bank0,
            Register::AccelConfig1 => BankSelection::Bank0,
            Register::TmstConfig => BankSelection::Bank0,
            Register::FifoConfig1 => BankSelection::Bank0,
            Register::FifoConfig2 => BankSelection::Bank0,
            Register::FifoConfig3 => BankSelection::Bank0,
            Register::IntConfig0 => BankSelection::Bank0,
            Register::IntConfig1 => BankSelection::Bank0,
            Register::IntSource0 => BankSelection::Bank0,
            Register::SelfTestConfig => BankSelection::Bank0,
            Register::WhoAmI => BankSelection::Bank0,
            Register::RegBankSel => BankSelection::Bank0,
        }
    }

    /// Whether the device lets the host read the register.
    #[verifier::when_used_as_spec(spec_is_readable)]
    pub fn is_readable(&self) -> (readable: bool)
        ensures
            readable == self.spec_is_readable(),
    {
        match *self {
            Register::SignalPathReset => false,
            _ => true,
        }
    }

    /// Whether the device lets the host write the register.
    #[verifier::when_used_as_spec(spec_is_writable)]
    pub fn is_writable(&self) -> (writable: bool)
        ensures
            writable == self.spec_is_writable(),
    {
        match *self {
            Register::DeviceConfig => true,
            Register::IntConfig => true,
            Register::FifoConfig => true,
            Register::TempData1 => false,
            Register::TempData0 => false,
            Register::AccelDataX1 => false,
            Register::AccelDataX0 => false,
            Register::AccelDataY1 => false,
            Register::AccelDataY0 => false,
            Register::AccelDataZ1 => false,
            Register::AccelDataZ0 => false,
            Register::GyroDataX1 => false,
            Register::GyroDataX0 => false,
            Register::GyroDataY1 => false,
            Register::GyroDataY0 => false,
            Register::GyroDataZ1 => false,
            Register::GyroDataZ0 => false,
            Register::IntStatus => false,
            Register::FifoCountH => false,
            Register::FifoCountL => false,
            Register::FifoData => false,
            Register::SignalPathReset => true,
            Register::IntfConfig0 => true,
            Register::IntfConfig1 => true,
            Register::PwrMgmt0 => true,
            Register::GyroConfig0 => true,
            Register::AccelConfig0 => true,
            Register::GyroConfig1 => true,
            Register::GyroAccelConfig0 => true,
            Register::AccelConfig1 => true,
            Register::TmstConfig => true,
            Register::FifoConfig1 => true,
            Register::FifoConfig2 => true,
            Register::FifoConfig3 => true,
            Register::IntConfig0 => true,
            Register::IntConfig1 => true,
            Register::IntSource0 => true,
            Register::SelfTestConfig => true,
            Register::WhoAmI => false,
            Register::RegBankSel => true,
        }
    }

    /// The name of the register as the device's documentation writes it.
    pub fn name(&self) -> (name: &'static str)
        ensures
            name@ == self.spec_name(),
    {
        match *self {
            Register::DeviceConfig => "DEVICE_CONFIG",
            Register::IntConfig => "INT_CONFIG",
            Register::FifoConfig => "FIFO_CONFIG",
            Register::TempData1 => "TEMP_DATA1",
            Register::TempData0 => "TEMP_DATA0",
            Register::AccelDataX1 => "ACCEL_DATA_X1",
            Register::AccelDataX0 => "ACCEL_DATA_X0",
            Register::AccelDataY1 => "ACCEL_DATA_Y1",
            Register::AccelDataY0 => "ACCEL_DATA_Y0",
            Register::AccelDataZ1 => "ACCEL_DATA_Z1",
            Register::AccelDataZ0 => "ACCEL_DATA_Z0",
            Register::GyroDataX1 => "GYRO_DATA_X1",
            Register::GyroDataX0 => "GYRO_DATA_X0",
            Register::GyroDataY1 => "GYRO_DATA_Y1",
            Register::GyroDataY0 => "GYRO_DATA_Y0",
            Register::GyroDataZ1 => "GYRO_DATA_Z1",
            Register::GyroDataZ0 => "GYRO_DATA_Z0",
            Register::IntStatus => "INT_STATUS",
            Register::FifoCountH => "FIFO_COUNTH",
            Register::FifoCountL => "FIFO_COUNTL",
            Register::FifoData => "FIFO_DATA",
            Register::SignalPathReset => "SIGNAL_PATH_RESET",
            Register::IntfConfig0 => "INTF_CONFIG0",
            Register::IntfConfig1 => "INTF_CONFIG1",
            Register::PwrMgmt0 => "PWR_MGMT0",
            Register::GyroConfig0 => "GYRO_CONFIG0",
            Register::AccelConfig0 => "ACCEL_CONFIG0",
            Register::GyroConfig1 => "GYRO_CONFIG1",
            Register::GyroAccelConfig0 => "GYRO_ACCEL_CONFIG0",
            Register::AccelConfig1 => "ACCEL_CONFIG1",
            Register::TmstConfig => "TMST_CONFIG",
            Register::FifoConfig1 => "FIFO_CONFIG1",
            Register::FifoConfig2 => "FIFO_CONFIG2",
            Register::FifoConfig3 => "FIFO_CONFIG3",
            Register::IntConfig0 => "INT_CONFIG0",
            Register::IntConfig1 => "INT_CONFIG1",
            Register::IntSource0 => "INT_SOURCE0",
            Register::SelfTestConfig => "SELF_TEST_CONFIG",
            Register::WhoAmI => "WHO_AM_I",
            Register::RegBankSel => "REG_BANK_SEL",
        }
    }

    /// Two registers of one bank never share an address, and every register
    /// can be read or written.
    pub proof fn lemma_catalog_is_sound(a: Register, b: Register)
        ensures
            a.spec_address() < 0x80,
            a.spec_is_readable() || a.spec_is_writable(),
            a.spec_bank_selection() == b.spec_bank_selection() && a.spec_address()
                == b.spec_address() ==> a == b,
    {
    }
}

} // verus!
