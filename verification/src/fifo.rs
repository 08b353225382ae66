//! Packets of the on-device sample buffer.

use vstd::prelude::*;

verus! {

/// Header flag: FIFO is empty.
pub const FIFO_EMPTY: u8 = 0x80;

/// Header flag: packet is sized so that accel data have location in the packet.
pub const CONTAINS_ACCEL_DATA: u8 = 0x40;

/// Header flag: packet is sized so that gyro data have location in the packet.
pub const CONTAINS_GYRO_DATA: u8 = 0x20;

/// Header flag: packet contains ODR timestamp.
pub const CONTAINS_ODR_TIMESTAMP: u8 = 0x08;

/// Header flag: packet contains FSYNC time, and this packet is flagged as
/// first ODR after FSYNC.
pub const CONTAINS_FSYNC_TIME: u8 = 0x0C;

/// Header flag: the ODR for accel is different for this accel data packet
/// compared to the previous accel packet.
pub const ACCEL_ODR_DIFF: u8 = 0x02;

/// Header flag: the ODR for gyro is different for this gyro data packet
/// compared to the previous gyro packet.
pub const GYRO_ODR_DIFF: u8 = 0x01;

/// One packet of the sample buffer, already split into its parts.
#[derive(Clone, Copy, Debug)]
pub struct FifoPacket {
    /// The header byte, a set of the header flags.
    pub header: u8,
    pub accel_x: u16,
    pub accel_y: u16,
    pub accel_z: u16,
    pub gyro_x: u16,
    pub gyro_y: u16,
    pub gyro_z: u16,
    pub temperature: u16,
    pub timestamp: u16,
    pub ext_accel_x_gyro_x: u8,
    pub ext_accel_y_gyro_y: u8,
    pub ext_accel_z_gyro_z: u8,
}

impl FifoPacket {
    /// Whether the header says that the packet holds accelerometer data:
    /// bit 6 of the header is set.
    pub open spec fn has_accelerometer(&self) -> bool {
        self.header & CONTAINS_ACCEL_DATA != 0
    }

    /// Whether the header says that the packet holds gyroscope data: bit 5
    /// of the header is set.
    pub open spec fn has_gyroscope(&self) -> bool {
        self.header & CONTAINS_GYRO_DATA != 0
    }

    /// The accelerometer sample of the packet, where its header says that
    /// it holds one.
    pub fn accelerometer(&self) -> (sample: Option<(u16, u16, u16)>)
        ensures
            sample == if self.has_accelerometer() {
                Some((self.accel_x, self.accel_y, self.accel_z))
            } else {
                None
            },
    {
        if self.header & CONTAINS_ACCEL_DATA != 0 {
            Some((self.accel_x, self.accel_y, self.accel_z))
        } else {
            None
        }
    }

    /// The gyroscope sample of the packet, where its header says that it
    /// holds one.
    pub fn gyroscope(&self) -> (sample: Option<(u16, u16, u16)>)
        ensures
            sample == if self.has_gyroscope() {
                Some((self.gyro_x, self.gyro_y, self.gyro_z))
            } else {
                None
            },
    {
        if self.header & CONTAINS_GYRO_DATA != 0 {
            Some((self.gyro_x, self.gyro_y, self.gyro_z))
        } else {
            None
        }
    }
}

} // verus!
