//! The CONFIG register: external frame synchronisation (bits 5..3) and the
//! digital low-pass filter (bits 2..0).
use vstd::prelude::*;

verus! {

/// External frame synchronisation (EXT_SYNC_SET): which output register's
/// least significant bit latches the FSYNC pin.
#[derive(Debug, Clone, Copy, PartialEq, Eq, Structural)]
pub enum ExtSync {
    /// Input disabled
    Disabled,
    /// TEMP_OUT_L[0]
    TempOutL,
    /// GYRO_XOUT_L[0]
    GyroXOutL,
    /// GYRO_YOUT_L[0]
    GyroYOutL,
    /// GYRO_ZOUT_L[0]
    GyroZOutL,
    /// ACCEL_XOUT_L[0]
    AccelXOutL,
    /// ACCEL_YOUT_L[0]
    AccelYOutL,
    /// ACCEL_ZOUT_L[0]
    AccelZOutL,
}

impl ExtSync {
    /// The three-bit EXT_SYNC_SET value.
    pub open spec fn value(self) -> u8 {
        match self {
            ExtSync::Disabled => 0,
            ExtSync::TempOutL => 1,
            ExtSync::GyroXOutL => 2,
            ExtSync::GyroYOutL => 3,
            ExtSync::GyroZOutL => 4,
            ExtSync::AccelXOutL => 5,
            ExtSync::AccelYOutL => 6,
            ExtSync::AccelZOutL => 7,
        }
    }

    /// The EXT_SYNC_SET value, not yet shifted into place.
    pub fn get_register_value(&self) -> (r: u8)
        ensures
            r == self.value(),
    {
        match self {
            ExtSync::Disabled => 0,
            ExtSync::TempOutL => 1,
            ExtSync::GyroXOutL => 2,
            ExtSync::GyroYOutL => 3,
            ExtSync::GyroZOutL => 4,
            ExtSync::AccelXOutL => 5,
            ExtSync::AccelYOutL => 6,
            ExtSync::AccelZOutL => 7,
        }
    }
}

/// Digital low-pass filter setting (DLPF_CFG), shared by both sensors.
#[derive(Debug, Clone, Copy, PartialEq, Eq, Structural)]
pub enum DlpfConfig {
    /// Accelerometer 260 Hz, gyroscope 256 Hz.
    Dlpf0,
    /// Accelerometer 184 Hz, gyroscope 188 Hz.
    Dlpf1,
    /// Accelerometer 94 Hz, gyroscope 98 Hz.
    Dlpf2,
    /// Accelerometer 44 Hz, gyroscope 42 Hz.
    Dlpf3,
    /// Accelerometer 21 Hz, gyroscope 20 Hz.
    Dlpf4,
    /// Accelerometer 10 Hz, gyroscope 10 Hz.
    Dlpf5,
    /// Accelerometer 5 Hz, gyroscope 5 Hz.
    Dlpf6,
}

impl DlpfConfig {
    /// The three-bit DLPF_CFG value.
    pub open spec fn value(self) -> u8 {
        match self {
            DlpfConfig::Dlpf0 => 0,
            DlpfConfig::Dlpf1 => 1,
            DlpfConfig::Dlpf2 => 2,
            DlpfConfig::Dlpf3 => 3,
            DlpfConfig::Dlpf4 => 4,
            DlpfConfig::Dlpf5 => 5,
            DlpfConfig::Dlpf6 => 6,
        }
    }

    /// Accelerometer bandwidth in Hz, from the datasheet's table.
    pub open spec fn accel_bandwidth(self) -> u16 {
        match self {
            DlpfConfig::Dlpf0 => 260,
            DlpfConfig::Dlpf1 => 184,
            DlpfConfig::Dlpf2 => 94,
            DlpfConfig::Dlpf3 => 44,
            DlpfConfig::Dlpf4 => 21,
            DlpfConfig::Dlpf5 => 10,
            DlpfConfig::Dlpf6 => 5,
        }
    }

    /// Gyroscope bandwidth in Hz, from the datasheet's table.
    pub open spec fn gyro_bandwidth(self) -> u16 {
        match self {
            DlpfConfig::Dlpf0 => 256,
            DlpfConfig::Dlpf1 => 188,
            DlpfConfig::Dlpf2 => 98,
            DlpfConfig::Dlpf3 => 42,
            DlpfConfig::Dlpf4 => 20,
            DlpfConfig::Dlpf5 => 10,
            DlpfConfig::Dlpf6 => 5,
        }
    }

    /// Accelerometer bandwidth in Hz.
    pub fn get_accel_bandwidth_hz(&self) -> (r: u16)
        ensures
            r == self.accel_bandwidth(),
    {
        match self {
            DlpfConfig::Dlpf0 => 260,
            DlpfConfig::Dlpf1 => 184,
            DlpfConfig::Dlpf2 => 94,
            DlpfConfig::Dlpf3 => 44,
            DlpfConfig::Dlpf4 => 21,
            DlpfConfig::Dlpf5 => 10,
            DlpfConfig::Dlpf6 => 5,
        }
    }

    /// Gyroscope bandwidth in Hz.
    pub fn get_gyro_bandwidth_hz(&self) -> (r: u16)
        ensures
            r == self.gyro_bandwidth(),
    {
        match self {
            DlpfConfig::Dlpf0 => 256,
            DlpfConfig::Dlpf1 => 188,
            DlpfConfig::Dlpf2 => 98,
            DlpfConfig::Dlpf3 => 42,
            DlpfConfig::Dlpf4 => 20,
            DlpfConfig::Dlpf5 => 10,
            DlpfConfig::Dlpf6 => 5,
        }
    }

    /// The DLPF_CFG value.
    pub fn register_value(&self) -> (r: u8)
        ensures
            r == self.value(),
    {
        match self {
            DlpfConfig::Dlpf0 => 0,
            DlpfConfig::Dlpf1 => 1,
            DlpfConfig::Dlpf2 => 2,
            DlpfConfig::Dlpf3 => 3,
            DlpfConfig::Dlpf4 => 4,
            DlpfConfig::Dlpf5 => 5,
            DlpfConfig::Dlpf6 => 6,
        }
    }
}

/// The CONFIG byte: the sync selector in bits 5..3, the filter in bits 2..0.
pub open spec fn config_byte(dlpf: DlpfConfig, sync: ExtSync) -> u8 {
    (sync.value() << 3u8) | dlpf.value()
}

/// Each sync source has its own selector, and it fits in three bits.
pub proof fn lemma_ext_sync_encoding(a: ExtSync, b: ExtSync)
    ensures
        a.value() == b.value() ==> a == b,
        a.value() < 8,
{
}

/// Each filter setting has its own selector, and it fits in three bits.
pub proof fn lemma_dlpf_config_encoding(a: DlpfConfig, b: DlpfConfig)
    ensures
        a.value() == b.value() ==> a == b,
        a.value() < 8,
{
}

/// The CONFIG byte holds both settings side by side: each can be read back
/// from it unchanged, so distinct pairs give distinct bytes.
pub proof fn lemma_config_byte_packing(dlpf: DlpfConfig, sync: ExtSync)
    ensures
        config_byte(dlpf, sync) & 0x07u8 == dlpf.value(),
        (config_byte(dlpf, sync) >> 3u8) & 0x07u8 == sync.value(),
        config_byte(dlpf, sync) & 0xC0u8 == 0,
        config_byte(dlpf, sync) == sync.value() * 8 + dlpf.value(),
{
    let s = sync.value();
    let d = dlpf.value();
    assert(((s << 3u8) | d) & 0x07u8 == d && ((((s << 3u8) | d) >> 3u8) & 0x07u8) == s
        && ((s << 3u8) | d) & 0xC0u8 == 0 && ((s << 3u8) | d) == s * 8 + d) by (bit_vector)
        requires
            s < 8,
            d < 8,
    ;
}

} // verus!
