//! Gyroscope full-scale range (GYRO_CONFIG, bits 4..3).
use vstd::prelude::*;

verus! {

/// Gyroscope full-scale range.
#[derive(Debug, Clone, Copy, PartialEq, Eq, Structural)]
pub enum GyroConfig {
    Dps250,
    Dps500,
    Dps1000,
    Dps2000,
}

impl GyroConfig {
    /// The two-bit range selector.
    pub open spec fn selector(self) -> u8 {
        match self {
            GyroConfig::Dps250 => 0,
            GyroConfig::Dps500 => 1,
            GyroConfig::Dps1000 => 2,
            GyroConfig::Dps2000 => 3,
        }
    }

    /// The full-scale range in degrees per second.
    pub open spec fn range_dps(self) -> u16 {
        match self {
            GyroConfig::Dps250 => 250,
            GyroConfig::Dps500 => 500,
            GyroConfig::Dps1000 => 1000,
            GyroConfig::Dps2000 => 2000,
        }
    }

    /// The register byte: the selector in bits 4..3.
    pub open spec fn value(self) -> u8 {
        (self.selector() * 8) as u8
    }

    /// Byte to write to GYRO_CONFIG.
    pub fn register_value(&self) -> (r: u8)
        ensures
            r == self.value(),
    {
        match self {
            GyroConfig::Dps250 => 0x00,
            GyroConfig::Dps500 => 0x08,
            GyroConfig::Dps1000 => 0x10,
            GyroConfig::Dps2000 => 0x18,
        }
    }

    /// Full-scale range in degrees per second.
    pub fn scale_range(&self) -> (r: u16)
        ensures
            r == self.range_dps(),
    {
        match self {
            GyroConfig::Dps250 => 250,
            GyroConfig::Dps500 => 500,
            GyroConfig::Dps1000 => 1000,
            GyroConfig::Dps2000 => 2000,
        }
    }
}

/// Each range has its own encoding, and it stays inside bits 4..3.
pub proof fn lemma_gyro_config_encoding(a: GyroConfig, b: GyroConfig)
    ensures
        a.value() == b.value() ==> a == b,
        a.value() & !0x18u8 == 0,
        a.value() == a.selector() << 3u8,
{
    let v = a.value();
    assert(v == 0 || v == 8 || v == 16 || v == 24);
    assert((v == 0 || v == 8 || v == 16 || v == 24) ==> v & !0x18u8 == 0) by (bit_vector);
    let sel = a.selector();
    assert(sel << 3u8 == sel * 8) by (bit_vector)
        requires
            sel < 4,
    ;
}

} // verus!
