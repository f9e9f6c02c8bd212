use vstd::prelude::*;

verus! {

/// Gyroscope full-scale range as the GYRO_CONFIG byte (FS_SEL in bits 4..3).
#[derive(Debug, Clone, Copy, PartialEq, Eq, Structural)]
pub enum GyroScaleRange {
    /// FS_SEL = 0
    Degree250,
    /// FS_SEL = 1
    Degree500,
    /// FS_SEL = 2
    Degree1000,
    /// FS_SEL = 3
    Degree2000,
}

impl GyroScaleRange {
    /// The register bits this setting stands for.
    pub open spec fn value(self) -> u8 {
        match self {
            GyroScaleRange::Degree250 => 0x00,
            GyroScaleRange::Degree500 => 0x08,
            GyroScaleRange::Degree1000 => 0x10,
            GyroScaleRange::Degree2000 => 0x18,
        }
    }

    /// The register bits this setting stands for.
    pub fn register_value(&self) -> (r: u8)
        ensures
            r == self.value(),
    {
        match self {
            GyroScaleRange::Degree250 => 0x00,
            GyroScaleRange::Degree500 => 0x08,
            GyroScaleRange::Degree1000 => 0x10,
            GyroScaleRange::Degree2000 => 0x18,
        }
    }
}

/// Distinct settings stand for distinct register bits.
pub proof fn lemma_gyro_scale_range_encoding(a: GyroScaleRange, b: GyroScaleRange)
    ensures
        a.value() == b.value() ==> a == b,
{
}

} // verus!
