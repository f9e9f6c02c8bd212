use vstd::prelude::*;

verus! {

/// Accelerometer full-scale range as the ACCEL_CONFIG byte (AFS_SEL in bits 4..3).
#[derive(Debug, Clone, Copy, PartialEq, Eq, Structural)]
pub enum AccelScaleRange {
    /// AFS_SEL = 0
    TwoG,
    /// AFS_SEL = 1
    FourG,
    /// AFS_SEL = 2
    EightG,
    /// AFS_SEL = 3
    SixteenG,
}

impl AccelScaleRange {
    /// The register bits this setting stands for.
    pub open spec fn value(self) -> u8 {
        match self {
            AccelScaleRange::TwoG => 0x00,
            AccelScaleRange::FourG => 0x08,
            AccelScaleRange::EightG => 0x10,
            AccelScaleRange::SixteenG => 0x18,
        }
    }

    /// The register bits this setting stands for.
    pub fn register_value(&self) -> (r: u8)
        ensures
            r == self.value(),
    {
        match self {
            AccelScaleRange::TwoG => 0x00,
            AccelScaleRange::FourG => 0x08,
            AccelScaleRange::EightG => 0x10,
            AccelScaleRange::SixteenG => 0x18,
        }
    }
}

/// Distinct settings stand for distinct register bits.
pub proof fn lemma_accel_scale_range_encoding(a: AccelScaleRange, b: AccelScaleRange)
    ensures
        a.value() == b.value() ==> a == b,
{
}

} // verus!
