use vstd::prelude::*;

verus! {

/// FSYNC latch source as the EXT_SYNC_SET value (bits 5..3 of CONFIG, unshifted).
#[derive(Debug, Clone, Copy, PartialEq, Eq, Structural)]
pub enum ExtSync {
    /// input disabled
    Disabled,
    /// TEMP_OUT_L[0]
    TempLsb,
    /// GYRO_XOUT_L[0]
    GyroXLSB,
    /// GYRO_YOUT_L[0]
    GyroYLSB,
    /// GYRO_ZOUT_L[0]
    GyroZLSB,
    /// ACCEL_XOUT_L[0]
    AccelXLSB,
    /// ACCEL_YOUT_L[0]
    AccelYLSB,
    /// ACCEL_ZOUT_L[0]
    AccelZLSB,
}

impl ExtSync {
    /// The register bits this setting stands for.
    pub open spec fn value(self) -> u8 {
        match self {
            ExtSync::Disabled => 0x00,
            ExtSync::TempLsb => 0x01,
            ExtSync::GyroXLSB => 0x02,
            ExtSync::GyroYLSB => 0x03,
            ExtSync::GyroZLSB => 0x04,
            ExtSync::AccelXLSB => 0x05,
            ExtSync::AccelYLSB => 0x06,
            ExtSync::AccelZLSB => 0x07,
        }
    }

    /// The register bits this setting stands for.
    pub fn register_value(&self) -> (r: u8)
        ensures
            r == self.value(),
    {
        match self {
            ExtSync::Disabled => 0x00,
            ExtSync::TempLsb => 0x01,
            ExtSync::GyroXLSB => 0x02,
            ExtSync::GyroYLSB => 0x03,
            ExtSync::GyroZLSB => 0x04,
            ExtSync::AccelXLSB => 0x05,
            ExtSync::AccelYLSB => 0x06,
            ExtSync::AccelZLSB => 0x07,
        }
    }
}

/// Distinct settings stand for distinct register bits.
pub proof fn lemma_ext_sync_encoding(a: ExtSync, b: ExtSync)
    ensures
        a.value() == b.value() ==> a == b,
{
}

} // verus!
