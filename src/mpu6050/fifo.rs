use vstd::prelude::*;

verus! {

/// Which sensor measurements are loaded into the FIFO buffer, as a FIFO_EN mask.
#[derive(Debug, Clone, Copy, PartialEq, Eq, Structural)]
pub enum FIFOEnable {
    /// temperature and gyroscope
    All,
    /// temperature
    Temp,
    /// gyroscope
    Gyro,
    /// accelerometer
    Accel,
}

impl FIFOEnable {
    /// The register bits this setting stands for.
    pub open spec fn value(self) -> u8 {
        match self {
            FIFOEnable::All => 0xF0,
            FIFOEnable::Temp => 0x80,
            FIFOEnable::Gyro => 0x70,
            FIFOEnable::Accel => 0x10,
        }
    }

    /// The register bits this setting stands for.
    pub fn register_value(&self) -> (r: u8)
        ensures
            r == self.value(),
    {
        match self {
            FIFOEnable::All => 0xF0,
            FIFOEnable::Temp => 0x80,
            FIFOEnable::Gyro => 0x70,
            FIFOEnable::Accel => 0x10,
        }
    }
}

/// Distinct settings stand for distinct register bits.
pub proof fn lemma_fifo_enable_encoding(a: FIFOEnable, b: FIFOEnable)
    ensures
        a.value() == b.value() ==> a == b,
{
}

} // verus!
