//! Clock source selector (PWR_MGMT_1, bits 2..0).
use vstd::prelude::*;

verus! {

/// Clock source of the device.
#[derive(Debug, Clone, Copy, PartialEq, Eq, Structural)]
pub enum ClockSource {
    Internal8MHz,
    PllXGyro,
    PllYGyro,
    PllZGyro,
    PllExt32k,
    PllExt19MHz,
    Stop,
}

impl ClockSource {
    /// The three-bit CLKSEL value.
    pub open spec fn value(self) -> u8 {
        match self {
            ClockSource::Internal8MHz => 0,
            ClockSource::PllXGyro => 1,
            ClockSource::PllYGyro => 2,
            ClockSource::PllZGyro => 3,
            ClockSource::PllExt32k => 4,
            ClockSource::PllExt19MHz => 5,
            ClockSource::Stop => 7,
        }
    }

    /// The CLKSEL value that selects this source.
    pub fn register_value(&self) -> (r: u8)
        ensures
            r == self.value(),
    {
        match self {
            ClockSource::Internal8MHz => 0,
            ClockSource::PllXGyro => 1,
            ClockSource::PllYGyro => 2,
            ClockSource::PllZGyro => 3,
            ClockSource::PllExt32k => 4,
            ClockSource::PllExt19MHz => 5,
            ClockSource::Stop => 7,
        }
    }
}

/// Each source has its own selector, and it fits in three bits.
pub proof fn lemma_clock_source_encoding(a: ClockSource, b: ClockSource)
    ensures
        a.value() == b.value() ==> a == b,
        a.value() < 8,
{
}

} // verus!
