//! Accelerometer full-scale range (ACCEL_CONFIG, bits 4..3).
use vstd::prelude::*;

verus! {

/// Accelerometer full-scale range.
#[derive(Debug, Clone, Copy, PartialEq, Eq, Structural)]
pub enum AccelConfig {
    Range2G,
    Range4G,
    Range8G,
    Range16G,
}

impl AccelConfig {
    /// The two-bit range selector.
    pub open spec fn selector(self) -> u8 {
        match self {
            AccelConfig::Range2G => 0,
            AccelConfig::Range4G => 1,
            AccelConfig::Range8G => 2,
            AccelConfig::Range16G => 3,
        }
    }

    /// The full-scale range in g.
    pub open spec fn range_g(self) -> u8 {
        match self {
            AccelConfig::Range2G => 2,
            AccelConfig::Range4G => 4,
            AccelConfig::Range8G => 8,
            AccelConfig::Range16G => 16,
        }
    }

    /// The register byte: the selector in bits 4..3.
    pub open spec fn value(self) -> u8 {
        (self.selector() * 8) as u8
    }

    /// Byte to write to ACCEL_CONFIG.
    pub fn register_value(&self) -> (r: u8)
        ensures
            r == self.value(),
    {
        match self {
            AccelConfig::Range2G => 0x00,
            AccelConfig::Range4G => 0x08,
            AccelConfig::Range8G => 0x10,
            AccelConfig::Range16G => 0x18,
        }
    }

    /// Full-scale range in g.
    pub fn scale_range(&self) -> (r: u8)
        ensures
            r == self.range_g(),
    {
        match self {
            AccelConfig::Range2G => 2,
            AccelConfig::Range4G => 4,
            AccelConfig::Range8G => 8,
            AccelConfig::Range16G => 16,
        }
    }
}

/// Each range has its own encoding, and it stays inside bits 4..3.
pub proof fn lemma_accel_config_encoding(a: AccelConfig, b: AccelConfig)
    ensures
        a.value() == b.value() ==> a == b,
        a.value() & !0x18u8 == 0,
        a.value() == a.selector() << 3u8,
{
    let v = a.value();
    assert(v == 0 || v == 8 || v == 16 || v == 24);
    assert((v == 0 || v == 8 || v == 16 || v == 24) ==> v & !0x18u8 == 0) by (bit_vector);
    let sel = a.selector();
    assert(sel << 3u8 == sel * 8) by (bit_vector)
        requires
            sel < 4,
    ;
}

} // verus!
