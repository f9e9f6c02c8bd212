use vstd::prelude::*;

verus! {

/// Low-pass filter setting as the DLPF_CFG value (bits 2..0 of CONFIG).
#[derive(Debug, Clone, Copy, PartialEq, Eq, Structural)]
pub enum DlpFilter {
    /// 260 Hz
    Disabled,
    /// 188 Hz
    Hz188,
    /// 98 Hz
    Hz98,
    /// 42 Hz
    Hz42,
    /// 20 Hz
    Hz20,
    /// 10 Hz
    Hz10,
    /// 5 Hz
    Hz5,
}

impl DlpFilter {
    /// The register bits this setting stands for.
    pub open spec fn value(self) -> u8 {
        match self {
            DlpFilter::Disabled => 0x00,
            DlpFilter::Hz188 => 0x01,
            DlpFilter::Hz98 => 0x02,
            DlpFilter::Hz42 => 0x03,
            DlpFilter::Hz20 => 0x04,
            DlpFilter::Hz10 => 0x05,
            DlpFilter::Hz5 => 0x06,
        }
    }

    /// The register bits this setting stands for.
    pub fn register_value(&self) -> (r: u8)
        ensures
            r == self.value(),
    {
        match self {
            DlpFilter::Disabled => 0x00,
            DlpFilter::Hz188 => 0x01,
            DlpFilter::Hz98 => 0x02,
            DlpFilter::Hz42 => 0x03,
            DlpFilter::Hz20 => 0x04,
            DlpFilter::Hz10 => 0x05,
            DlpFilter::Hz5 => 0x06,
        }
    }
}

/// Distinct settings stand for distinct register bits.
pub proof fn lemma_dlp_filter_encoding(a: DlpFilter, b: DlpFilter)
    ensures
        a.value() == b.value() ==> a == b,
{
}

} // verus!
