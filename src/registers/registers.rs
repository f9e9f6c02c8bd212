//! The register map: every addressable register and its one-byte address.
use vstd::prelude::*;

verus! {

/// Every register the driver addresses.
#[derive(Debug, Clone, Copy, PartialEq, Eq, Structural)]
pub enum Registers {
    SmprtDiv,
    Config,
    GyroConfig,
    AccelConfig,
    FifoEn,
    InterruptPinCfg,
    InterruptEnable,
    InterruptStatus,
    UserCtrl,
    FifoCountH,
    FifoCountL,
    FifoRW,
    WhoAmI,
    PowerMgmt1,
    AccelXOutH,
    AccelXOutL,
    AccelYOutH,
    AccelYOutL,
    AccelZOutH,
    AccelZOutL,
    TempOutH,
    TempOutL,
    GyroXOutH,
    GyroXOutL,
    GyroYOutH,
    GyroYOutL,
    GyroZOutH,
    GyroZOutL,
}

impl Registers {
    /// The bus address of the register, as the device datasheet fixes it.
    pub open spec fn address(self) -> u8 {
        match self {
            Registers::SmprtDiv => 0x19,
            Registers::Config => 0x1A,
            Registers::GyroConfig => 0x1B,
            Registers::AccelConfig => 0x1C,
            Registers::FifoEn => 0x23,
            Registers::InterruptPinCfg => 0x37,
            Registers::InterruptEnable => 0x38,
            Registers::InterruptStatus => 0x3A,
            Registers::UserCtrl => 0x6A,
            Registers::FifoCountH => 0x72,
            Registers::FifoCountL => 0x73,
            Registers::FifoRW => 0x74,
            Registers::WhoAmI => 0x75,
            Registers::PowerMgmt1 => 0x6B,
            Registers::AccelXOutH => 0x3B,
            Registers::AccelXOutL => 0x3C,
            Registers::AccelYOutH => 0x3D,
            Registers::AccelYOutL => 0x3E,
            Registers::AccelZOutH => 0x3F,
            Registers::AccelZOutL => 0x40,
            Registers::TempOutH => 0x41,
            Registers::TempOutL => 0x42,
            Registers::GyroXOutH => 0x43,
            Registers::GyroXOutL => 0x44,
            Registers::GyroYOutH => 0x45,
            Registers::GyroYOutL => 0x46,
            Registers::GyroZOutH => 0x47,
            Registers::GyroZOutL => 0x48,
        }
    }

    /// Returns the register's bus address.
    pub fn get_register_address(&self) -> (r: u8)
        ensures
            r == self.address(),
    {
        match self {
            Registers::SmprtDiv => 0x19,
            Registers::Config => 0x1A,
            Registers::GyroConfig => 0x1B,
            Registers::AccelConfig => 0x1C,
            Registers::FifoEn => 0x23,
            Registers::InterruptPinCfg => 0x37,
            Registers::InterruptEnable => 0x38,
            Registers::InterruptStatus => 0x3A,
            Registers::UserCtrl => 0x6A,
            Registers::FifoCountH => 0x72,
            Registers::FifoCountL => 0x73,
            Registers::FifoRW => 0x74,
            Registers::WhoAmI => 0x75,
            Registers::PowerMgmt1 => 0x6B,
            Registers::AccelXOutH => 0x3B,
            Registers::AccelXOutL => 0x3C,
            Registers::AccelYOutH => 0x3D,
            Registers::AccelYOutL => 0x3E,
            Registers::AccelZOutH => 0x3F,
            Registers::AccelZOutL => 0x40,
            Registers::TempOutH => 0x41,
            Registers::TempOutL => 0x42,
            Registers::GyroXOutH => 0x43,
            Registers::GyroXOutL => 0x44,
            Registers::GyroYOutH => 0x45,
            Registers::GyroYOutL => 0x46,
            Registers::GyroZOutH => 0x47,
            Registers::GyroZOutL => 0x48,
        }
    }
}

/// No two registers share an address.
pub proof fn lemma_addresses_distinct(a: Registers, b: Registers)
    ensures
        a.address() == b.address() ==> a == b,
{
}

/// The output registers of each sensor are laid out high byte first, each
/// pair directly after the one before, so that one read that starts at the
/// first axis's high byte walks all three axes in order.
pub proof fn lemma_output_registers_consecutive()
    ensures
        Registers::AccelXOutL.address() == Registers::AccelXOutH.address() + 1,
        Registers::AccelYOutH.address() == Registers::AccelXOutH.address() + 2,
        Registers::AccelYOutL.address() == Registers::AccelXOutH.address() + 3,
        Registers::AccelZOutH.address() == Registers::AccelXOutH.address() + 4,
        Registers::AccelZOutL.address() == Registers::AccelXOutH.address() + 5,
        Registers::GyroXOutL.address() == Registers::GyroXOutH.address() + 1,
        Registers::GyroYOutH.address() == Registers::GyroXOutH.address() + 2,
        Registers::GyroYOutL.address() == Registers::GyroXOutH.address() + 3,
        Registers::GyroZOutH.address() == Registers::GyroXOutH.address() + 4,
        Registers::GyroZOutL.address() == Registers::GyroXOutH.address() + 5,
        Registers::FifoCountL.address() == Registers::FifoCountH.address() + 1,
{
}

} // verus!
