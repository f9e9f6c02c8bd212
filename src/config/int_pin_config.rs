//! Configuration of the interrupt pin register (INT_PIN_CFG).
use vstd::prelude::*;

use crate::bits::{bit_of, get_bit, set_bit, with_bit};

verus! {

/// The INT_PIN_CFG register (0x37): one bit per pin setting; bit 0 is kept
/// as read.
#[derive(Debug, Clone, Copy, PartialEq, Eq, Structural)]
pub struct IntPinConfig {
    bits: u8,
}

impl View for IntPinConfig {
    type V = u8;

    /// The register byte.
    closed spec fn view(&self) -> u8 {
        self.bits
    }
}

impl IntPinConfig {
    /// Creates the power-on configuration: INT active high, push-pull, 50 us pulse,
    /// cleared by a status read only; FSYNC active high and off; bypass off.
    pub fn new() -> (r: Self)
        ensures
            r@ == 0,
    {
        IntPinConfig { bits: 0 }
    }

    /// INT pin active low instead of active high (bit 7).
    pub fn with_int_level_active_low(self, active_low: bool) -> (r: Self)
        ensures
            r@ == with_bit(self@, 7, active_low),
    {
        IntPinConfig { bits: set_bit(self.bits, 7, active_low) }
    }

    /// INT pin open drain instead of push-pull (bit 6).
    pub fn with_int_open_drain(self, open_drain: bool) -> (r: Self)
        ensures
            r@ == with_bit(self@, 6, open_drain),
    {
        IntPinConfig { bits: set_bit(self.bits, 6, open_drain) }
    }

    /// INT pin held until the interrupt is cleared, instead of a 50 us pulse (bit 5).
    pub fn with_latch_int(self, latch: bool) -> (r: Self)
        ensures
            r@ == with_bit(self@, 5, latch),
    {
        IntPinConfig { bits: set_bit(self.bits, 5, latch) }
    }

    /// Interrupt status cleared by any read, not only a status read (bit 4).
    pub fn with_int_rd_clear(self, enable: bool) -> (r: Self)
        ensures
            r@ == with_bit(self@, 4, enable),
    {
        IntPinConfig { bits: set_bit(self.bits, 4, enable) }
    }

    /// FSYNC pin active low (bit 3).
    pub fn with_fsync_level_active_low(self, active_low: bool) -> (r: Self)
        ensures
            r@ == with_bit(self@, 3, active_low),
    {
        IntPinConfig { bits: set_bit(self.bits, 3, active_low) }
    }

    /// FSYNC pin used as an interrupt (bit 2).
    pub fn with_fsync_int_enabled(self, enable: bool) -> (r: Self)
        ensures
            r@ == with_bit(self@, 2, enable),
    {
        IntPinConfig { bits: set_bit(self.bits, 2, enable) }
    }

    /// Auxiliary bus bypass (bit 1).
    pub fn with_i2c_bypass_enabled(self, enable: bool) -> (r: Self)
        ensures
            r@ == with_bit(self@, 1, enable),
    {
        IntPinConfig { bits: set_bit(self.bits, 1, enable) }
    }

    /// The byte to write to the register.
    pub fn register_value(&self) -> (r: u8)
        ensures
            r == self@,
    {
        self.bits
    }

    /// Rebuilds a record from a byte read from the register, keeping every bit.
    pub fn from_register(bits: u8) -> (r: Self)
        ensures
            r@ == bits,
    {
        IntPinConfig { bits }
    }

    /// Whether bit 7 is set.
    pub fn is_int_active_low(&self) -> (r: bool)
        ensures
            r == bit_of(self@, 7),
    {
        get_bit(self.bits, 7)
    }

    /// Whether bit 6 is set.
    pub fn is_int_open_drain(&self) -> (r: bool)
        ensures
            r == bit_of(self@, 6),
    {
        get_bit(self.bits, 6)
    }

    /// Whether bit 5 is set.
    pub fn is_latch_enabled(&self) -> (r: bool)
        ensures
            r == bit_of(self@, 5),
    {
        get_bit(self.bits, 5)
    }

    /// Whether bit 4 is set.
    pub fn is_clear_on_any_read(&self) -> (r: bool)
        ensures
            r == bit_of(self@, 4),
    {
        get_bit(self.bits, 4)
    }

    /// Whether bit 3 is set.
    pub fn is_fsync_active_low(&self) -> (r: bool)
        ensures
            r == bit_of(self@, 3),
    {
        get_bit(self.bits, 3)
    }

    /// Whether bit 2 is set.
    pub fn is_fsync_int_enabled(&self) -> (r: bool)
        ensures
            r == bit_of(self@, 2),
    {
        get_bit(self.bits, 2)
    }

    /// Whether bit 1 is set.
    pub fn is_i2c_bypass_enabled(&self) -> (r: bool)
        ensures
            r == bit_of(self@, 1),
    {
        get_bit(self.bits, 1)
    }
}

impl Default for IntPinConfig {
    fn default() -> (r: Self)
        ensures
            r@ == 0,
    {
        IntPinConfig::new()
    }
}

} // verus!
