//! Configuration of the interrupt enable register (INT_ENABLE).
use vstd::prelude::*;

use crate::bits::{bit_of, get_bit, set_bit, with_bit};

verus! {

/// The INT_ENABLE register (0x38): one bit per interrupt source; other bits
/// are kept as read.
#[derive(Debug, Clone, Copy, PartialEq, Eq, Structural)]
pub struct InterruptEnable {
    bits: u8,
}

impl View for InterruptEnable {
    type V = u8;

    /// The register byte.
    closed spec fn view(&self) -> u8 {
        self.bits
    }
}

impl InterruptEnable {
    /// Creates a configuration with every interrupt disabled.
    pub fn empty() -> (r: Self)
        ensures
            r@ == 0,
    {
        InterruptEnable { bits: 0 }
    }

    /// Creates the mask 0b1011_0001: data ready and FIFO overflow, together
    /// with bits 7 and 5.
    pub fn all() -> (r: Self)
        ensures
            r@ == 0b1011_0001u8,
    {
        InterruptEnable { bits: 0b1011_0001 }
    }

    /// Data-ready interrupt (bit 0).
    pub fn with_data_ready(self, enable: bool) -> (r: Self)
        ensures
            r@ == with_bit(self@, 0, enable),
    {
        InterruptEnable { bits: set_bit(self.bits, 0, enable) }
    }

    /// Auxiliary bus master interrupts (bit 3).
    pub fn with_i2c_master(self, enable: bool) -> (r: Self)
        ensures
            r@ == with_bit(self@, 3, enable),
    {
        InterruptEnable { bits: set_bit(self.bits, 3, enable) }
    }

    /// FIFO overflow interrupt (bit 4).
    pub fn with_fifo_overflow(self, enable: bool) -> (r: Self)
        ensures
            r@ == with_bit(self@, 4, enable),
    {
        InterruptEnable { bits: set_bit(self.bits, 4, enable) }
    }

    /// Motion detection interrupt (bit 6).
    pub fn with_motion_detection(self, enable: bool) -> (r: Self)
        ensures
            r@ == with_bit(self@, 6, enable),
    {
        InterruptEnable { bits: set_bit(self.bits, 6, enable) }
    }

    /// The byte to write to the register.
    pub fn register_value(&self) -> (r: u8)
        ensures
            r == self@,
    {
        self.bits
    }

    /// Rebuilds a record from a byte read from the register, keeping every bit.
    pub fn from_register(bits: u8) -> (r: Self)
        ensures
            r@ == bits,
    {
        InterruptEnable { bits }
    }

    /// Whether bit 0 is set.
    pub fn has_data_ready(&self) -> (r: bool)
        ensures
            r == bit_of(self@, 0),
    {
        get_bit(self.bits, 0)
    }

    /// Whether bit 3 is set.
    pub fn has_i2c_master(&self) -> (r: bool)
        ensures
            r == bit_of(self@, 3),
    {
        get_bit(self.bits, 3)
    }

    /// Whether bit 4 is set.
    pub fn has_fifo_overflow(&self) -> (r: bool)
        ensures
            r == bit_of(self@, 4),
    {
        get_bit(self.bits, 4)
    }

    /// Whether bit 6 is set.
    pub fn has_motion_detection(&self) -> (r: bool)
        ensures
            r == bit_of(self@, 6),
    {
        get_bit(self.bits, 6)
    }
}

impl Default for InterruptEnable {
    fn default() -> (r: Self)
        ensures
            r@ == 0,
    {
        InterruptEnable::empty()
    }
}

} // verus!
