//! Configuration of the first power management register (PWR_MGMT_1):
//! power mode, device reset, temperature sensor and clock source.
use vstd::prelude::*;

use crate::bits::{bit_of, get_bit, set_bit, with_bit};
use crate::config::clock_source::ClockSource;

verus! {

/// The PWR_MGMT_1 register (0x6B): reset, sleep, cycle and temperature bits,
/// and the clock selector in bits 2..0.
#[derive(Debug, Clone, Copy, PartialEq, Eq, Structural)]
pub struct PwrMgmt1 {
    bits: u8,
}

impl View for PwrMgmt1 {
    type V = u8;

    /// The register byte.
    closed spec fn view(&self) -> u8 {
        self.bits
    }
}

impl PwrMgmt1 {
    /// Creates the power-on configuration: awake, internal 8 MHz oscillator.
    pub fn new() -> (r: Self)
        ensures
            r@ == 0,
    {
        PwrMgmt1 { bits: 0 }
    }

    /// Low-power sleep mode (bit 6).
    pub fn set_sleep(self, sleep: bool) -> (r: Self)
        ensures
            r@ == with_bit(self@, 6, sleep),
    {
        PwrMgmt1 { bits: set_bit(self.bits, 6, sleep) }
    }

    /// Reset of every internal register; the device clears the bit itself (bit 7).
    pub fn device_reset(self, reset: bool) -> (r: Self)
        ensures
            r@ == with_bit(self@, 7, reset),
    {
        PwrMgmt1 { bits: set_bit(self.bits, 7, reset) }
    }

    /// Cycle mode: sleep between single accelerometer samples (bit 5).
    pub fn set_cycle(self, cycle: bool) -> (r: Self)
        ensures
            r@ == with_bit(self@, 5, cycle),
    {
        PwrMgmt1 { bits: set_bit(self.bits, 5, cycle) }
    }

    /// Temperature sensor switched off (bit 3).
    pub fn disable_temp_sensor(self, enable: bool) -> (r: Self)
        ensures
            r@ == with_bit(self@, 3, enable),
    {
        PwrMgmt1 { bits: set_bit(self.bits, 3, enable) }
    }

    /// Selects the clock source (bits 2..0), keeping bits 7..3.
    pub fn set_clock_source(self, clk_source: ClockSource) -> (r: Self)
        ensures
            r@ == (self@ & 0xF8u8) | clk_source.value(),
    {
        PwrMgmt1 { bits: (self.bits & 0xF8) | clk_source.register_value() }
    }

    /// The byte to write to the register.
    pub fn register_value(&self) -> (r: u8)
        ensures
            r == self@,
    {
        self.bits
    }

    /// Rebuilds a record from a byte read from the register, keeping every bit.
    pub fn from_register(bits: u8) -> (r: Self)
        ensures
            r@ == bits,
    {
        PwrMgmt1 { bits }
    }

    /// Whether bit 6 is set.
    pub fn is_sleeping(&self) -> (r: bool)
        ensures
            r == bit_of(self@, 6),
    {
        get_bit(self.bits, 6)
    }

    /// Whether bit 7 is set.
    pub fn is_device_reset(&self) -> (r: bool)
        ensures
            r == bit_of(self@, 7),
    {
        get_bit(self.bits, 7)
    }

    /// Whether bit 5 is set.
    pub fn is_cycle_enabled(&self) -> (r: bool)
        ensures
            r == bit_of(self@, 5),
    {
        get_bit(self.bits, 5)
    }

    /// Whether bit 3 is set.
    pub fn is_temp_sensor_disabled(&self) -> (r: bool)
        ensures
            r == bit_of(self@, 3),
    {
        get_bit(self.bits, 3)
    }

    /// The clock source selector, bits 2..0.
    pub fn clock_select(&self) -> (r: u8)
        ensures
            r == self@ & 0x07u8,
    {
        self.bits & 0x07
    }
}

/// Selecting a clock source puts its selector in bits 2..0 and leaves bits
/// 7..3 (reset, sleep, cycle, temperature sensor) as they were.
pub proof fn lemma_set_clock_source_independent(b: u8, clk_source: ClockSource)
    ensures
        ((b & 0xF8u8) | clk_source.value()) & 0x07u8 == clk_source.value(),
        forall|j: u8|
            3 <= j < 8 ==> bit_of(#[trigger] ((b & 0xF8u8) | clk_source.value()), j) == bit_of(b, j),
{
    let c = clk_source.value();
    assert(((b & 0xF8u8) | c) & 0x07u8 == c) by (bit_vector)
        requires
            c < 8,
    ;
    assert forall|j: u8| 3 <= j < 8 implies bit_of(#[trigger] ((b & 0xF8u8) | c), j) == bit_of(
        b,
        j,
    ) by {
        assert(bit_of((b & 0xF8u8) | c, j) == bit_of(b, j)) by (bit_vector)
            requires
                c < 8,
                3 <= j < 8,
        ;
    }
}

} // verus!
