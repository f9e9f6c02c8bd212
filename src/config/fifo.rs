//! Configuration of the FIFO enable register (FIFO_EN): which
//! measurements the device queues into its FIFO buffer.
use vstd::prelude::*;

use crate::bits::{bit_of, get_bit, set_bit, with_bit};

verus! {

/// The FIFO_EN register (0x23): one enable bit per stream.
#[derive(Debug, Clone, Copy, PartialEq, Eq, Structural)]
pub struct FifoConfig {
    bits: u8,
}

impl View for FifoConfig {
    type V = u8;

    /// The register byte.
    closed spec fn view(&self) -> u8 {
        self.bits
    }
}

impl FifoConfig {
    /// Creates a configuration with every FIFO stream disabled.
    pub fn new() -> (r: Self)
        ensures
            r@ == 0,
    {
        FifoConfig { bits: 0 }
    }

    /// Queue temperature samples (bit 7).
    pub fn enable_temp(self, enable: bool) -> (r: Self)
        ensures
            r@ == with_bit(self@, 7, enable),
    {
        FifoConfig { bits: set_bit(self.bits, 7, enable) }
    }

    /// Queue gyroscope X samples (bit 6).
    pub fn enable_gyro_x(self, enable: bool) -> (r: Self)
        ensures
            r@ == with_bit(self@, 6, enable),
    {
        FifoConfig { bits: set_bit(self.bits, 6, enable) }
    }

    /// Queue gyroscope Y samples (bit 5).
    pub fn enable_gyro_y(self, enable: bool) -> (r: Self)
        ensures
            r@ == with_bit(self@, 5, enable),
    {
        FifoConfig { bits: set_bit(self.bits, 5, enable) }
    }

    /// Queue gyroscope Z samples (bit 4).
    pub fn enable_gyro_z(self, enable: bool) -> (r: Self)
        ensures
            r@ == with_bit(self@, 4, enable),
    {
        FifoConfig { bits: set_bit(self.bits, 4, enable) }
    }

    /// Queue all three gyroscope axes, or none of them (bits 6..4).
    pub fn enable_gyro_all(self, enable: bool) -> (r: Self)
        ensures
            r@ == with_bit(with_bit(with_bit(self@, 6, enable), 5, enable), 4, enable),
    {
        self.enable_gyro_x(enable).enable_gyro_y(enable).enable_gyro_z(enable)
    }

    /// Queue accelerometer samples (bit 3).
    pub fn enable_accel(self, enable: bool) -> (r: Self)
        ensures
            r@ == with_bit(self@, 3, enable),
    {
        FifoConfig { bits: set_bit(self.bits, 3, enable) }
    }

    /// Queue auxiliary slave 2 data (bit 2).
    pub fn enable_slave2(self, enable: bool) -> (r: Self)
        ensures
            r@ == with_bit(self@, 2, enable),
    {
        FifoConfig { bits: set_bit(self.bits, 2, enable) }
    }

    /// Queue auxiliary slave 1 data (bit 1).
    pub fn enable_slave1(self, enable: bool) -> (r: Self)
        ensures
            r@ == with_bit(self@, 1, enable),
    {
        FifoConfig { bits: set_bit(self.bits, 1, enable) }
    }

    /// Queue auxiliary slave 0 data (bit 0).
    pub fn enable_slave0(self, enable: bool) -> (r: Self)
        ensures
            r@ == with_bit(self@, 0, enable),
    {
        FifoConfig { bits: set_bit(self.bits, 0, enable) }
    }

    /// The byte to write to the register.
    pub fn register_value(&self) -> (r: u8)
        ensures
            r == self@,
    {
        self.bits
    }

    /// Rebuilds a record from a byte read from the register, keeping every bit.
    pub fn from_register(bits: u8) -> (r: Self)
        ensures
            r@ == bits,
    {
        FifoConfig { bits }
    }

    /// Whether bit 7 is set.
    pub fn is_temp_enabled(&self) -> (r: bool)
        ensures
            r == bit_of(self@, 7),
    {
        get_bit(self.bits, 7)
    }

    /// Whether bit 6 is set.
    pub fn is_gyro_x_enabled(&self) -> (r: bool)
        ensures
            r == bit_of(self@, 6),
    {
        get_bit(self.bits, 6)
    }

    /// Whether bit 5 is set.
    pub fn is_gyro_y_enabled(&self) -> (r: bool)
        ensures
            r == bit_of(self@, 5),
    {
        get_bit(self.bits, 5)
    }

    /// Whether bit 4 is set.
    pub fn is_gyro_z_enabled(&self) -> (r: bool)
        ensures
            r == bit_of(self@, 4),
    {
        get_bit(self.bits, 4)
    }

    /// Whether bit 3 is set.
    pub fn is_accel_enabled(&self) -> (r: bool)
        ensures
            r == bit_of(self@, 3),
    {
        get_bit(self.bits, 3)
    }

    /// Whether bit 2 is set.
    pub fn is_slave2_enabled(&self) -> (r: bool)
        ensures
            r == bit_of(self@, 2),
    {
        get_bit(self.bits, 2)
    }

    /// Whether bit 1 is set.
    pub fn is_slave1_enabled(&self) -> (r: bool)
        ensures
            r == bit_of(self@, 1),
    {
        get_bit(self.bits, 1)
    }

    /// Whether bit 0 is set.
    pub fn is_slave0_enabled(&self) -> (r: bool)
        ensures
            r == bit_of(self@, 0),
    {
        get_bit(self.bits, 0)
    }
}

} // verus!
