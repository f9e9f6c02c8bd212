//! The device session: one bus transaction, or a read followed by a write,
//! per device action, against the fixed register map.
use vstd::prelude::*;

use crate::bits::{set_bit, with_bit};
use crate::config::config::config_byte;
use crate::config::{
    AccelConfig, DlpfConfig, ExtSync, FifoConfig, GyroConfig, IntPinConfig, InterruptEnable,
    PwrMgmt1,
};
use crate::errors::MPU6050Error;
use crate::registers::Registers;
use embedded_hal::i2c::SevenBitAddress;

verus! {

/// Raw readings of the three axes of one sensor.
#[derive(Debug, Clone, Copy, PartialEq, Eq, Structural)]
pub struct Vector3 {
    pub x: i16,
    pub y: i16,
    pub z: i16,
}

/// A blocking two-wire bus, as a session uses it.
pub trait Transport {
    /// The fault the bus reports.
    type Error;

    /// Sends `bytes` to the device at `address`: a register address, then the
    /// bytes to store from that register on.
    fn write(&mut self, address: SevenBitAddress, bytes: &[u8]) -> Result<(), Self::Error>;

    /// Sends `bytes` to the device at `address`, then reads `buffer.len()`
    /// bytes back into `buffer`.
    fn write_read(&mut self, address: SevenBitAddress, bytes: &[u8], buffer: &mut [u8]) -> Result<
        (),
        Self::Error,
    >;
}

/// A bus transaction as a session issued it, with the fault the bus reported
/// (`None` when it succeeded).
pub enum Transaction<E> {
    Write { address: u8, bytes: Seq<u8>, fault: Option<E> },
    WriteRead { address: u8, bytes: Seq<u8>, len: nat, read: Seq<u8>, fault: Option<E> },
}

impl<E> Transaction<E> {
    /// The fault the bus reported, if any.
    pub open spec fn fault(self) -> Option<E> {
        match self {
            Transaction::Write { fault, .. } => fault,
            Transaction::WriteRead { fault, .. } => fault,
        }
    }

    /// What a write-then-read left in the caller's buffer.
    pub open spec fn bytes_read(self) -> Seq<u8> {
        match self {
            Transaction::Write { .. } => Seq::empty(),
            Transaction::WriteRead { read, .. } => read,
        }
    }
}

/// The fault a bus call reported, if any.
pub open spec fn fault_in<E>(r: Result<(), E>) -> Option<E> {
    match r {
        Ok(()) => None,
        Err(e) => Some(e),
    }
}

/// The transport fault an operation handed back, if any.
pub open spec fn fault_of<T, E>(r: Result<T, MPU6050Error<E>>) -> Option<E> {
    match r {
        Ok(_) => None,
        Err(MPU6050Error::I2CError(e)) => Some(e),
    }
}

/// The frame that stores `value` in register `reg`.
pub open spec fn write_txn<E>(
    address: u8,
    reg: Registers,
    value: u8,
    fault: Option<E>,
) -> Transaction<E> {
    Transaction::Write { address, bytes: seq![reg.address(), value], fault }
}

/// `t` asks for `len` bytes from register `reg` on.
pub open spec fn is_read_of<E>(t: Transaction<E>, address: u8, reg: Registers, len: nat) -> bool {
    match t {
        Transaction::WriteRead { address: a, bytes, len: n, .. } => a == address && bytes == seq![
            reg.address(),
        ] && n == len,
        _ => false,
    }
}

/// `h` is `h0` followed by one read of `len` bytes from `reg`, and the
/// operation reports exactly the fault of that read.
pub open spec fn read_step<E>(
    h0: Seq<Transaction<E>>,
    h: Seq<Transaction<E>>,
    address: u8,
    reg: Registers,
    len: nat,
    fault: Option<E>,
) -> bool {
    &&& h.len() == h0.len() + 1
    &&& h == h0.push(h.last())
    &&& is_read_of(h.last(), address, reg, len)
    &&& fault == h.last().fault()
}

/// `h` is `h0` followed by a one-byte read of `reg` and, only if that read
/// succeeded, a write of the byte read with bit `bit` set to `v`; the
/// operation reports exactly the fault of the transaction that failed.
pub open spec fn read_modify_write<E>(
    h0: Seq<Transaction<E>>,
    h: Seq<Transaction<E>>,
    address: u8,
    reg: Registers,
    bit: u8,
    v: bool,
    fault: Option<E>,
) -> bool {
    let first = h[h0.len() as int];
    &&& h.len() > h0.len()
    &&& is_read_of(first, address, reg, 1)
    &&& if first.fault() is None {
        let written = with_bit(first.bytes_read()[0], bit, v);
        h == h0.push(first).push(write_txn(address, reg, written, fault))
    } else {
        &&& h == h0.push(first)
        &&& fault == first.fault()
    }
}

/// Two bytes, high byte first, as an unsigned 16-bit value.
pub open spec fn be_u16(hi: u8, lo: u8) -> u16 {
    (hi as int * 256 + lo as int) as u16
}

/// Two bytes, high byte first, as a two's complement 16-bit value.
pub open spec fn be_i16(hi: u8, lo: u8) -> i16 {
    if hi < 128 {
        (hi as int * 256 + lo as int) as i16
    } else {
        (hi as int * 256 + lo as int - 65536) as i16
    }
}

/// Three axes from six bytes, each axis high byte first.
pub open spec fn vector_of(b: Seq<u8>) -> Vector3 {
    Vector3 { x: be_i16(b[0], b[1]), y: be_i16(b[2], b[3]), z: be_i16(b[4], b[5]) }
}

/// Two bytes, high byte first, as a signed value.
fn decode_i16(hi: u8, lo: u8) -> (r: i16)
    ensures
        r == be_i16(hi, lo),
{
    if hi < 128 {
        (hi as i16) * 256 + (lo as i16)
    } else {
        ((hi as i16) - 256) * 256 + (lo as i16)
    }
}

/// A session with one device: the bus it owns and the device's address.
pub struct Mpu6050<I2C: Transport> {
    i2c: I2C,
    address: SevenBitAddress,
    issued: Ghost<Seq<Transaction<I2C::Error>>>,
}

impl<I2C: Transport> Mpu6050<I2C> {
    /// The device's bus address.
    pub closed spec fn bus_address(&self) -> u8 {
        self.address
    }

    /// Every transaction this session has issued, oldest first.
    pub closed spec fn transactions(&self) -> Seq<Transaction<I2C::Error>> {
        self.issued@
    }

    /// Opens a session on `i2c` with the device at `address`.
    pub fn new(i2c: I2C, address: SevenBitAddress) -> (r: Self)
        ensures
            r.bus_address() == address,
            r.transactions() == Seq::<Transaction<I2C::Error>>::empty(),
    {
        Mpu6050 { i2c, address, issued: Ghost(Seq::empty()) }
    }

    fn write_register(
        &mut self,
        reg: Registers,
        value: u8,
    ) -> (r: Result<(), MPU6050Error<I2C::Error>>)
        ensures
            final(self).bus_address() == old(self).bus_address(),
            final(self).transactions() == old(self).transactions().push(
                write_txn(old(self).bus_address(), reg, value, fault_of(r)),
            ),
    {
        let frame = [reg.get_register_address(), value];
        let result = self.i2c.write(self.address, &frame);
        let ghost txn = write_txn(self.address, reg, value, fault_in(result));
        self.issued = Ghost(self.issued@.push(txn));
        match result {
            Ok(()) => Ok(()),
            Err(e) => Err(MPU6050Error::I2CError(e)),
        }
    }

    fn read_registers(
        &mut self,
        reg: Registers,
        buffer: &mut [u8],
    ) -> (r: Result<(), MPU6050Error<I2C::Error>>)
        ensures
            final(self).bus_address() == old(self).bus_address(),
            final(self).transactions() == old(self).transactions().push(
                Transaction::WriteRead {
                    address: old(self).bus_address(),
                    bytes: seq![reg.address()],
                    len: old(buffer)@.len(),
                    read: final(buffer)@,
                    fault: fault_of(r),
                },
            ),
    {
        let ghost len = buffer@.len();
        let start = [reg.get_register_address()];
        let result = self.i2c.write_read(self.address, &start, buffer);
        self.issued = Ghost(self.issued@.push(
            Transaction::WriteRead {
                address: self.address,
                bytes: seq![reg.address()],
                len,
                read: buffer@,
                fault: fault_in(result),
            },
        ));
        match result {
            Ok(()) => Ok(()),
            Err(e) => Err(MPU6050Error::I2CError(e)),
        }
    }

    /// Writes the gyroscope full-scale range to GYRO_CONFIG.
    pub fn configure_gyro(
        &mut self,
        gyro_conf: GyroConfig,
    ) -> (r: Result<(), MPU6050Error<I2C::Error>>)
        ensures
            final(self).bus_address() == old(self).bus_address(),
            final(self).transactions() == old(self).transactions().push(
                write_txn(
                    old(self).bus_address(),
                    Registers::GyroConfig,
                    gyro_conf.value(),
                    fault_of(r),
                ),
            ),
    {
        let value = gyro_conf.register_value();
        self.write_register(Registers::GyroConfig, value)
    }

    /// Writes the accelerometer full-scale range to ACCEL_CONFIG.
    pub fn configure_accel(
        &mut self,
        accel_conf: AccelConfig,
    ) -> (r: Result<(), MPU6050Error<I2C::Error>>)
        ensures
            final(self).bus_address() == old(self).bus_address(),
            final(self).transactions() == old(self).transactions().push(
                write_txn(
                    old(self).bus_address(),
                    Registers::AccelConfig,
                    accel_conf.value(),
                    fault_of(r),
                ),
            ),
    {
        let value = accel_conf.register_value();
        self.write_register(Registers::AccelConfig, value)
    }

    /// Writes the filter and the frame synchronisation source, packed into
    /// one CONFIG byte.
    pub fn configure_dlpf_and_ext_sync(&mut self, dlpf_config: DlpfConfig, ext_sync: ExtSync) -> (r:
        Result<(), MPU6050Error<I2C::Error>>)
        ensures
            final(self).bus_address() == old(self).bus_address(),
            final(self).transactions() == old(self).transactions().push(
                write_txn(
                    old(self).bus_address(),
                    Registers::Config,
                    config_byte(dlpf_config,
                    ext_sync),
                    fault_of(r),
                ),
            ),
    {
        let config_value = (ext_sync.get_register_value() << 3) | dlpf_config.register_value();
        self.write_register(Registers::Config, config_value)
    }

    /// Writes the interrupt enable mask to INT_ENABLE.
    pub fn configure_interrupt_enable(
        &mut self,
        interrupt_enable: InterruptEnable,
    ) -> (r: Result<(), MPU6050Error<I2C::Error>>)
        ensures
            final(self).bus_address() == old(self).bus_address(),
            final(self).transactions() == old(self).transactions().push(
                write_txn(
                    old(self).bus_address(),
                    Registers::InterruptEnable,
                    interrupt_enable@,
                    fault_of(r),
                ),
            ),
    {
        let value = interrupt_enable.register_value();
        self.write_register(Registers::InterruptEnable, value)
    }

    /// Writes the interrupt pin behaviour to INT_PIN_CFG.
    pub fn configure_interrupt_pin(
        &mut self,
        interrupt_pin_conf: IntPinConfig,
    ) -> (r: Result<(), MPU6050Error<I2C::Error>>)
        ensures
            final(self).bus_address() == old(self).bus_address(),
            final(self).transactions() == old(self).transactions().push(
                write_txn(
                    old(self).bus_address(),
                    Registers::InterruptPinCfg,
                    interrupt_pin_conf@,
                    fault_of(r),
                ),
            ),
    {
        let value = interrupt_pin_conf.register_value();
        self.write_register(Registers::InterruptPinCfg, value)
    }

    /// Writes the power mode and clock source to PWR_MGMT_1.
    pub fn configure_power_management(
        &mut self,
        pwr_mgmt: PwrMgmt1,
    ) -> (r: Result<(), MPU6050Error<I2C::Error>>)
        ensures
            final(self).bus_address() == old(self).bus_address(),
            final(self).transactions() == old(self).transactions().push(
                write_txn(old(self).bus_address(), Registers::PowerMgmt1, pwr_mgmt@, fault_of(r)),
            ),
    {
        let value = pwr_mgmt.register_value();
        self.write_register(Registers::PowerMgmt1, value)
    }

    /// Writes the FIFO stream selection to FIFO_EN.
    pub fn configure_fifo(
        &mut self,
        fifo_config: FifoConfig,
    ) -> (r: Result<(), MPU6050Error<I2C::Error>>)
        ensures
            final(self).bus_address() == old(self).bus_address(),
            final(self).transactions() == old(self).transactions().push(
                write_txn(old(self).bus_address(), Registers::FifoEn, fifo_config@, fault_of(r)),
            ),
    {
        let value = fifo_config.register_value();
        self.write_register(Registers::FifoEn, value)
    }

    /// Switches FIFO streaming on or off: reads USER_CTRL, sets or clears
    /// bit 6 alone, and writes the byte back.
    pub fn set_fifo_enabled(&mut self, enable: bool) -> (r: Result<(), MPU6050Error<I2C::Error>>)
        ensures
            final(self).bus_address() == old(self).bus_address(),
            read_modify_write(
                old(self).transactions(),
                final(self).transactions(),
                old(self).bus_address(),
                Registers::UserCtrl,
                6,
                enable,
                fault_of(r),
            ),
    {
        let mut buffer = [0u8; 1];
        match self.read_registers(Registers::UserCtrl, &mut buffer) {
            Ok(()) => {
                let value = set_bit(buffer[0], 6, enable);
                self.write_register(Registers::UserCtrl, value)
            },
            Err(e) => Err(e),
        }
    }

    /// Resets the FIFO buffer: reads USER_CTRL, sets bit 2 alone, and writes
    /// the byte back. The device clears the bit by itself.
    pub fn reset_fifo(&mut self) -> (r: Result<(), MPU6050Error<I2C::Error>>)
        ensures
            final(self).bus_address() == old(self).bus_address(),
            read_modify_write(
                old(self).transactions(),
                final(self).transactions(),
                old(self).bus_address(),
                Registers::UserCtrl,
                2,
                true,
                fault_of(r),
            ),
    {
        let mut buffer = [0u8; 1];
        match self.read_registers(Registers::UserCtrl, &mut buffer) {
            Ok(()) => {
                let value = set_bit(buffer[0], 2, true);
                self.write_register(Registers::UserCtrl, value)
            },
            Err(e) => Err(e),
        }
    }

    /// Reads the number of bytes waiting in the FIFO buffer.
    pub fn get_fifo_count(&mut self) -> (r: Result<u16, MPU6050Error<I2C::Error>>)
        ensures
            final(self).bus_address() == old(self).bus_address(),
            read_step(
                old(self).transactions(),
                final(self).transactions(),
                old(self).bus_address(),
                Registers::FifoCountH,
                2,
                fault_of(r),
            ),
            r matches Ok(n) ==> n == be_u16(
                final(self).transactions().last().bytes_read()[0],
                final(self).transactions().last().bytes_read()[1],
            ),
    {
        let mut buffer = [0u8; 2];
        match self.read_registers(Registers::FifoCountH, &mut buffer) {
            Ok(()) => Ok((buffer[0] as u16) * 256 + (buffer[1] as u16)),
            Err(e) => Err(e),
        }
    }

    /// Reads `buffer.len()` bytes from the FIFO data port in one transaction.
    /// Keeping the length within the FIFO count is the caller's affair.
    pub fn read_fifo(&mut self, buffer: &mut [u8]) -> (r: Result<(), MPU6050Error<I2C::Error>>)
        ensures
            final(self).bus_address() == old(self).bus_address(),
            read_step(
                old(self).transactions(),
                final(self).transactions(),
                old(self).bus_address(),
                Registers::FifoRW,
                old(buffer)@.len(),
                fault_of(r),
            ),
            final(buffer)@ == final(self).transactions().last().bytes_read(),
    {
        self.read_registers(Registers::FifoRW, buffer)
    }

    /// Reads the three accelerometer axes in one six-byte transaction.
    pub fn read_accel(&mut self) -> (r: Result<Vector3, MPU6050Error<I2C::Error>>)
        ensures
            final(self).bus_address() == old(self).bus_address(),
            read_step(
                old(self).transactions(),
                final(self).transactions(),
                old(self).bus_address(),
                Registers::AccelXOutH,
                6,
                fault_of(r),
            ),
            r matches Ok(v) ==> v == vector_of(final(self).transactions().last().bytes_read()),
    {
        self.read_vector(Registers::AccelXOutH)
    }

    /// Reads the three gyroscope axes in one six-byte transaction.
    pub fn read_gyro(&mut self) -> (r: Result<Vector3, MPU6050Error<I2C::Error>>)
        ensures
            final(self).bus_address() == old(self).bus_address(),
            read_step(
                old(self).transactions(),
                final(self).transactions(),
                old(self).bus_address(),
                Registers::GyroXOutH,
                6,
                fault_of(r),
            ),
            r matches Ok(v) ==> v == vector_of(final(self).transactions().last().bytes_read()),
    {
        self.read_vector(Registers::GyroXOutH)
    }

    fn read_vector(&mut self, first: Registers) -> (r: Result<Vector3, MPU6050Error<I2C::Error>>)
        ensures
            final(self).bus_address() == old(self).bus_address(),
            read_step(
                old(self).transactions(),
                final(self).transactions(),
                old(self).bus_address(),
                first,
                6,
                fault_of(r),
            ),
            r matches Ok(v) ==> v == vector_of(final(self).transactions().last().bytes_read()),
    {
        let mut buffer = [0u8; 6];
        match self.read_registers(first, &mut buffer) {
            Ok(()) => Ok(
                Vector3 {
                    x: decode_i16(buffer[0], buffer[1]),
                    y: decode_i16(buffer[2], buffer[3]),
                    z: decode_i16(buffer[4], buffer[5]),
                },
            ),
            Err(e) => Err(e),
        }
    }
}

} // verus!
