//! Driver core for a six-axis inertial sensor (accelerometer and gyroscope)
//! on a two-wire serial bus: a register map, typed register configuration
//! values and a device session that sequences bus transactions.
pub mod bits;
pub mod registers;
pub mod errors;
pub mod config;
pub mod mpu6050;

pub use config::{
    AccelConfig, ClockSource, DlpfConfig, ExtSync, FifoConfig, GyroConfig, IntPinConfig,
    InterruptEnable, PwrMgmt1,
};
pub use errors::MPU6050Error;
pub use mpu6050::mpu6050::{Transport, Vector3};
pub use mpu6050::Mpu6050;
pub use registers::Registers;
