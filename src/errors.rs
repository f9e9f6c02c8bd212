pub mod error;

pub use error::MPU6050Error;
