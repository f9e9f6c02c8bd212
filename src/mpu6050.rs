pub mod accel_scale_range;
pub mod dlp_filter;
pub mod extsync;
pub mod fifo;
pub mod gyro_scale_range;
pub mod mpu6050;

pub use accel_scale_range::AccelScaleRange;
pub use dlp_filter::DlpFilter;
pub use extsync::ExtSync;
pub use fifo::FIFOEnable;
pub use gyro_scale_range::GyroScaleRange;
pub use mpu6050::Mpu6050;
