pub mod accel_config;
pub mod clock_source;
pub mod config;
pub mod fifo;
pub mod gyro_config;
pub mod int_pin_config;
pub mod interrupt_enable;
pub mod pwr_mgmt_1_config;

pub use accel_config::AccelConfig;
pub use clock_source::ClockSource;
pub use config::{DlpfConfig, ExtSync};
pub use fifo::FifoConfig;
pub use gyro_config::GyroConfig;
pub use int_pin_config::IntPinConfig;
pub use interrupt_enable::InterruptEnable;
pub use pwr_mgmt_1_config::PwrMgmt1;
