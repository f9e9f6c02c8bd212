use mpu6050::mpu6050::{AccelScaleRange, DlpFilter, FIFOEnable, GyroScaleRange};
use mpu6050::{
    AccelConfig, ClockSource, DlpfConfig, ExtSync, FifoConfig, GyroConfig, IntPinConfig,
    InterruptEnable, PwrMgmt1, Registers,
};

#[test]
fn register_addresses_follow_datasheet() {
    assert_eq!(Registers::SmprtDiv.get_register_address(), 0x19);
    assert_eq!(Registers::Config.get_register_address(), 0x1A);
    assert_eq!(Registers::GyroConfig.get_register_address(), 0x1B);
    assert_eq!(Registers::AccelConfig.get_register_address(), 0x1C);
    assert_eq!(Registers::FifoEn.get_register_address(), 0x23);
    assert_eq!(Registers::InterruptPinCfg.get_register_address(), 0x37);
    assert_eq!(Registers::InterruptEnable.get_register_address(), 0x38);
    assert_eq!(Registers::InterruptStatus.get_register_address(), 0x3A);
    assert_eq!(Registers::AccelXOutH.get_register_address(), 0x3B);
    assert_eq!(Registers::AccelZOutL.get_register_address(), 0x40);
    assert_eq!(Registers::TempOutH.get_register_address(), 0x41);
    assert_eq!(Registers::TempOutL.get_register_address(), 0x42);
    assert_eq!(Registers::GyroXOutH.get_register_address(), 0x43);
    assert_eq!(Registers::GyroZOutL.get_register_address(), 0x48);
    assert_eq!(Registers::UserCtrl.get_register_address(), 0x6A);
    assert_eq!(Registers::PowerMgmt1.get_register_address(), 0x6B);
    assert_eq!(Registers::FifoCountH.get_register_address(), 0x72);
    assert_eq!(Registers::FifoCountL.get_register_address(), 0x73);
    assert_eq!(Registers::FifoRW.get_register_address(), 0x74);
    assert_eq!(Registers::WhoAmI.get_register_address(), 0x75);
}

#[test]
fn accel_config_encodings_and_ranges() {
    let all = [
        AccelConfig::Range2G,
        AccelConfig::Range4G,
        AccelConfig::Range8G,
        AccelConfig::Range16G,
    ];
    let bytes: Vec<u8> = all.iter().map(|a| a.register_value()).collect();
    assert_eq!(bytes, vec![0x00, 0x08, 0x10, 0x18]);
    let ranges: Vec<u8> = all.iter().map(|a| a.scale_range()).collect();
    assert_eq!(ranges, vec![2, 4, 8, 16]);
}

#[test]
fn gyro_config_encodings_and_ranges() {
    let all = [
        GyroConfig::Dps250,
        GyroConfig::Dps500,
        GyroConfig::Dps1000,
        GyroConfig::Dps2000,
    ];
    let bytes: Vec<u8> = all.iter().map(|g| g.register_value()).collect();
    assert_eq!(bytes, vec![0x00, 0x08, 0x10, 0x18]);
    let ranges: Vec<u16> = all.iter().map(|g| g.scale_range()).collect();
    assert_eq!(ranges, vec![250, 500, 1000, 2000]);
}

#[test]
fn dlpf_config_tables() {
    let all = [
        DlpfConfig::Dlpf0,
        DlpfConfig::Dlpf1,
        DlpfConfig::Dlpf2,
        DlpfConfig::Dlpf3,
        DlpfConfig::Dlpf4,
        DlpfConfig::Dlpf5,
        DlpfConfig::Dlpf6,
    ];
    let codes: Vec<u8> = all.iter().map(|d| d.register_value()).collect();
    assert_eq!(codes, vec![0, 1, 2, 3, 4, 5, 6]);
    let accel: Vec<u16> = all.iter().map(|d| d.get_accel_bandwidth_hz()).collect();
    assert_eq!(accel, vec![260, 184, 94, 44, 21, 10, 5]);
    let gyro: Vec<u16> = all.iter().map(|d| d.get_gyro_bandwidth_hz()).collect();
    assert_eq!(gyro, vec![256, 188, 98, 42, 20, 10, 5]);
}

#[test]
fn ext_sync_codes_are_distinct() {
    let all = [
        ExtSync::Disabled,
        ExtSync::TempOutL,
        ExtSync::GyroXOutL,
        ExtSync::GyroYOutL,
        ExtSync::GyroZOutL,
        ExtSync::AccelXOutL,
        ExtSync::AccelYOutL,
        ExtSync::AccelZOutL,
    ];
    let codes: Vec<u8> = all.iter().map(|s| s.get_register_value()).collect();
    assert_eq!(codes, vec![0, 1, 2, 3, 4, 5, 6, 7]);
}

#[test]
fn clock_source_codes() {
    let all = [
        ClockSource::Internal8MHz,
        ClockSource::PllXGyro,
        ClockSource::PllYGyro,
        ClockSource::PllZGyro,
        ClockSource::PllExt32k,
        ClockSource::PllExt19MHz,
        ClockSource::Stop,
    ];
    let codes: Vec<u8> = all.iter().map(|c| c.register_value()).collect();
    assert_eq!(codes, vec![0, 1, 2, 3, 4, 5, 7]);
}

#[test]
fn plain_register_enums() {
    assert_eq!(AccelScaleRange::TwoG.register_value(), 0x00);
    assert_eq!(AccelScaleRange::SixteenG.register_value(), 0x18);
    assert_eq!(GyroScaleRange::Degree500.register_value(), 0x08);
    assert_eq!(GyroScaleRange::Degree2000.register_value(), 0x18);
    assert_eq!(DlpFilter::Disabled.register_value(), 0);
    assert_eq!(DlpFilter::Hz5.register_value(), 6);
    assert_eq!(mpu6050::mpu6050::ExtSync::AccelZLSB.register_value(), 7);
    assert_eq!(FIFOEnable::All.register_value(), 0b1111_0000);
    assert_eq!(FIFOEnable::Gyro.register_value(), 0b0111_0000);
}

#[test]
fn defaults_encode_to_zero() {
    assert_eq!(FifoConfig::new().register_value(), 0x00);
    assert_eq!(IntPinConfig::new().register_value(), 0x00);
    assert_eq!(InterruptEnable::empty().register_value(), 0x00);
    assert_eq!(PwrMgmt1::new().register_value(), 0x00);
    assert_eq!(IntPinConfig::default().register_value(), 0x00);
    assert_eq!(InterruptEnable::default().register_value(), 0x00);
}

#[test]
fn interrupt_enable_all() {
    let all = InterruptEnable::all();
    assert_eq!(all.register_value(), 0b1011_0001);
    assert!(all.has_data_ready());
    assert!(!all.has_i2c_master());
    assert!(all.has_fifo_overflow());
    assert!(!all.has_motion_detection());
}

#[test]
fn fifo_config_bits() {
    let c = FifoConfig::new().enable_temp(true).enable_accel(true).enable_slave0(true);
    assert_eq!(c.register_value(), 0b1000_1001);
    assert_eq!(FifoConfig::new().enable_gyro_all(true).register_value(), 0b0111_0000);
    let c = FifoConfig::from_register(0xFF).enable_gyro_all(false).enable_slave2(false);
    assert_eq!(c.register_value(), 0b1000_1011);
    assert!(c.is_temp_enabled());
    assert!(!c.is_gyro_x_enabled());
    assert!(!c.is_gyro_y_enabled());
    assert!(!c.is_gyro_z_enabled());
    assert!(c.is_accel_enabled());
    assert!(!c.is_slave2_enabled());
    assert!(c.is_slave1_enabled());
    assert!(c.is_slave0_enabled());
    assert_eq!(FifoConfig::new().enable_gyro_x(true).register_value(), 0x40);
    assert_eq!(FifoConfig::new().enable_gyro_y(true).register_value(), 0x20);
    assert_eq!(FifoConfig::new().enable_gyro_z(true).register_value(), 0x10);
    assert_eq!(FifoConfig::new().enable_slave1(true).register_value(), 0x02);
    assert_eq!(FifoConfig::new().enable_slave2(true).register_value(), 0x04);
}

#[test]
fn int_pin_config_bits() {
    let c = IntPinConfig::new()
        .with_int_level_active_low(true)
        .with_int_open_drain(true)
        .with_latch_int(true)
        .with_int_rd_clear(true)
        .with_fsync_level_active_low(true)
        .with_fsync_int_enabled(true)
        .with_i2c_bypass_enabled(true);
    assert_eq!(c.register_value(), 0b1111_1110);
    assert!(c.is_int_active_low());
    assert!(c.is_int_open_drain());
    assert!(c.is_latch_enabled());
    assert!(c.is_clear_on_any_read());
    assert!(c.is_fsync_active_low());
    assert!(c.is_fsync_int_enabled());
    assert!(c.is_i2c_bypass_enabled());
    let d = c.with_latch_int(false).with_i2c_bypass_enabled(false);
    assert_eq!(d.register_value(), 0b1101_1100);
    assert!(!d.is_latch_enabled());
    assert!(!d.is_i2c_bypass_enabled());
}

#[test]
fn interrupt_enable_bits() {
    let c = InterruptEnable::empty().with_data_ready(true).with_motion_detection(true);
    assert_eq!(c.register_value(), 0b0100_0001);
    assert!(c.has_data_ready());
    assert!(c.has_motion_detection());
    assert!(!c.has_fifo_overflow());
    let c = c.with_i2c_master(true).with_fifo_overflow(true).with_data_ready(false);
    assert_eq!(c.register_value(), 0b0101_1000);
}

#[test]
fn round_trip_keeps_unnamed_bits() {
    // bit 0 of INT_PIN_CFG is not a named field; it survives decode and encode
    let c = IntPinConfig::from_register(0b0000_0001).with_int_open_drain(true);
    let again = IntPinConfig::from_register(c.register_value());
    assert_eq!(again.register_value(), 0b0100_0001);
    assert_eq!(again.is_int_open_drain(), c.is_int_open_drain());
    assert_eq!(again.is_latch_enabled(), c.is_latch_enabled());
    assert_eq!(again, c);
    let e = InterruptEnable::from_register(0b1010_0110).with_data_ready(true);
    let again = InterruptEnable::from_register(e.register_value());
    assert_eq!(again.register_value(), 0b1010_0111);
    assert_eq!(again.has_data_ready(), e.has_data_ready());
    assert_eq!(again.has_i2c_master(), e.has_i2c_master());
    assert_eq!(again.has_fifo_overflow(), e.has_fifo_overflow());
    assert_eq!(again.has_motion_detection(), e.has_motion_detection());
}

#[test]
fn setting_one_field_leaves_others() {
    for b in 0u8..=255 {
        let before = IntPinConfig::from_register(b);
        let after = before.with_latch_int(!before.is_latch_enabled());
        assert_eq!(after.register_value() ^ before.register_value(), 1 << 5);
        assert_eq!(after.is_int_active_low(), before.is_int_active_low());
        assert_eq!(after.is_fsync_int_enabled(), before.is_fsync_int_enabled());
    }
}

#[test]
fn builder_is_repeatable() {
    let a = FifoConfig::new().enable_accel(true).enable_temp(true);
    let b = a.enable_accel(true).enable_temp(true);
    assert_eq!(a, b);
}

#[test]
fn power_management_bits() {
    let p = PwrMgmt1::new().set_sleep(true).set_cycle(true).disable_temp_sensor(true);
    assert_eq!(p.register_value(), 0b0110_1000);
    assert!(p.is_sleeping());
    assert!(p.is_cycle_enabled());
    assert!(p.is_temp_sensor_disabled());
    assert!(!p.is_device_reset());
    let p = p.device_reset(true).set_sleep(false);
    assert_eq!(p.register_value(), 0b1010_1000);
    let p = p.set_clock_source(ClockSource::PllZGyro);
    assert_eq!(p.register_value(), 0b1010_1011);
    assert_eq!(p.clock_select(), 3);
    let p = p.set_clock_source(ClockSource::PllXGyro);
    assert_eq!(p.register_value(), 0b1010_1001);
    let p = PwrMgmt1::from_register(0xFF).set_clock_source(ClockSource::Internal8MHz);
    assert_eq!(p.register_value(), 0xF8);
    assert_eq!(PwrMgmt1::new().set_clock_source(ClockSource::Stop).clock_select(), 7);
}
