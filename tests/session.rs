use mpu6050::{
    AccelConfig, DlpfConfig, ExtSync, FifoConfig, GyroConfig, IntPinConfig, InterruptEnable,
    MPU6050Error, Mpu6050, PwrMgmt1, Transport, Vector3,
};

#[derive(Debug, Clone, PartialEq)]
enum Call {
    Write(u8, Vec<u8>),
    WriteRead(u8, Vec<u8>, usize),
}

/// A bus that answers reads from a queue and can fail its n-th call.
#[derive(Default)]
struct FakeBus {
    replies: Vec<Vec<u8>>,
    fail_call: Option<usize>,
    calls: Vec<Call>,
}

impl FakeBus {
    fn answering(replies: Vec<Vec<u8>>) -> FakeBus {
        FakeBus { replies, fail_call: None, calls: Vec::new() }
    }

    fn failing_at(n: usize, replies: Vec<Vec<u8>>) -> FakeBus {
        FakeBus { replies, fail_call: Some(n), calls: Vec::new() }
    }

    fn fails_now(&self) -> bool {
        self.fail_call == Some(self.calls.len() - 1)
    }
}

impl Transport for &mut FakeBus {
    type Error = &'static str;

    fn write(&mut self, address: u8, bytes: &[u8]) -> Result<(), &'static str> {
        self.calls.push(Call::Write(address, bytes.to_vec()));
        if self.fails_now() {
            return Err("nack");
        }
        Ok(())
    }

    fn write_read(
        &mut self,
        address: u8,
        bytes: &[u8],
        buffer: &mut [u8],
    ) -> Result<(), &'static str> {
        self.calls.push(Call::WriteRead(address, bytes.to_vec(), buffer.len()));
        if self.fails_now() {
            return Err("nack");
        }
        let reply = self.replies.remove(0);
        buffer.copy_from_slice(&reply[..buffer.len()]);
        Ok(())
    }
}

const ADDR: u8 = 0x68;

#[test]
fn configure_writes_one_frame_each() {
    let mut bus = FakeBus::default();
    {
        let mut dev = Mpu6050::new(&mut bus, ADDR);
        dev.configure_gyro(GyroConfig::Dps2000).unwrap();
        dev.configure_accel(AccelConfig::Range8G).unwrap();
        dev.configure_interrupt_enable(InterruptEnable::all()).unwrap();
        dev.configure_interrupt_pin(IntPinConfig::new().with_latch_int(true)).unwrap();
        dev.configure_power_management(PwrMgmt1::new().set_sleep(true)).unwrap();
        dev.configure_fifo(FifoConfig::new().enable_accel(true)).unwrap();
    }
    assert_eq!(
        bus.calls,
        vec![
            Call::Write(ADDR, vec![0x1B, 0x18]),
            Call::Write(ADDR, vec![0x1C, 0x10]),
            Call::Write(ADDR, vec![0x38, 0b1011_0001]),
            Call::Write(ADDR, vec![0x37, 0b0010_0000]),
            Call::Write(ADDR, vec![0x6B, 0b0100_0000]),
            Call::Write(ADDR, vec![0x23, 0b0000_1000]),
        ]
    );
}

#[test]
fn filter_and_sync_share_one_byte() {
    let mut bus = FakeBus::default();
    {
        let mut dev = Mpu6050::new(&mut bus, ADDR);
        // the sync source whose selector is 0x06, with the 0x02 filter
        dev.configure_dlpf_and_ext_sync(DlpfConfig::Dlpf2, ExtSync::AccelYOutL).unwrap();
        dev.configure_dlpf_and_ext_sync(DlpfConfig::Dlpf2, ExtSync::GyroYOutL).unwrap();
        dev.configure_dlpf_and_ext_sync(DlpfConfig::Dlpf6, ExtSync::AccelZOutL).unwrap();
        dev.configure_dlpf_and_ext_sync(DlpfConfig::Dlpf0, ExtSync::Disabled).unwrap();
    }
    assert_eq!(
        bus.calls,
        vec![
            Call::Write(ADDR, vec![0x1A, 0x32]),
            Call::Write(ADDR, vec![0x1A, 0x1A]),
            Call::Write(ADDR, vec![0x1A, 0x3E]),
            Call::Write(ADDR, vec![0x1A, 0x00]),
        ]
    );
}

#[test]
fn read_accel_decodes_big_endian() {
    let mut bus = FakeBus::answering(vec![vec![0x01, 0x02, 0x03, 0x04, 0x05, 0x06]]);
    let v = {
        let mut dev = Mpu6050::new(&mut bus, ADDR);
        dev.read_accel().unwrap()
    };
    assert_eq!(v, Vector3 { x: 0x0102, y: 0x0304, z: 0x0506 });
    assert_eq!(bus.calls, vec![Call::WriteRead(ADDR, vec![0x3B], 6)]);
}

#[test]
fn read_gyro_decodes_negative_values() {
    let mut bus = FakeBus::answering(vec![vec![0xFF, 0xFE, 0x80, 0x00, 0x7F, 0xFF]]);
    let v = {
        let mut dev = Mpu6050::new(&mut bus, ADDR);
        dev.read_gyro().unwrap()
    };
    assert_eq!(v, Vector3 { x: -2, y: -32768, z: 32767 });
    assert_eq!(bus.calls, vec![Call::WriteRead(ADDR, vec![0x43], 6)]);
}

#[test]
fn fifo_count_is_unsigned_big_endian() {
    let mut bus = FakeBus::answering(vec![vec![0x00, 0x10], vec![0xFF, 0xFF]]);
    let (a, b) = {
        let mut dev = Mpu6050::new(&mut bus, ADDR);
        (dev.get_fifo_count().unwrap(), dev.get_fifo_count().unwrap())
    };
    assert_eq!(a, 16);
    assert_eq!(b, 65535);
    assert_eq!(bus.calls[0], Call::WriteRead(ADDR, vec![0x72], 2));
}

#[test]
fn read_fifo_reads_buffer_length() {
    let mut bus = FakeBus::answering(vec![vec![9, 8, 7, 6, 5]]);
    let mut buffer = [0u8; 5];
    {
        let mut dev = Mpu6050::new(&mut bus, ADDR);
        dev.read_fifo(&mut buffer).unwrap();
    }
    assert_eq!(buffer, [9, 8, 7, 6, 5]);
    assert_eq!(bus.calls, vec![Call::WriteRead(ADDR, vec![0x74], 5)]);
}

#[test]
fn fifo_enable_keeps_other_user_ctrl_bits() {
    let mut bus = FakeBus::answering(vec![vec![0b0000_0100], vec![0b0100_0100]]);
    {
        let mut dev = Mpu6050::new(&mut bus, ADDR);
        dev.set_fifo_enabled(true).unwrap();
        dev.set_fifo_enabled(false).unwrap();
    }
    assert_eq!(
        bus.calls,
        vec![
            Call::WriteRead(ADDR, vec![0x6A], 1),
            Call::Write(ADDR, vec![0x6A, 0b0100_0100]),
            Call::WriteRead(ADDR, vec![0x6A], 1),
            Call::Write(ADDR, vec![0x6A, 0b0000_0100]),
        ]
    );
}

#[test]
fn reset_fifo_sets_bit_two() {
    let mut bus = FakeBus::answering(vec![vec![0b0100_0000]]);
    {
        let mut dev = Mpu6050::new(&mut bus, ADDR);
        dev.reset_fifo().unwrap();
    }
    assert_eq!(
        bus.calls,
        vec![Call::WriteRead(ADDR, vec![0x6A], 1), Call::Write(ADDR, vec![0x6A, 0b0100_0100])]
    );
}

fn is_nack<T>(r: Result<T, MPU6050Error<&'static str>>) -> bool {
    matches!(r, Err(MPU6050Error::I2CError("nack")))
}

#[test]
fn faults_stop_the_operation() {
    let mut bus = FakeBus::failing_at(0, vec![]);
    assert!(is_nack(Mpu6050::new(&mut bus, ADDR).configure_gyro(GyroConfig::Dps250)));
    assert_eq!(bus.calls.len(), 1);

    let mut bus = FakeBus::failing_at(0, vec![]);
    assert!(is_nack(Mpu6050::new(&mut bus, ADDR).set_fifo_enabled(true)));
    assert_eq!(bus.calls, vec![Call::WriteRead(ADDR, vec![0x6A], 1)]);

    let mut bus = FakeBus::failing_at(1, vec![vec![0]]);
    assert!(is_nack(Mpu6050::new(&mut bus, ADDR).set_fifo_enabled(true)));
    assert_eq!(bus.calls.len(), 2);

    let mut bus = FakeBus::failing_at(0, vec![]);
    assert!(is_nack(Mpu6050::new(&mut bus, ADDR).reset_fifo()));
    assert_eq!(bus.calls.len(), 1);

    let mut bus = FakeBus::failing_at(0, vec![]);
    assert!(is_nack(Mpu6050::new(&mut bus, ADDR).read_accel()));
    assert_eq!(bus.calls.len(), 1);

    let mut bus = FakeBus::failing_at(0, vec![]);
    assert!(is_nack(Mpu6050::new(&mut bus, ADDR).read_gyro()));
    assert_eq!(bus.calls.len(), 1);

    let mut bus = FakeBus::failing_at(0, vec![]);
    assert!(is_nack(Mpu6050::new(&mut bus, ADDR).get_fifo_count()));
    assert_eq!(bus.calls.len(), 1);

    let mut bus = FakeBus::failing_at(0, vec![]);
    let mut buffer = [0u8; 3];
    assert!(is_nack(Mpu6050::new(&mut bus, ADDR).read_fifo(&mut buffer)));
    assert_eq!(bus.calls.len(), 1);

    let mut bus = FakeBus::failing_at(0, vec![]);
    assert!(is_nack(
        Mpu6050::new(&mut bus, ADDR).configure_dlpf_and_ext_sync(DlpfConfig::Dlpf1, ExtSync::Disabled)
    ));
    assert_eq!(bus.calls.len(), 1);
}

#[test]
fn session_stays_usable_after_a_fault() {
    let mut bus = FakeBus::failing_at(0, vec![]);
    {
        let mut dev = Mpu6050::new(&mut bus, ADDR);
        assert!(dev.configure_accel(AccelConfig::Range2G).is_err());
        assert!(dev.configure_accel(AccelConfig::Range16G).is_ok());
    }
    assert_eq!(bus.calls[1], Call::Write(ADDR, vec![0x1C, 0x18]));
}

#[test]
fn error_from_wraps_transport_fault() {
    let e: MPU6050Error<u8> = MPU6050Error::from(7u8);
    assert!(matches!(e, MPU6050Error::I2CError(7)));
}
