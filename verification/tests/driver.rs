use aht20_driver::bus::{DelayMs, I2cBus};
use aht20_driver::commands;
use aht20_driver::sensor_status::{BUSY_BM, CALENABLED_BM, CMDMODE_BM};
use aht20_driver::{
    Error, InitializedSensor, Sensor, CAL_PARAM0, CAL_PARAM1, SENSOR_ADDR, TRIG_MEASURE_PARAM0,
    TRIG_MEASURE_PARAM1,
};

#[derive(Clone, Debug, PartialEq)]
enum Direction {
    Write,
    Read,
}

/// One expected bus transaction: what the driver must send, or what the
/// mocked device will answer.
#[derive(Clone, Debug, PartialEq)]
struct I2cTransaction {
    direction: Direction,
    address: u8,
    data: Vec<u8>,
}

impl I2cTransaction {
    fn write(address: u8, data: Vec<u8>) -> I2cTransaction {
        I2cTransaction { direction: Direction::Write, address, data }
    }

    fn read(address: u8, data: Vec<u8>) -> I2cTransaction {
        I2cTransaction { direction: Direction::Read, address, data }
    }
}

#[derive(Debug, PartialEq)]
struct MockError;

/// A scripted bus: panics when the driver's traffic deviates from the
/// expectations, answers reads with the scripted bytes.
struct I2cMock {
    expected: Vec<I2cTransaction>,
    position: usize,
}

impl I2cMock {
    fn new(expectations: &[I2cTransaction]) -> I2cMock {
        I2cMock { expected: expectations.to_vec(), position: 0 }
    }

    fn done(&mut self) {
        assert_eq!(self.position, self.expected.len(), "expected transactions left over");
    }
}

impl I2cBus for I2cMock {
    type BusError = MockError;

    fn write_bytes(&mut self, address: u8, data: &[u8]) -> Result<(), MockError> {
        let expected = &self.expected[self.position];
        self.position += 1;
        assert_eq!(expected.direction, Direction::Write);
        assert_eq!(expected.address, address);
        assert_eq!(expected.data, data.to_vec());
        Ok(())
    }

    fn read_bytes<const N: usize>(
        &mut self,
        address: u8,
        buffer: &mut [u8; N],
    ) -> Result<(), MockError> {
        let expected = &self.expected[self.position];
        self.position += 1;
        assert_eq!(expected.direction, Direction::Read);
        assert_eq!(expected.address, address);
        assert_eq!(expected.data.len(), N);
        buffer.copy_from_slice(&expected.data);
        Ok(())
    }
}

/// A bus whose every transfer fails.
struct FailingI2c;

impl I2cBus for FailingI2c {
    type BusError = MockError;

    fn write_bytes(&mut self, _address: u8, _data: &[u8]) -> Result<(), MockError> {
        Err(MockError)
    }

    fn read_bytes<const N: usize>(
        &mut self,
        _address: u8,
        _buffer: &mut [u8; N],
    ) -> Result<(), MockError> {
        Err(MockError)
    }
}

struct MockNoop;

impl DelayMs for MockNoop {
    fn delay_ms(&mut self, _ms: u16) {}
}

#[test]
fn self_test() {
    assert!(true);
}

#[test]
fn mocking_i2c() {
    let expectations = [
        I2cTransaction::write(SENSOR_ADDR, vec![1, 2]),
        I2cTransaction::read(SENSOR_ADDR, vec![3, 4]),
    ];

    let mut i2c = I2cMock::new(&expectations);
    let mut buf = [0u8; 2];

    i2c.write_bytes(SENSOR_ADDR, &vec![1, 2]).unwrap();
    i2c.read_bytes(SENSOR_ADDR, &mut buf).unwrap();

    assert_eq!(buf.to_vec(), vec![3, 4]);

    i2c.done();
}

#[test]
fn get_status() {
    let not_busy_status: u8 = 0x00;

    let expectations = [
        I2cTransaction::write(SENSOR_ADDR, vec![commands::READ_STATUS]),
        I2cTransaction::read(SENSOR_ADDR, vec![not_busy_status]),
    ];

    let i2c = I2cMock::new(&expectations);
    let mut sensor_instance = Sensor::new(i2c, SENSOR_ADDR);

    let results = sensor_instance.read_status();

    assert!(results.is_ok());
    assert!(!results.unwrap().is_busy());
    sensor_instance.i2c.done();
}

#[test]
fn calibrate() {
    let expectations = [
        I2cTransaction::write(SENSOR_ADDR, vec![commands::CALIBRATE, CAL_PARAM0, CAL_PARAM1]),
        I2cTransaction::write(SENSOR_ADDR, vec![commands::READ_STATUS]),
        I2cTransaction::read(SENSOR_ADDR, vec![BUSY_BM]),
        I2cTransaction::write(SENSOR_ADDR, vec![commands::CALIBRATE, CAL_PARAM0, CAL_PARAM1]),
        I2cTransaction::write(SENSOR_ADDR, vec![commands::READ_STATUS]),
        I2cTransaction::read(SENSOR_ADDR, vec![CALENABLED_BM]),
    ];

    let i2c = I2cMock::new(&expectations);
    let mut sensor_instance = Sensor::new(i2c, SENSOR_ADDR);

    let mut mock_delay = MockNoop;
    let mut results = sensor_instance.calibrate(&mut mock_delay);
    assert!(results.is_err());

    results = sensor_instance.calibrate(&mut mock_delay);
    assert!(results.is_ok());

    sensor_instance.i2c.done();
}

#[test]
fn get_status_busy() {
    let busy_status: u8 = BUSY_BM;

    let expectations = [
        I2cTransaction::write(SENSOR_ADDR, vec![commands::READ_STATUS]),
        I2cTransaction::read(SENSOR_ADDR, vec![busy_status]),
    ];

    let i2c = I2cMock::new(&expectations);
    let mut sensor_instance = Sensor::new(i2c, SENSOR_ADDR);

    let results = sensor_instance.read_status();

    assert!(results.is_ok());
    assert!(results.unwrap().is_busy());
    sensor_instance.i2c.done();
}

#[test]
fn correct_init() {
    let calibrated = vec![CALENABLED_BM];
    assert_eq!(calibrated[0], 0b0000_1000);

    let not_calibrated = vec![0];
    assert_eq!(not_calibrated[0], 0b0000_0000);

    let expectations = [
        I2cTransaction::write(SENSOR_ADDR, vec![commands::INIT_SENSOR]),
        I2cTransaction::write(SENSOR_ADDR, vec![commands::READ_STATUS]),
        I2cTransaction::read(SENSOR_ADDR, not_calibrated.clone()),
        I2cTransaction::write(SENSOR_ADDR, vec![commands::CALIBRATE, CAL_PARAM0, CAL_PARAM1]),
        I2cTransaction::write(SENSOR_ADDR, vec![commands::READ_STATUS]),
        I2cTransaction::read(SENSOR_ADDR, calibrated.clone()),
    ];

    let i2c = I2cMock::new(&expectations);

    let mut sensor_instance = Sensor::new(i2c, SENSOR_ADDR);

    let mut mock_delay = MockNoop;
    let initialized_sensor_instance = sensor_instance.init(&mut mock_delay);

    assert!(initialized_sensor_instance.is_ok());

    initialized_sensor_instance.unwrap().sensor.i2c.done();
}

// A device that already reports calibration enabled on the first status
// read of an initialization must not be sent a calibrate command.
#[test]
fn init_skips_calibrate_when_enabled() {
    let expectations = [
        I2cTransaction::write(SENSOR_ADDR, vec![commands::INIT_SENSOR]),
        I2cTransaction::write(SENSOR_ADDR, vec![commands::READ_STATUS]),
        I2cTransaction::read(SENSOR_ADDR, vec![CALENABLED_BM]),
    ];

    let i2c = I2cMock::new(&expectations);
    let mut sensor_instance = Sensor::new(i2c, SENSOR_ADDR);

    let mut mock_delay = MockNoop;
    let initialized_sensor_instance = sensor_instance.init(&mut mock_delay);

    assert!(initialized_sensor_instance.is_ok());

    initialized_sensor_instance.unwrap().sensor.i2c.done();
}

#[test]
fn get_initialized_status() {
    let wbuf = vec![commands::READ_STATUS];
    let sensor_status = vec![CMDMODE_BM | CALENABLED_BM];

    let expected = [
        I2cTransaction::write(SENSOR_ADDR, wbuf),
        I2cTransaction::read(SENSOR_ADDR, sensor_status.clone()),
    ];

    // Skip doing the init of the sensor.
    let i2c = I2cMock::new(&expected);
    let mut sensor_instance = Sensor::new(i2c, SENSOR_ADDR);
    let mut inited_sensor = InitializedSensor { sensor: &mut sensor_instance };

    let r = inited_sensor.get_status();

    assert!(r.is_ok());
    assert_eq!(r.unwrap().status, sensor_status[0]);
    inited_sensor.sensor.i2c.done();
}

#[test]
fn trigger_messurement() {
    let expected = [I2cTransaction::write(
        SENSOR_ADDR,
        vec![commands::TRIG_MESSURE, TRIG_MEASURE_PARAM0, TRIG_MEASURE_PARAM1],
    )];

    // Skip doing the init of the sensor.
    let i2c = I2cMock::new(&expected);
    let mut sensor_instance = Sensor::new(i2c, SENSOR_ADDR);
    let mut inited_sensor = InitializedSensor { sensor: &mut sensor_instance };

    let res = inited_sensor.trigger_measurement();
    assert!(res.is_ok());

    inited_sensor.sensor.i2c.done();
}

#[test]
fn read_sensor() {
    let busy_status = CALENABLED_BM | BUSY_BM | 0x10;

    let not_busy_status = CALENABLED_BM | 0x10;

    let fake_sensor_data = vec![
        busy_status,
        0x7E,
        0x51, // humidity values
        0x65, // split byte
        0xD4,
        0xA0, // temperature values
        0xDA, // CRC8-MAXIM, calculated by the sensor
    ];

    let ready_fake_sensor_data = vec![
        not_busy_status,
        0x7E,
        0x51, // humidity values
        0x65, // split byte
        0xD4,
        0xA0, // temperature values
        0xDA, // CRC8-MAXIM, calculated by the sensor
    ];

    let expected = [
        I2cTransaction::write(
            SENSOR_ADDR,
            vec![commands::TRIG_MESSURE, TRIG_MEASURE_PARAM0, TRIG_MEASURE_PARAM1],
        ),
        I2cTransaction::read(SENSOR_ADDR, fake_sensor_data),
        I2cTransaction::read(SENSOR_ADDR, ready_fake_sensor_data),
    ];

    // Skip doing the init of the sensor.
    let i2c = I2cMock::new(&expected);
    let mut sensor_instance = Sensor::new(i2c, SENSOR_ADDR);
    let mut inited_sensor = InitializedSensor { sensor: &mut sensor_instance };

    let mut mock_delay = MockNoop;
    let data = inited_sensor.read_sensor(&mut mock_delay);

    assert!(data.is_ok());

    let mut sd = data.unwrap();

    assert_eq!(sd.bytes[0], 0x18);
    assert_eq!(sd.bytes[6], 0xDA);
    assert!(sd.is_crc_good());
    assert_eq!(sd.crc, 0xDA);
    assert_eq!(sd.bytes[6], sd.crc);

    inited_sensor.sensor.i2c.done();
}

// The busy-poll retries exactly until its fixed bound, then fails with the
// device-timeout error.
#[test]
fn read_sensor_timeout() {
    let busy_frame = vec![BUSY_BM, 0, 0, 0, 0, 0, 0];

    let expected = [
        I2cTransaction::write(
            SENSOR_ADDR,
            vec![commands::TRIG_MESSURE, TRIG_MEASURE_PARAM0, TRIG_MEASURE_PARAM1],
        ),
        I2cTransaction::read(SENSOR_ADDR, busy_frame.clone()),
        I2cTransaction::read(SENSOR_ADDR, busy_frame.clone()),
        I2cTransaction::read(SENSOR_ADDR, busy_frame.clone()),
    ];

    let i2c = I2cMock::new(&expected);
    let mut sensor_instance = Sensor::new(i2c, SENSOR_ADDR);
    let mut inited_sensor = InitializedSensor { sensor: &mut sensor_instance };

    let mut mock_delay = MockNoop;
    let data = inited_sensor.read_sensor(&mut mock_delay);

    assert!(matches!(data, Err(Error::DeviceTimeOut)));

    inited_sensor.sensor.i2c.done();
}

#[test]
fn soft_reset() {
    let not_busy_status = vec![0x00];

    let expected = [
        I2cTransaction::write(SENSOR_ADDR, vec![commands::READ_STATUS]),
        I2cTransaction::read(SENSOR_ADDR, not_busy_status.clone()),
        I2cTransaction::write(SENSOR_ADDR, vec![commands::SOFT_RESET]),
        I2cTransaction::write(SENSOR_ADDR, vec![commands::READ_STATUS]),
        I2cTransaction::read(SENSOR_ADDR, not_busy_status.clone()),
    ];

    // Skip doing the init of the sensor.
    let i2c = I2cMock::new(&expected);
    let mut sensor_instance = Sensor::new(i2c, SENSOR_ADDR);
    let mut inited_sensor = InitializedSensor { sensor: &mut sensor_instance };

    let mut mock_delay = MockNoop;

    let sr = inited_sensor.soft_reset(&mut mock_delay);
    assert!(sr.is_ok());

    sensor_instance.i2c.done();
}

// A soft reset requested while the device reports busy fails with the
// unexpected-busy error without sending the reset command: the expectations
// end at the status query.
#[test]
fn soft_reset_refused_while_busy() {
    let expected = [
        I2cTransaction::write(SENSOR_ADDR, vec![commands::READ_STATUS]),
        I2cTransaction::read(SENSOR_ADDR, vec![BUSY_BM]),
    ];

    let i2c = I2cMock::new(&expected);
    let mut sensor_instance = Sensor::new(i2c, SENSOR_ADDR);
    let mut inited_sensor = InitializedSensor { sensor: &mut sensor_instance };

    let mut mock_delay = MockNoop;

    let sr = inited_sensor.soft_reset(&mut mock_delay);
    assert!(matches!(sr, Err(Error::UnexpectedBusy)));

    sensor_instance.i2c.done();
}

// A failing transport surfaces immediately as the transport error.
#[test]
fn read_status_bus_error() {
    let mut sensor_instance = Sensor::new(FailingI2c, SENSOR_ADDR);

    let results = sensor_instance.read_status();
    assert!(matches!(results, Err(Error::I2C(MockError))));
}
