use aht20_driver::data::{SensorData, CRC_INDEX};

#[test]
fn selftest() {
    assert!(true);
}

fn setup() -> SensorData {
    let bytes_of_data: [u8; 7] = [0x18, 0x7E, 0x51, 0x65, 0xD4, 0xA0, 0xDA];
    let s = SensorData { bytes: bytes_of_data, crc: 0x00 };
    return s;
}

#[test]
fn new_instance() {
    let _s = SensorData::new();
    assert!(true);
}

// This test is from actual data captured over a logic analyzer.
#[test]
fn crc_8_maxim_actual_one() {
    let bytes_of_data: [u8; 7] = [0x18, 0x80, 0x2F, 0x25, 0xD2, 0x6A, 0x13];
    let mut s = SensorData { bytes: bytes_of_data, crc: 0x00 };
    s.crc_8_maxim();
    assert_eq!(0x13, s.crc);

    s.bytes[2] = 0xAA;
    s.crc_8_maxim();
    assert_ne!(0x13, s.crc);
}

// This test is from actual data captured over a logic analyzer.
#[test]
fn crc_8_maxim_actual_two() {
    let bytes_of_data: [u8; 7] = [0x18, 0x7E, 0x51, 0x65, 0xD4, 0xA0, 0xDA];
    let mut s = SensorData { bytes: bytes_of_data, crc: 0x00 };
    s.crc_8_maxim();
    assert_eq!(0xDA, s.crc);
}

#[test]
fn is_crc_good_t() {
    let mut s = setup();
    assert!(s.is_crc_good());

    s.bytes[CRC_INDEX] = 0xD7;
    assert!(!s.is_crc_good());
}

#[test]
fn clear_bytes() {
    let mut s = setup();
    s.clear_bytes();

    for v in s.bytes.iter() {
        assert_eq!(*v, 0x00 as u8);
    }
}

#[test]
fn split_data() {
    let mut sd = SensorData::new();
    sd.bytes = [0x18, 0x7E, 0x51, 0x65, 0xD4, 0xA0, 0xDA];

    let h = sd.get_humidity_bits();
    // This is the first 20 bits after the state byte.
    assert_eq!(h, 517398);

    let t = sd.get_temperature_bits();
    assert_eq!(t, 382112);
}

// Checksum determinism: repeated computation over the same bytes yields the
// same value.
#[test]
fn crc_deterministic() {
    let mut s = setup();
    s.crc_8_maxim();
    let first = s.crc;
    s.crc_8_maxim();
    assert_eq!(first, s.crc);
}

// Corrupting any single byte of the covered region breaks verification.
#[test]
fn crc_detects_each_byte() {
    for k in 0..CRC_INDEX {
        let mut s = setup();
        assert!(s.is_crc_good());
        s.bytes[k] ^= 0x01;
        assert!(!s.is_crc_good());
    }
}

// Datasheet conversion vectors, computed from the verified bit fields with
// the datasheet formulas.
#[test]
fn humidity_percent_vector() {
    let mut sd = SensorData::new();
    sd.bytes = [0x18, 0x7E, 0x51, 0x65, 0xD4, 0xA0, 0xDA];

    let h = (sd.get_humidity_bits() as f32) / 1048576.0 * 100.0;
    assert!(h < 49.35);
    assert!(h > 49.34);
}

#[test]
fn temperature_celsius_vector() {
    let mut sd = SensorData::new();
    sd.bytes = [0x18, 0x7E, 0x51, 0x65, 0xD4, 0xA0, 0xDA];

    let t = (sd.get_temperature_bits() as f32) / 1048576.0 * 200.0 - 50.0;
    assert!(t < 22.89);
    assert!(t > 22.87);
}

// A fresh frame is all zeroes with no checksum computed.
#[test]
fn new_frame_is_zeroed() {
    let s = SensorData::new();
    assert_eq!(s.bytes, [0u8; 7]);
    assert_eq!(s.crc, 0);
}
