use env_sense::bytes::{i12_from_parts, i16_from_le, i8_from_byte, to_array, u16_from_le};
use env_sense::{compensated, Bme280Calibration, RawAcceleration, RawSample, SensorError};

fn blocks() -> ([u8; 26], [u8; 7]) {
    let tp = [
        0x70, 0x6B, 0x43, 0x67, 0x18, 0xFC, 0x7D, 0x8E, 0x43, 0xD6, 0xD0, 0x0B, 0x27, 0x0B, 0x8C,
        0x00, 0xF9, 0xFF, 0x8C, 0x3C, 0xF8, 0xC6, 0x70, 0x17, 0xAA, 0x4B,
    ];
    let h = [0x6A, 0x01, 0x00, 0x13, 0x29, 0x03, 0x1E];
    (tp, h)
}

#[test]
fn words_are_little_endian() {
    assert_eq!(u16_from_le(0x70, 0x6B), 27504);
    assert_eq!(u16_from_le(0xFF, 0xFF), 65535);
    assert_eq!(i16_from_le(0x43, 0x67), 26435);
    assert_eq!(i16_from_le(0x18, 0xFC), -1000);
    assert_eq!(i16_from_le(0x00, 0x80), -32768);
    assert_eq!(i16_from_le(0xFF, 0x7F), 32767);
    assert_eq!(i8_from_byte(0x7F), 127);
    assert_eq!(i8_from_byte(0x80), -128);
}

#[test]
fn twelve_bit_numbers_are_sign_extended() {
    assert_eq!(i12_from_parts(0x13, 0x9), 0x139);
    assert_eq!(i12_from_parts(0x7F, 0xF), 2047);
    assert_eq!(i12_from_parts(0x80, 0x0), -2048);
    assert_eq!(i12_from_parts(0xFF, 0xF), -1);
}

#[test]
fn block_becomes_array() {
    let array: [u8; 3] = to_array(&vec![7, 8, 9]);
    assert_eq!(array, [7, 8, 9]);
}

#[test]
fn parse_reads_every_parameter() {
    let (tp, h) = blocks();
    let calibration = Bme280Calibration::parse(&tp, &h);
    assert_eq!(
        calibration,
        Bme280Calibration {
            t1: 27504,
            t2: 26435,
            t3: -1000,
            p1: 36477,
            p2: -10685,
            p3: 3024,
            p4: 2855,
            p5: 140,
            p6: -7,
            p7: 15500,
            p8: -14600,
            p9: 6000,
            h1: 75,
            h2: 362,
            h3: 0,
            h4: 313,
            h5: 50,
            h6: 30,
        }
    );
}

#[test]
fn parse_sign_extends_the_humidity_parameters() {
    let tp = [0u8; 26];
    let calibration = Bme280Calibration::parse(&tp, &[0xFF, 0xFF, 0xFF, 0x80, 0x5A, 0xFF, 0xFF]);
    assert_eq!(calibration.h2, -1);
    assert_eq!(calibration.h3, 255);
    assert_eq!(calibration.h4, -2048 + 0xA);
    assert_eq!(calibration.h5, -16 + 5);
    assert_eq!(calibration.h6, -1);
}

#[test]
fn parse_depends_on_every_byte_but_the_reserved_one() {
    let (tp, h) = blocks();
    let calibration = Bme280Calibration::parse(&tp, &h);
    for i in 0..26 {
        let mut changed = tp;
        changed[i] ^= 0x10;
        assert_eq!(Bme280Calibration::parse(&changed, &h) == calibration, i == 24);
    }
    for i in 0..7 {
        let mut changed = h;
        changed[i] ^= 0x01;
        assert_ne!(Bme280Calibration::parse(&tp, &changed), calibration);
    }
}

#[test]
fn sample_is_unpacked() {
    let sample = RawSample::unpack(&[0x65, 0x5A, 0xC0, 0x7E, 0xED, 0x00, 0x6E, 0x93]);
    assert_eq!(sample, RawSample { adc_p: 415148, adc_t: 519888, adc_h: 28307 });
    let highest = RawSample::unpack(&[0xFF; 8]);
    assert_eq!(highest, RawSample { adc_p: 0xF_FFFF, adc_t: 0xF_FFFF, adc_h: 0xFFFF });
    let lowest = RawSample::unpack(&[0x00; 8]);
    assert_eq!(lowest, RawSample { adc_p: 0, adc_t: 0, adc_h: 0 });
}

#[test]
fn sample_leaves_out_the_low_nibbles() {
    let sample = RawSample::unpack(&[1, 2, 0x30, 4, 5, 0x60, 7, 8]);
    assert_eq!(RawSample::unpack(&[1, 2, 0x3F, 4, 5, 0x6F, 7, 8]), sample);
    assert_ne!(RawSample::unpack(&[1, 2, 0x40, 4, 5, 0x60, 7, 8]), sample);
    assert_ne!(RawSample::unpack(&[1, 2, 0x30, 4, 5, 0x60, 7, 9]), sample);
}

#[test]
fn acceleration_is_unpacked() {
    let sample = RawAcceleration::unpack(&[0x80, 0x3E, 0xF0, 0xFF, 0x00, 0x80]);
    assert_eq!(sample, RawAcceleration { x: 1000, y: -1, z: -2048 });
    let sample = RawAcceleration::unpack(&[0xF0, 0x7F, 0x10, 0x00, 0x00, 0x00]);
    assert_eq!(sample, RawAcceleration { x: 2047, y: 1, z: 0 });
}

#[test]
fn acceleration_leaves_out_the_low_nibbles() {
    let sample = RawAcceleration::unpack(&[0x80, 0x3E, 0xF0, 0xFF, 0x00, 0x80]);
    assert_eq!(RawAcceleration::unpack(&[0x8F, 0x3E, 0xFF, 0xFF, 0x0F, 0x80]), sample);
    assert_ne!(RawAcceleration::unpack(&[0x90, 0x3E, 0xF0, 0xFF, 0x00, 0x80]), sample);
}

#[test]
fn zero_divisor_is_invalid_data() {
    assert_eq!(compensated(Some(21.5f32)), Ok(21.5f32));
    assert_eq!(compensated::<u8>(None), Err(SensorError::InvalidData));
}

#[test]
fn fault_is_a_bus_error() {
    assert_eq!(SensorError::from(env_sense::Fault), SensorError::BusError);
}
