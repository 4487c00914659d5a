use i2c_sensors::bme280::{
    compensate_temperature_fixed, decode_calibration, mode_ctrl_meas, mode_of_ctrl_meas,
    oversampling_ctrl_meas, raw_data_from_bytes, sensor_config_value, status_measuring,
    t_fine_fixed, Bme280CalibRaw, Bme280DeviceAddress, Bme280IrrFilter, Bme280OverSampling,
    Bme280SensorMode, Bme280Spi3w, Bme280TimeStandby,
};

fn tp_block() -> [u8; 26] {
    let mut b = [0u8; 26];
    let words: [u16; 12] = [27504, 26435, 0xfc18, 36477, 0xd6d0, 3024, 2855, 140, 0xfff9, 15500, 0xc5f8, 6000];
    for (i, w) in words.iter().enumerate() {
        b[2 * i] = (*w & 0xff) as u8;
        b[2 * i + 1] = (*w >> 8) as u8;
    }
    b[24] = 0x00;
    b[25] = 75;
    b
}

fn h_block() -> [u8; 7] {
    [0x6a, 0x01, 0x00, 0x14, 0x2d, 0x03, 0x1e]
}

#[test]
fn calibration_blocks_decoding() {
    let c = decode_calibration(&tp_block(), &h_block());
    assert_eq!(c.dig_t1, 27504);
    assert_eq!(c.dig_t2, 26435);
    assert_eq!(c.dig_t3, -1000);
    assert_eq!(c.dig_p1, 36477);
    assert_eq!(c.dig_p2, -10544);
    assert_eq!(c.dig_p3, 3024);
    assert_eq!(c.dig_p6, -7);
    assert_eq!(c.dig_p7, 15500);
    assert_eq!(c.dig_p8, -14856);
    assert_eq!(c.dig_p9, 6000);
    assert_eq!(c.dig_h1, 75);
    assert_eq!(c.dig_h2, 362);
    assert_eq!(c.dig_h3, 0);
    assert_eq!(c.dig_h4, 0x14 * 16 + 0xd);
    assert_eq!(c.dig_h5, 0x03 * 16 + 0x2);
    assert_eq!(c.dig_h6, 30);
}

#[test]
fn negative_nibble_packed_humidity_coefficients() {
    let c = decode_calibration(&tp_block(), &[0, 0, 0, 0xff, 0xf1, 0xfe, 0xff]);
    assert_eq!(c.dig_h4, -16 + 1);
    assert_eq!(c.dig_h5, -32 + 15);
    assert_eq!(c.dig_h6, -1);
}

fn temperature_calib(t1: u16, t2: i16, t3: i16) -> Bme280CalibRaw {
    let mut c = decode_calibration(&tp_block(), &h_block());
    c.dig_t1 = t1;
    c.dig_t2 = t2;
    c.dig_t3 = t3;
    c
}

#[test]
fn fixed_point_temperature_datasheet_example() {
    let c = temperature_calib(27504, 26435, -1000);
    assert_eq!(t_fine_fixed(519888, &c), 128422);
    assert_eq!(compensate_temperature_fixed(519888, &c), (128422, 2508));
}

#[test]
fn fixed_point_temperature_is_held_to_range() {
    let hot = temperature_calib(0, 32767, 0);
    assert_eq!(compensate_temperature_fixed(0xfffff, &hot), (2097072, 8500));
    let cold = temperature_calib(0, -32768, 0);
    assert_eq!(compensate_temperature_fixed(0xfffff, &cold), (-2097136, -4000));
}

#[test]
fn register_values() {
    assert_eq!(Bme280DeviceAddress::default().value(), 0x77);
    assert_eq!(Bme280TimeStandby::Ms10.value(), 0x06);
    assert_eq!(Bme280TimeStandby::Ms62_5.value(), 0x01);
    assert_eq!(Bme280OverSampling::OversamplingMax.value(), 0x06);
    assert_eq!(oversampling_ctrl_meas(0x03, Bme280OverSampling::Oversampling16x, Bme280OverSampling::Oversampling2x), 87);
    assert_eq!(oversampling_ctrl_meas(0xff, Bme280OverSampling::NoOversampling, Bme280OverSampling::NoOversampling), 0x03);
    assert_eq!(sensor_config_value(Bme280TimeStandby::Ms10, Bme280IrrFilter::Filter16x, Bme280Spi3w::Enable), 209);
}

#[test]
fn sensor_mode_in_ctrl_meas() {
    assert_eq!(mode_ctrl_meas(0xb7, Bme280SensorMode::Bme280PowerModeSleep), 0xb4);
    assert_eq!(mode_ctrl_meas(0xb4, Bme280SensorMode::Bme280PowerModeNormal), 0xb7);
    assert_eq!(mode_of_ctrl_meas(0x26), Bme280SensorMode::Bme280PowerModeForced);
    assert_eq!(mode_of_ctrl_meas(0x27), Bme280SensorMode::Bme280PowerModeNormal);
    assert_eq!(mode_of_ctrl_meas(mode_ctrl_meas(0x25, Bme280SensorMode::Bme280PowerModeSleep)), Bme280SensorMode::Bme280PowerModeSleep);
    assert!(status_measuring(0x08));
    assert!(!status_measuring(0x01));
}

#[test]
fn raw_data_layout() {
    let d = raw_data_from_bytes(&[0x65, 0x5a, 0xc0, 0x7e, 0xed, 0x00, 0x6f, 0x2a]);
    assert_eq!(d.pressure, 0x655ac);
    assert_eq!(d.temperature, 0x7eed0);
    assert_eq!(d.humidity, 0x6f2a);
}
