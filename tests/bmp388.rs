use i2c_sensors::bme388::{BME388OverSamplingPr, RawData};
use i2c_sensors::bmp388::bmp388_core::{
    bmp388_profile, data_raw_from_bytes, decode_calibration, decode_power_control, decode_status,
    fifo_config_1_value, fifo_config_2_value, int_status_data_ready, oversampling_value,
    power_control_value, sample_from_bytes, DataRaw, DeviceMode, ModeTracker,
};
use i2c_sensors::bmp388::bmp388_enums::{
    Bmp388DeviceAddress, Bmp388FifoDataFiltered, Bmp388FifoStopOnFull, Bmp388FifoWithPressureData,
    Bmp388FifoWithSensorTime, Bmp388FifoWithTemperatureData, Bmp388IrrFilter,
    Bmp388OutputDataRate, Bmp388OverSamplingPr, Bmp388OverSamplingTp, Bmp388SensorPowerMode,
    Bmp388StatusCommandDecoder, Bmp388StatusPressureData, Bmp388StatusPressureSensor,
    Bmp388StatusTemperatureData, Bmp388StatusTemperatureSensor,
};

#[test]
fn enum_register_values() {
    assert_eq!(Bmp388DeviceAddress::default().value(), 0x77);
    assert_eq!(Bmp388DeviceAddress::Secondary.value(), 0x76);
    assert_eq!(Bmp388SensorPowerMode::Normal.value(), 0x03);
    assert_eq!(Bmp388OverSamplingPr::HighestX32.value(), 0x05);
    assert_eq!(Bmp388OverSamplingTp::X8.value(), 0x03);
    assert_eq!(Bmp388OutputDataRate::Rx0_0015Hz.value(), 0x11);
    assert_eq!(Bmp388OutputDataRate::Ex12_5Hz.value(), 0x04);
    assert_eq!(Bmp388IrrFilter::Coef127.value(), 0x07);
    assert_eq!(Bmp388FifoDataFiltered::Filtered.value(), 1);
    assert_eq!(BME388OverSamplingPr::HighX8.value(), 0x03);
}

#[test]
fn power_control_encoding() {
    let v = power_control_value(
        Bmp388SensorPowerMode::Normal,
        Bmp388StatusPressureSensor::Enabled,
        Bmp388StatusTemperatureSensor::Enabled,
    );
    assert_eq!(v, 0x33);
    let v = power_control_value(
        Bmp388SensorPowerMode::Forced,
        Bmp388StatusPressureSensor::Enabled,
        Bmp388StatusTemperatureSensor::Disabled,
    );
    assert_eq!(v, 0x11);
}

#[test]
fn power_control_reads_back_what_was_written() {
    let modes = [Bmp388SensorPowerMode::Sleep, Bmp388SensorPowerMode::Forced, Bmp388SensorPowerMode::Normal];
    let ps = [Bmp388StatusPressureSensor::Disabled, Bmp388StatusPressureSensor::Enabled];
    let ts = [Bmp388StatusTemperatureSensor::Disabled, Bmp388StatusTemperatureSensor::Enabled];
    for m in modes {
        for p in ps {
            for t in ts {
                assert_eq!(decode_power_control(power_control_value(m, p, t)), (m, p, t));
            }
        }
    }
}

#[test]
fn power_control_decoding_of_intermediate_mode_bits() {
    let (m, p, t) = decode_power_control(0x22);
    assert_eq!(m, Bmp388SensorPowerMode::Forced);
    assert_eq!(p, Bmp388StatusPressureSensor::Disabled);
    assert_eq!(t, Bmp388StatusTemperatureSensor::Enabled);
    assert_eq!(decode_power_control(0xf0).0, Bmp388SensorPowerMode::Normal);
}

#[test]
fn status_flags() {
    assert_eq!(
        decode_status(0x70),
        (Bmp388StatusCommandDecoder::Ready, Bmp388StatusPressureData::Ready, Bmp388StatusTemperatureData::Ready)
    );
    assert_eq!(
        decode_status(0x20),
        (Bmp388StatusCommandDecoder::NotReady, Bmp388StatusPressureData::Ready, Bmp388StatusTemperatureData::NotReady)
    );
    assert!(int_status_data_ready(0x08));
    assert!(!int_status_data_ready(0xf7));
}

#[test]
fn oversampling_register() {
    assert_eq!(oversampling_value(Bmp388OverSamplingPr::HighestX32, Bmp388OverSamplingTp::X2), 0x0d);
    assert_eq!(oversampling_value(Bmp388OverSamplingPr::UltraLowX1, Bmp388OverSamplingTp::X1), 0x00);
}

#[test]
fn fifo_configuration_registers() {
    let c1 = fifo_config_1_value(
        Bmp388FifoStopOnFull::Enabled,
        Bmp388FifoWithPressureData::Enabled,
        Bmp388FifoWithTemperatureData::Enabled,
        Bmp388FifoWithSensorTime::Enabled,
    );
    assert_eq!(c1, 0x1f);
    let c1 = fifo_config_1_value(
        Bmp388FifoStopOnFull::Disabled,
        Bmp388FifoWithPressureData::Enabled,
        Bmp388FifoWithTemperatureData::Disabled,
        Bmp388FifoWithSensorTime::Disabled,
    );
    assert_eq!(c1, 0x09);
    assert_eq!(fifo_config_2_value(Bmp388FifoDataFiltered::Filtered, -3), 0x08);
    assert_eq!(fifo_config_2_value(Bmp388FifoDataFiltered::Filtered, 2), 0x0a);
    assert_eq!(fifo_config_2_value(Bmp388FifoDataFiltered::Unfiltered, 5), 0x05);
}

#[test]
fn raw_samples() {
    let bytes = [0x56u8, 0x34, 0x12, 0x03, 0x02, 0x01];
    let d: DataRaw = data_raw_from_bytes(&bytes);
    assert_eq!(d.pressure, 0x123456);
    assert_eq!(d.temperature, 0x010203);
    assert_eq!(sample_from_bytes(&bytes[3..6]), 0x010203);
    let r: RawData = RawData::default();
    assert_eq!((r.pressure, r.temperature), (0, 0));
}

fn calibration_fixture() -> [u8; 21] {
    [
        0x70, 0x6b, // t1 = 27504
        0x43, 0x67, // t2 = 26435
        0xf6, // t3 = -10
        0x00, 0x80, // p1 = -32768
        0xff, 0x7f, // p2 = 32767
        0x01, // p3 = 1
        0x80, // p4 = -128
        0x34, 0x12, // p5 = 0x1234
        0xcd, 0xab, // p6 = 0xabcd
        0x7f, // p7 = 127
        0xff, // p8 = -1
        0x18, 0xfc, // p9 = -1000
        0x05, // p10 = 5
        0xfb, // p11 = -5
    ]
}

#[test]
fn calibration_block_decoding() {
    let c = decode_calibration(&calibration_fixture());
    assert_eq!(c.par_t1, 27504);
    assert_eq!(c.par_t2, 26435);
    assert_eq!(c.par_t3, -10);
    assert_eq!(c.par_p1, -32768);
    assert_eq!(c.par_p2, 32767);
    assert_eq!(c.par_p3, 1);
    assert_eq!(c.par_p4, -128);
    assert_eq!(c.par_p5, 0x1234);
    assert_eq!(c.par_p6, 0xabcd);
    assert_eq!(c.par_p7, 127);
    assert_eq!(c.par_p8, -1);
    assert_eq!(c.par_p9, -1000);
    assert_eq!(c.par_p10, 5);
    assert_eq!(c.par_p11, -5);
}

#[test]
fn calibration_decoding_twice_gives_identical_sets() {
    let block = calibration_fixture();
    assert_eq!(decode_calibration(&block), decode_calibration(&block));
}

#[test]
fn bmp388_bring_up_parameters() {
    let p = bmp388_profile();
    assert_eq!((p.id_register, p.chip_id, p.reset_register, p.reset_command, p.settle_ms), (0x00, 0x50, 0x7e, 0xb6, 2));
}

#[test]
fn forced_mode_must_be_read_back() {
    let mut t = ModeTracker::after_reset();
    assert!(!t.needs_read_back());
    assert_eq!(t.known.unwrap().power, Bmp388SensorPowerMode::Sleep);
    t.written(DeviceMode {
        power: Bmp388SensorPowerMode::Forced,
        pressure: Bmp388StatusPressureSensor::Enabled,
        temperature: Bmp388StatusTemperatureSensor::Enabled,
    });
    assert!(t.needs_read_back());
    t.read_back(0x03);
    assert_eq!(
        t.known,
        Some(DeviceMode {
            power: Bmp388SensorPowerMode::Sleep,
            pressure: Bmp388StatusPressureSensor::Enabled,
            temperature: Bmp388StatusTemperatureSensor::Enabled,
        })
    );
    let normal = DeviceMode {
        power: Bmp388SensorPowerMode::Normal,
        pressure: Bmp388StatusPressureSensor::Enabled,
        temperature: Bmp388StatusTemperatureSensor::Disabled,
    };
    t.written(normal);
    assert_eq!(t.known, Some(normal));
}
