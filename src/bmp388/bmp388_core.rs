//! Registers of the BMP388: what is written to them and how what is read
//! from them is decoded.
use crate::bmp388::bmp388_enums::{
    Bmp388FifoDataFiltered,
    Bmp388FifoStopOnFull,
    Bmp388FifoWithPressureData,
    Bmp388FifoWithSensorTime,
    Bmp388FifoWithTemperatureData,
    Bmp388OverSamplingPr,
    Bmp388OverSamplingTp,
    Bmp388SensorPowerMode,
    Bmp388StatusCommandDecoder,
    Bmp388StatusPressureData,
    Bmp388StatusPressureSensor,
    Bmp388StatusTemperatureData,
    Bmp388StatusTemperatureSensor,
};
use crate::bring_up::ChipProfile;
use crate::fields::{assemble_le24, i16_at, i8_at, le24, signed_byte, signed_le16, u16_at, unsigned_le16};
use vstd::prelude::*;

verus! {

/// Content of the identity register.
pub const BMP388_CHIP_ID: u8 = 0x50;

/// Bytes of the calibration block.
pub const BMP388_LEN_TRIMMING_COEFFICIENTS: usize = 21;

/// Bytes of the pressure and temperature data registers together.
pub const BMP388_LEN_DATA: usize = 6;

/// Bytes of one sample.
pub const BMP388_LEN_SAMPLE: usize = 3;

pub const BMP388_REG_CHIP_ID: u8 = 0x00;

pub const BMP388_REG_STATUS: u8 = 0x03;

pub const BMP388_REG_PRESSURE_DATA: u8 = 0x04;

pub const BMP388_REG_TEMPERATURE_DATA: u8 = 0x07;

pub const BMP388_REG_INT_STATUS: u8 = 0x11;

pub const BMP388_REG_FIFO_LENGTH: u8 = 0x12;

pub const BMP388_REG_FIFO_DATA: u8 = 0x14;

pub const BMP388_REG_FIFO_WATERMARK: u8 = 0x15;

pub const BMP388_REG_FIFO_CONFIG_1: u8 = 0x17;

pub const BMP388_REG_FIFO_CONFIG_2: u8 = 0x18;

pub const BMP388_REG_POWER_CONTROL: u8 = 0x1b;

pub const BMP388_REG_OVERSAMPLING_RATE: u8 = 0x1c;

pub const BMP388_REG_OUTPUT_DATA_RATE: u8 = 0x1d;

pub const BMP388_REG_CONFIG: u8 = 0x1f;

pub const BMP388_REG_TRIMMING_COEFFICIENTS: u8 = 0x31;

pub const BMP388_REG_CMD: u8 = 0x7e;

pub const BMP388_CMD_FIFO_FLUSH: u8 = 0xb0;

pub const BMP388_CMD_SOFT_RESET: u8 = 0xb6;

/// Settle time after a soft reset, in milliseconds.
pub const BMP388_STARTUP_DELAY_MS: u32 = 2;

/// FIFO configuration 1 value that switches the FIFO off.
pub const BMP388_FIFO_DISABLED: u8 = 0x00;

/// Interrupt status flag: a new sample is ready.
pub const BMP388_INT_STATUS_DATA_READY_BIT: u8 = 0x08;

/// The bring-up parameters of the BMP388.
pub fn bmp388_profile() -> (r: ChipProfile)
    ensures
        r.id_register == BMP388_REG_CHIP_ID,
        r.chip_id == BMP388_CHIP_ID,
        r.reset_register == BMP388_REG_CMD,
        r.reset_command == BMP388_CMD_SOFT_RESET,
        r.settle_ms == BMP388_STARTUP_DELAY_MS,
{
    ChipProfile {
        id_register: BMP388_REG_CHIP_ID,
        chip_id: BMP388_CHIP_ID,
        reset_register: BMP388_REG_CMD,
        reset_command: BMP388_CMD_SOFT_RESET,
        settle_ms: BMP388_STARTUP_DELAY_MS,
    }
}

/// Power control register: pressure sensor on (bit 0), temperature sensor
/// on (bit 1), and the power mode in bits 4..5.
pub open spec fn power_control(
    mode: Bmp388SensorPowerMode,
    pressure: Bmp388StatusPressureSensor,
    temperature: Bmp388StatusTemperatureSensor,
) -> int {
    mode.code() * 16 + temperature.code() * 2 + pressure.code()
}

pub fn power_control_value(
    mode: Bmp388SensorPowerMode,
    pressure: Bmp388StatusPressureSensor,
    temperature: Bmp388StatusTemperatureSensor,
) -> (r: u8)
    ensures
        r == power_control(mode, pressure, temperature),
{
    let m = mode.value();
    let t = temperature.value();
    let p = pressure.value();
    let r = m << 4 | t << 1 | p;
    assert(m <= 3 && t <= 1 && p <= 1 ==> m << 4 | t << 1 | p == m * 16 + t * 2 + p)
        by (bit_vector);
    r
}

/// The power mode and sensor switches that a power control value holds.
pub open spec fn power_control_fields(reg: u8) -> (
    Bmp388SensorPowerMode,
    Bmp388StatusPressureSensor,
    Bmp388StatusTemperatureSensor,
) {
    (
        Bmp388SensorPowerMode::of_bits(reg as int / 16),
        if reg % 2 == 1 {
            Bmp388StatusPressureSensor::Enabled
        } else {
            Bmp388StatusPressureSensor::Disabled
        },
        if (reg / 2) % 2 == 1 {
            Bmp388StatusTemperatureSensor::Enabled
        } else {
            Bmp388StatusTemperatureSensor::Disabled
        },
    )
}

pub fn decode_power_control(reg: u8) -> (r: (
    Bmp388SensorPowerMode,
    Bmp388StatusPressureSensor,
    Bmp388StatusTemperatureSensor,
))
    ensures
        r == power_control_fields(reg),
{
    assert(reg & 0x1 == reg % 2 && reg & 0x2 == ((reg / 2) % 2) * 2 && reg >> 4 == reg / 16)
        by (bit_vector);
    let pressure = if reg & 0x1 != 0 {
        Bmp388StatusPressureSensor::Enabled
    } else {
        Bmp388StatusPressureSensor::Disabled
    };
    let temperature = if reg & 0x2 != 0 {
        Bmp388StatusTemperatureSensor::Enabled
    } else {
        Bmp388StatusTemperatureSensor::Disabled
    };
    (Bmp388SensorPowerMode::from_bits(reg >> 4), pressure, temperature)
}

/// Reading back a power control value gives the mode and switches that were
/// written.
pub proof fn lemma_power_control_round_trip(
    mode: Bmp388SensorPowerMode,
    pressure: Bmp388StatusPressureSensor,
    temperature: Bmp388StatusTemperatureSensor,
)
    ensures
        power_control_fields(power_control(mode, pressure, temperature) as u8) == (
            mode,
            pressure,
            temperature,
        ),
{
}

/// Power mode and sensor switches of the chip.
#[derive(Clone, Copy, Debug, PartialEq, Eq, Structural)]
pub struct DeviceMode {
    pub power: Bmp388SensorPowerMode,
    pub pressure: Bmp388StatusPressureSensor,
    pub temperature: Bmp388StatusTemperatureSensor,
}

/// The mode that a power control value holds.
pub open spec fn device_mode_of(reg: u8) -> DeviceMode {
    DeviceMode {
        power: power_control_fields(reg).0,
        pressure: power_control_fields(reg).1,
        temperature: power_control_fields(reg).2,
    }
}

/// What the driver knows of the chip's mode. Forced mode ends by itself
/// after one conversion, so after forced mode is written the mode is unknown
/// until it is read back from the chip.
#[derive(Clone, Copy, Debug, PartialEq, Eq, Structural)]
pub struct ModeTracker {
    pub known: Option<DeviceMode>,
}

impl ModeTracker {
    /// After reset the chip sleeps with both sensors off.
    pub fn after_reset() -> (r: ModeTracker)
        ensures
            r.known == Some(
                DeviceMode {
                    power: Bmp388SensorPowerMode::Sleep,
                    pressure: Bmp388StatusPressureSensor::Disabled,
                    temperature: Bmp388StatusTemperatureSensor::Disabled,
                },
            ),
    {
        ModeTracker {
            known: Some(
                DeviceMode {
                    power: Bmp388SensorPowerMode::Sleep,
                    pressure: Bmp388StatusPressureSensor::Disabled,
                    temperature: Bmp388StatusTemperatureSensor::Disabled,
                },
            ),
        }
    }

    /// Records a successful write of the power control register.
    pub fn written(&mut self, mode: DeviceMode)
        ensures
            final(self).known == if mode.power == Bmp388SensorPowerMode::Forced {
                None
            } else {
                Some(mode)
            },
    {
        self.known = match mode.power {
            Bmp388SensorPowerMode::Forced => None,
            _ => Some(mode),
        };
    }

    /// Records the power control register as read back from the chip.
    pub fn read_back(&mut self, reg: u8)
        ensures
            final(self).known == Some(device_mode_of(reg)),
    {
        let (power, pressure, temperature) = decode_power_control(reg);
        self.known = Some(DeviceMode { power, pressure, temperature });
    }

    /// Whether the mode has to be read from the chip before it is relied on.
    pub fn needs_read_back(&self) -> (r: bool)
        ensures
            r == (self.known is None),
    {
        self.known.is_none()
    }
}

/// Oversampling register: temperature in bits 3..5, pressure in bits 0..2.
pub open spec fn oversampling(osr_p: Bmp388OverSamplingPr, osr_t: Bmp388OverSamplingTp) -> int {
    osr_t.code() * 8 + osr_p.code()
}

pub fn oversampling_value(osr_p: Bmp388OverSamplingPr, osr_t: Bmp388OverSamplingTp) -> (r: u8)
    ensures
        r == oversampling(osr_p, osr_t),
{
    let t = osr_t.value();
    let p = osr_p.value();
    assert(t < 8 && p < 8 ==> t << 3 | p == t * 8 + p) by (bit_vector);
    t << 3 | p
}

/// The three flags of the status register.
pub open spec fn status_fields(reg: u8) -> (
    Bmp388StatusCommandDecoder,
    Bmp388StatusPressureData,
    Bmp388StatusTemperatureData,
) {
    (
        if reg & 0x10 != 0 {
            Bmp388StatusCommandDecoder::Ready
        } else {
            Bmp388StatusCommandDecoder::NotReady
        },
        if reg & 0x20 != 0 {
            Bmp388StatusPressureData::Ready
        } else {
            Bmp388StatusPressureData::NotReady
        },
        if reg & 0x40 != 0 {
            Bmp388StatusTemperatureData::Ready
        } else {
            Bmp388StatusTemperatureData::NotReady
        },
    )
}

pub fn decode_status(reg: u8) -> (r: (
    Bmp388StatusCommandDecoder,
    Bmp388StatusPressureData,
    Bmp388StatusTemperatureData,
))
    ensures
        r == status_fields(reg),
{
    let cmd = if reg & 0x10 != 0 {
        Bmp388StatusCommandDecoder::Ready
    } else {
        Bmp388StatusCommandDecoder::NotReady
    };
    let pressure = if reg & 0x20 != 0 {
        Bmp388StatusPressureData::Ready
    } else {
        Bmp388StatusPressureData::NotReady
    };
    let temperature = if reg & 0x40 != 0 {
        Bmp388StatusTemperatureData::Ready
    } else {
        Bmp388StatusTemperatureData::NotReady
    };
    (cmd, pressure, temperature)
}

/// Whether the interrupt status announces a new sample.
pub fn int_status_data_ready(int_status: u8) -> (r: bool)
    ensures
        r == (int_status & BMP388_INT_STATUS_DATA_READY_BIT != 0),
{
    int_status & BMP388_INT_STATUS_DATA_READY_BIT != 0
}

/// FIFO configuration 1: FIFO on (bit 0), stop on full (bit 1), sensor time
/// (bit 2), pressure (bit 3), temperature (bit 4).
pub open spec fn fifo_config_1(
    stop_on_full: Bmp388FifoStopOnFull,
    with_pressure: Bmp388FifoWithPressureData,
    with_temperature: Bmp388FifoWithTemperatureData,
    with_sensor_time: Bmp388FifoWithSensorTime,
) -> int {
    with_temperature.code() * 16 + with_pressure.code() * 8 + with_sensor_time.code() * 4
        + stop_on_full.code() * 2 + 1
}

pub fn fifo_config_1_value(
    stop_on_full: Bmp388FifoStopOnFull,
    with_pressure: Bmp388FifoWithPressureData,
    with_temperature: Bmp388FifoWithTemperatureData,
    with_sensor_time: Bmp388FifoWithSensorTime,
) -> (r: u8)
    ensures
        r == fifo_config_1(stop_on_full, with_pressure, with_temperature, with_sensor_time),
{
    let t = with_temperature.value();
    let p = with_pressure.value();
    let s = with_sensor_time.value();
    let f = stop_on_full.value();
    assert(t <= 1 && p <= 1 && s <= 1 && f <= 1 ==> t << 4 | p << 3 | s << 2 | f << 1 | 1u8 == t
        * 16 + p * 8 + s * 4 + f * 2 + 1) by (bit_vector);
    t << 4 | p << 3 | s << 2 | f << 1 | 1u8
}

/// The subsampling exponent as written: negative requests write zero.
pub open spec fn subsampling_bits(subsampling: i8) -> u8 {
    if subsampling < 0 {
        0
    } else {
        subsampling as u8
    }
}

/// FIFO configuration 2: the data source select bit (bit 3, filtered or
/// not) combined with the subsampling exponent.
pub open spec fn fifo_config_2(data_filtered: Bmp388FifoDataFiltered, subsampling: i8) -> u8 {
    ((data_filtered.code() * 8) as u8) | subsampling_bits(subsampling)
}

pub fn fifo_config_2_value(data_filtered: Bmp388FifoDataFiltered, subsampling: i8) -> (r: u8)
    ensures
        r == fifo_config_2(data_filtered, subsampling),
{
    let sub: u8 = if subsampling < 0 {
        0
    } else {
        subsampling as u8
    };
    let f = data_filtered.value();
    assert(f <= 1 ==> f << 3 == (f * 8) as u8) by (bit_vector);
    (f << 3) | sub
}

/// Uncompensated pressure and temperature samples.
#[derive(Clone, Copy, Debug, PartialEq, Eq, Structural)]
pub struct DataRaw {
    pub pressure: u32,
    pub temperature: u32,
}

impl Default for DataRaw {
    fn default() -> (r: Self)
        ensures
            r.pressure == 0 && r.temperature == 0,
    {
        DataRaw { pressure: 0, temperature: 0 }
    }
}

/// The sample that three data register bytes hold, least significant first.
pub fn sample_from_bytes(bytes: &[u8]) -> (r: u32)
    requires
        bytes@.len() == BMP388_LEN_SAMPLE,
    ensures
        r == le24(bytes@[0], bytes@[1], bytes@[2]),
{
    assemble_le24(bytes[0], bytes[1], bytes[2])
}

/// Both samples from the six data register bytes: pressure first.
pub fn data_raw_from_bytes(bytes: &[u8]) -> (r: DataRaw)
    requires
        bytes@.len() == BMP388_LEN_DATA,
    ensures
        r.pressure == le24(bytes@[0], bytes@[1], bytes@[2]),
        r.temperature == le24(bytes@[3], bytes@[4], bytes@[5]),
{
    let pressure = assemble_le24(bytes[0], bytes[1], bytes[2]);
    let temperature = assemble_le24(bytes[3], bytes[4], bytes[5]);
    DataRaw { pressure, temperature }
}

/// The calibration coefficients as the chip stores them, before scaling.
#[derive(Clone, Copy, Debug, PartialEq, Eq, Structural)]
pub struct Bmp388CalibRaw {
    pub par_t1: u16,
    pub par_t2: u16,
    pub par_t3: i8,
    pub par_p1: i16,
    pub par_p2: i16,
    pub par_p3: i8,
    pub par_p4: i8,
    pub par_p5: u16,
    pub par_p6: u16,
    pub par_p7: i8,
    pub par_p8: i8,
    pub par_p9: i16,
    pub par_p10: i8,
    pub par_p11: i8,
}

/// The coefficients that the calibration block holds.
pub open spec fn bmp388_calibration(b: Seq<u8>) -> Bmp388CalibRaw {
    Bmp388CalibRaw {
        par_t1: u16_at(b, 0) as u16,
        par_t2: u16_at(b, 2) as u16,
        par_t3: i8_at(b, 4) as i8,
        par_p1: i16_at(b, 5) as i16,
        par_p2: i16_at(b, 7) as i16,
        par_p3: i8_at(b, 9) as i8,
        par_p4: i8_at(b, 10) as i8,
        par_p5: u16_at(b, 11) as u16,
        par_p6: u16_at(b, 13) as u16,
        par_p7: i8_at(b, 15) as i8,
        par_p8: i8_at(b, 16) as i8,
        par_p9: i16_at(b, 17) as i16,
        par_p10: i8_at(b, 19) as i8,
        par_p11: i8_at(b, 20) as i8,
    }
}

/// Decodes the calibration block.
pub fn decode_calibration(block: &[u8]) -> (r: Bmp388CalibRaw)
    requires
        block@.len() == BMP388_LEN_TRIMMING_COEFFICIENTS,
    ensures
        r == bmp388_calibration(block@),
{
    Bmp388CalibRaw {
        par_t1: unsigned_le16(block, 0),
        par_t2: unsigned_le16(block, 2),
        par_t3: signed_byte(block, 4),
        par_p1: signed_le16(block, 5),
        par_p2: signed_le16(block, 7),
        par_p3: signed_byte(block, 9),
        par_p4: signed_byte(block, 10),
        par_p5: unsigned_le16(block, 11),
        par_p6: unsigned_le16(block, 13),
        par_p7: signed_byte(block, 15),
        par_p8: signed_byte(block, 16),
        par_p9: signed_le16(block, 17),
        par_p10: signed_byte(block, 19),
        par_p11: signed_byte(block, 20),
    }
}

/// Decoding depends on the block's bytes alone: two decodings of the same
/// bytes give the same coefficients.
pub proof fn lemma_calibration_decoding_repeatable(a: Seq<u8>, b: Seq<u8>)
    requires
        a.len() == BMP388_LEN_TRIMMING_COEFFICIENTS,
        a == b,
    ensures
        bmp388_calibration(a) == bmp388_calibration(b),
{
}

} // verus!
