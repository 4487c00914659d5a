//! The BME280 pressure, temperature and humidity sensor: register values,
//! calibration decoding and the fixed-point temperature compensation.
use crate::bring_up::ChipProfile;
use crate::fields::{
    assemble_be20,
    be20,
    concat_bytes,
    nibble_packed_high,
    nibble_packed_low,
    i16_at,
    signed8,
    signed_byte,
    u16_at,
    signed_le16,
    unsigned_le16,
    word,
};
use vstd::prelude::*;

verus! {

pub const BME280_CHIP_ID: u8 = 0x60;

pub const BME280_LEN_TEMP_PRESS_CALIB_DATA: usize = 26;

pub const BME280_LEN_HUMIDITY_CALIB_DATA: usize = 7;

pub const BME280_LEN_P_T_H_DATA: usize = 8;

pub const BME280_STARTUP_DELAY_MS: u32 = 2;

pub const BME280_SOFT_RESET_COMMAND: u8 = 0xb6;

pub const BME280_REG_PART_ID: u8 = 0xd0;

pub const BME280_REG_RESET: u8 = 0xe0;

pub const BME280_REG_TEMP_PRESS_CALIB_DATA: u8 = 0x88;

pub const BME280_REG_HUMIDITY_CALIB_DATA: u8 = 0xe1;

pub const BME280_REG_CTRL_HUM: u8 = 0xf2;

pub const BME280_REG_STATUS: u8 = 0xf3;

pub const BME280_REG_CTRL_MEAS: u8 = 0xf4;

pub const BME280_REG_CONFIG: u8 = 0xf5;

pub const BME280_REG_DATA: u8 = 0xf7;

/// Status flag: a conversion is running.
pub const BME280_STATUS_MEASURING: u8 = 0x08;

/// Lowest and highest temperature reported, in hundredths of a degree
/// Celsius.
pub const BME280_TEMPERATURE_MIN_CENTI: i32 = -4000;

pub const BME280_TEMPERATURE_MAX_CENTI: i32 = 8500;

/// The bring-up parameters of the BME280.
pub fn bme280_profile() -> (r: ChipProfile)
    ensures
        r.id_register == BME280_REG_PART_ID,
        r.chip_id == BME280_CHIP_ID,
        r.reset_register == BME280_REG_RESET,
        r.reset_command == BME280_SOFT_RESET_COMMAND,
        r.settle_ms == BME280_STARTUP_DELAY_MS,
{
    ChipProfile {
        id_register: BME280_REG_PART_ID,
        chip_id: BME280_CHIP_ID,
        reset_register: BME280_REG_RESET,
        reset_command: BME280_SOFT_RESET_COMMAND,
        settle_ms: BME280_STARTUP_DELAY_MS,
    }
}

/// Bus address of the chip, chosen by its SDO pin.
#[derive(Clone, Copy, Debug, PartialEq, Eq, Structural)]
pub enum Bme280DeviceAddress {
    Default,
    Secondary,
}

impl Default for Bme280DeviceAddress {
    fn default() -> (r: Self)
        ensures
            r == Bme280DeviceAddress::Default,
    {
        Bme280DeviceAddress::Default
    }
}

impl Bme280DeviceAddress {
    pub open spec fn code(&self) -> u16 {
        match *self {
            Self::Default => 0x77,
            Self::Secondary => 0x76,
        }
    }

    pub fn value(&self) -> (r: u16)
        ensures
            r == self.code(),
    {
        match *self {
            Self::Default => 0x77,
            Self::Secondary => 0x76,
        }
    }
}

/// Power mode, bits 0..1 of the measurement control register.
#[derive(Clone, Copy, Debug, PartialEq, Eq, Structural)]
pub enum Bme280SensorMode {
    Bme280PowerModeSleep,
    Bme280PowerModeForced,
    Bme280PowerModeNormal,
}

impl Bme280SensorMode {
    pub open spec fn code(&self) -> u8 {
        match *self {
            Self::Bme280PowerModeSleep => 0x00,
            Self::Bme280PowerModeForced => 0x01,
            Self::Bme280PowerModeNormal => 0x03,
        }
    }

    /// The mode that the two mode bits stand for; both intermediate
    /// encodings read as forced mode.
    pub open spec fn of_bits(bits: int) -> Self {
        if bits == 0 {
            Self::Bme280PowerModeSleep
        } else if bits == 1 || bits == 2 {
            Self::Bme280PowerModeForced
        } else {
            Self::Bme280PowerModeNormal
        }
    }

    pub fn value(&self) -> (r: u8)
        ensures
            r == self.code(),
    {
        match *self {
            Self::Bme280PowerModeSleep => 0x00,
            Self::Bme280PowerModeForced => 0x01,
            Self::Bme280PowerModeNormal => 0x03,
        }
    }
}

/// Oversampling of one measurement; `NoOversampling` skips it.
#[derive(Clone, Copy, Debug, PartialEq, Eq, Structural)]
pub enum Bme280OverSampling {
    NoOversampling,
    Oversampling1x,
    Oversampling2x,
    Oversampling4x,
    Oversampling8x,
    Oversampling16x,
    OversamplingMax,
}

impl Bme280OverSampling {
    pub open spec fn code(&self) -> u8 {
        match *self {
            Self::NoOversampling => 0x00,
            Self::Oversampling1x => 0x01,
            Self::Oversampling2x => 0x02,
            Self::Oversampling4x => 0x03,
            Self::Oversampling8x => 0x04,
            Self::Oversampling16x => 0x05,
            Self::OversamplingMax => 0x06,
        }
    }

    pub fn value(&self) -> (r: u8)
        ensures
            r == self.code(),
            r < 8,
    {
        match *self {
            Self::NoOversampling => 0x00,
            Self::Oversampling1x => 0x01,
            Self::Oversampling2x => 0x02,
            Self::Oversampling4x => 0x03,
            Self::Oversampling8x => 0x04,
            Self::Oversampling16x => 0x05,
            Self::OversamplingMax => 0x06,
        }
    }
}

/// Standby time between conversions in normal mode.
#[derive(Clone, Copy, Debug, PartialEq, Eq, Structural)]
pub enum Bme280TimeStandby {
    Ms0_5,
    Ms10,
    Ms20,
    Ms62_5,
    Ms125,
    Ms250,
    Ms500,
    Ms1000,
}

impl Bme280TimeStandby {
    pub open spec fn code(&self) -> u8 {
        match *self {
            Self::Ms0_5 => 0x00,
            Self::Ms62_5 => 0x01,
            Self::Ms125 => 0x02,
            Self::Ms250 => 0x03,
            Self::Ms500 => 0x04,
            Self::Ms1000 => 0x05,
            Self::Ms10 => 0x06,
            Self::Ms20 => 0x07,
        }
    }

    pub fn value(&self) -> (r: u8)
        ensures
            r == self.code(),
            r < 8,
    {
        match *self {
            Self::Ms0_5 => 0x00,
            Self::Ms62_5 => 0x01,
            Self::Ms125 => 0x02,
            Self::Ms250 => 0x03,
            Self::Ms500 => 0x04,
            Self::Ms1000 => 0x05,
            Self::Ms10 => 0x06,
            Self::Ms20 => 0x07,
        }
    }
}

/// Coefficient of the infinite impulse response filter.
#[derive(Clone, Copy, Debug, PartialEq, Eq, Structural)]
pub enum Bme280IrrFilter {
    FilterOff,
    Filter2x,
    Filter4x,
    Filter8x,
    Filter16x,
}

impl Bme280IrrFilter {
    pub open spec fn code(&self) -> u8 {
        match *self {
            Self::FilterOff => 0x00,
            Self::Filter2x => 0x01,
            Self::Filter4x => 0x02,
            Self::Filter8x => 0x03,
            Self::Filter16x => 0x04,
        }
    }

    pub fn value(&self) -> (r: u8)
        ensures
            r == self.code(),
            r < 8,
    {
        match *self {
            Self::FilterOff => 0x00,
            Self::Filter2x => 0x01,
            Self::Filter4x => 0x02,
            Self::Filter8x => 0x03,
            Self::Filter16x => 0x04,
        }
    }
}

/// Whether the 3-wire SPI interface is enabled.
#[derive(Clone, Copy, Debug, PartialEq, Eq, Structural)]
pub enum Bme280Spi3w {
    Disable,
    Enable,
}

impl Bme280Spi3w {
    pub open spec fn code(&self) -> u8 {
        match *self {
            Self::Disable => 0x00,
            Self::Enable => 0x01,
        }
    }

    pub fn value(&self) -> (r: u8)
        ensures
            r == self.code(),
            r < 2,
    {
        match *self {
            Self::Disable => 0x00,
            Self::Enable => 0x01,
        }
    }
}

/// The measurement control register with new oversampling for pressure
/// (bits 2..4) and temperature (bits 5..7), its mode bits (0..1) kept.
pub open spec fn ctrl_meas_with_oversampling(
    ctrl_meas: u8,
    osr_p: Bme280OverSampling,
    osr_t: Bme280OverSampling,
) -> int {
    osr_t.code() * 32 + osr_p.code() * 4 + ctrl_meas % 4
}

pub fn oversampling_ctrl_meas(
    ctrl_meas: u8,
    osr_p: Bme280OverSampling,
    osr_t: Bme280OverSampling,
) -> (r: u8)
    ensures
        r == ctrl_meas_with_oversampling(ctrl_meas, osr_p, osr_t),
{
    let p = osr_p.value();
    let t = osr_t.value();
    assert(p < 8 && t < 8 ==> (ctrl_meas & 0x03) | (p << 2) | (t << 5) == t * 32 + p * 4
        + ctrl_meas % 4) by (bit_vector);
    (ctrl_meas & 0x03) | (p << 2) | (t << 5)
}

/// The measurement control register with a new mode, its oversampling bits
/// kept.
pub open spec fn ctrl_meas_with_mode(ctrl_meas: u8, mode: Bme280SensorMode) -> int {
    ctrl_meas - ctrl_meas % 4 + mode.code()
}

pub fn mode_ctrl_meas(ctrl_meas: u8, mode: Bme280SensorMode) -> (r: u8)
    ensures
        r == ctrl_meas_with_mode(ctrl_meas, mode),
{
    let m = mode.value();
    assert(m < 4 ==> (ctrl_meas & 0xfcu8) | m == ctrl_meas - ctrl_meas % 4 + m)
        by (bit_vector);
    (ctrl_meas & 0xfc) | m
}

/// The mode that a measurement control value holds.
pub fn mode_of_ctrl_meas(ctrl_meas: u8) -> (r: Bme280SensorMode)
    ensures
        r == Bme280SensorMode::of_bits(ctrl_meas as int % 4),
{
    assert(ctrl_meas & 0x03 == ctrl_meas % 4) by (bit_vector);
    match ctrl_meas & 0x03 {
        0 => Bme280SensorMode::Bme280PowerModeSleep,
        1 | 2 => Bme280SensorMode::Bme280PowerModeForced,
        _ => Bme280SensorMode::Bme280PowerModeNormal,
    }
}

/// Reading back the mode after writing it gives the mode written.
pub proof fn lemma_mode_round_trip(ctrl_meas: u8, mode: Bme280SensorMode)
    ensures
        Bme280SensorMode::of_bits(ctrl_meas_with_mode(ctrl_meas, mode) % 4) == mode,
{
    assert((ctrl_meas - ctrl_meas % 4 + mode.code()) % 4 == mode.code() as int);
}

/// The config register: standby time (bits 5..7), filter (bits 2..4) and
/// the 3-wire SPI switch (bit 0).
pub open spec fn sensor_config(
    t_standby: Bme280TimeStandby,
    irr_filter: Bme280IrrFilter,
    spi3w_en: Bme280Spi3w,
) -> int {
    t_standby.code() * 32 + irr_filter.code() * 4 + spi3w_en.code()
}

pub fn sensor_config_value(
    t_standby: Bme280TimeStandby,
    irr_filter: Bme280IrrFilter,
    spi3w_en: Bme280Spi3w,
) -> (r: u8)
    ensures
        r == sensor_config(t_standby, irr_filter, spi3w_en),
{
    let t = t_standby.value();
    let f = irr_filter.value();
    let s = spi3w_en.value();
    assert(t < 8 && f < 8 && s < 2 ==> (t << 5) | (f << 2) | s == t * 32 + f * 4 + s)
        by (bit_vector);
    (t << 5) | (f << 2) | s
}

/// Whether the status register reports a conversion in progress.
pub fn status_measuring(status: u8) -> (r: bool)
    ensures
        r == (status & BME280_STATUS_MEASURING != 0),
{
    status & BME280_STATUS_MEASURING != 0
}

/// Uncompensated samples: pressure and temperature of 20 bits, humidity of
/// 16 bits.
#[derive(Clone, Copy, Debug, PartialEq, Eq, Structural)]
pub struct Bme280RawData {
    pub pressure: u32,
    pub temperature: u32,
    pub humidity: u32,
}

/// The samples that the eight data registers hold: pressure and temperature
/// most significant byte first with four bits in the last byte's high
/// nibble, then humidity most significant byte first.
pub fn raw_data_from_bytes(bytes: &[u8]) -> (r: Bme280RawData)
    requires
        bytes@.len() == BME280_LEN_P_T_H_DATA,
    ensures
        r.pressure == be20(bytes@[0], bytes@[1], bytes@[2]),
        r.temperature == be20(bytes@[3], bytes@[4], bytes@[5]),
        r.humidity == word(bytes@[6], bytes@[7]),
{
    let pressure = assemble_be20(bytes[0], bytes[1], bytes[2]);
    let temperature = assemble_be20(bytes[3], bytes[4], bytes[5]);
    let humidity = concat_bytes(bytes[6], bytes[7]) as u32;
    Bme280RawData { pressure, temperature, humidity }
}

/// The calibration coefficients as the chip stores them.
#[derive(Clone, Copy, Debug, PartialEq, Eq, Structural)]
pub struct Bme280CalibRaw {
    pub dig_t1: u16,
    pub dig_t2: i16,
    pub dig_t3: i16,
    pub dig_p1: u16,
    pub dig_p2: i16,
    pub dig_p3: i16,
    pub dig_p4: i16,
    pub dig_p5: i16,
    pub dig_p6: i16,
    pub dig_p7: i16,
    pub dig_p8: i16,
    pub dig_p9: i16,
    pub dig_h1: u8,
    pub dig_h2: i16,
    pub dig_h3: u8,
    pub dig_h4: i16,
    pub dig_h5: i16,
    pub dig_h6: i8,
}

/// The coefficients that the temperature / pressure block `tp` and the
/// humidity block `h` hold. `dig_h4` and `dig_h5` share the byte `h[4]`:
/// each is a signed high byte times 16 plus one of its nibbles.
pub open spec fn bme280_calibration(tp: Seq<u8>, h: Seq<u8>) -> Bme280CalibRaw {
    Bme280CalibRaw {
        dig_t1: u16_at(tp, 0) as u16,
        dig_t2: i16_at(tp, 2) as i16,
        dig_t3: i16_at(tp, 4) as i16,
        dig_p1: u16_at(tp, 6) as u16,
        dig_p2: i16_at(tp, 8) as i16,
        dig_p3: i16_at(tp, 10) as i16,
        dig_p4: i16_at(tp, 12) as i16,
        dig_p5: i16_at(tp, 14) as i16,
        dig_p6: i16_at(tp, 16) as i16,
        dig_p7: i16_at(tp, 18) as i16,
        dig_p8: i16_at(tp, 20) as i16,
        dig_p9: i16_at(tp, 22) as i16,
        dig_h1: tp[25],
        dig_h2: i16_at(h, 0) as i16,
        dig_h3: h[2],
        dig_h4: (signed8(h[3] as int) * 16 + h[4] % 16) as i16,
        dig_h5: (signed8(h[5] as int) * 16 + h[4] / 16) as i16,
        dig_h6: signed8(h[6] as int) as i8,
    }
}

/// Decodes the two calibration blocks.
pub fn decode_calibration(tp: &[u8], h: &[u8]) -> (r: Bme280CalibRaw)
    requires
        tp@.len() == BME280_LEN_TEMP_PRESS_CALIB_DATA,
        h@.len() == BME280_LEN_HUMIDITY_CALIB_DATA,
    ensures
        r == bme280_calibration(tp@, h@),
{
    Bme280CalibRaw {
        dig_t1: unsigned_le16(tp, 0),
        dig_t2: signed_le16(tp, 2),
        dig_t3: signed_le16(tp, 4),
        dig_p1: unsigned_le16(tp, 6),
        dig_p2: signed_le16(tp, 8),
        dig_p3: signed_le16(tp, 10),
        dig_p4: signed_le16(tp, 12),
        dig_p5: signed_le16(tp, 14),
        dig_p6: signed_le16(tp, 16),
        dig_p7: signed_le16(tp, 18),
        dig_p8: signed_le16(tp, 20),
        dig_p9: signed_le16(tp, 22),
        dig_h1: tp[25],
        dig_h2: signed_le16(h, 0),
        dig_h3: h[2],
        dig_h4: nibble_packed_low(h[3], h[4]),
        dig_h5: nibble_packed_high(h[5], h[4]),
        dig_h6: signed_byte(h, 6),
    }
}

/// The fine temperature of the fixed-point compensation, from a 20-bit raw
/// temperature. Every shift rounds towards negative infinity.
pub open spec fn t_fine(raw: int, c: Bme280CalibRaw) -> int {
    let var1 = ((raw / 8 - c.dig_t1 * 2) * c.dig_t2) / 2048;
    let d = raw / 16 - c.dig_t1;
    let var2 = (((d * d) / 4096) * c.dig_t3) / 16384;
    var1 + var2
}

/// Temperature in hundredths of a degree Celsius for a fine temperature.
pub open spec fn centi_celsius(t_fine: int) -> int {
    (t_fine * 5 + 128) / 256
}

/// The fine temperature, which the pressure and humidity compensation
/// take as their temperature input.
pub fn t_fine_fixed(raw_temperature: u32, calib: &Bme280CalibRaw) -> (r: i32)
    requires
        raw_temperature < 0x10_0000,
    ensures
        r == t_fine(raw_temperature as int, *calib),
        -0x300_0000 <= r <= 0x300_0000,
{
    let raw = raw_temperature as i64;
    let t1 = calib.dig_t1 as i64;
    let t2 = calib.dig_t2 as i64;
    let t3 = calib.dig_t3 as i64;
    assert(raw >> 3 == raw / 8 && raw >> 4 == raw / 16) by (bit_vector)
        requires
            0 <= raw < 0x10_0000,
    ;
    let var1a = (raw >> 3) - t1 * 2;
    assert(-0x2_0000 < var1a < 0x2_0000);
    assert(-0x1_0000_0000 <= var1a * t2 <= 0x1_0000_0000) by (nonlinear_arith)
        requires
            -0x2_0000 < var1a < 0x2_0000,
            -0x8000 <= t2 < 0x8000,
    ;
    let prod1 = var1a * t2;
    assert(prod1 >> 11 == prod1 / 2048) by (bit_vector)
        requires
            -0x1_0000_0000 <= prod1 <= 0x1_0000_0000,
    ;
    let var1 = prod1 >> 11;
    let var2a = (raw >> 4) - t1;
    assert(-0x1_0000 <= var2a < 0x1_0000);
    assert(0 <= var2a * var2a <= 0x1_0000_0000) by (nonlinear_arith)
        requires
            -0x1_0000 <= var2a < 0x1_0000,
    ;
    let sq = var2a * var2a;
    assert(sq >> 12 == sq / 4096) by (bit_vector)
        requires
            0 <= sq <= 0x1_0000_0000,
    ;
    let q = sq >> 12;
    assert(-0x80_0000_0000 <= q * t3 <= 0x80_0000_0000) by (nonlinear_arith)
        requires
            0 <= q <= 0x10_0000,
            -0x8000 <= t3 < 0x8000,
    ;
    let prod2 = q * t3;
    assert(prod2 >> 14 == prod2 / 16384) by (bit_vector)
        requires
            -0x80_0000_0000 <= prod2 <= 0x80_0000_0000,
    ;
    let var2 = prod2 >> 14;
    assert(-0x20_0000 <= var1 <= 0x20_0000);
    assert(-0x200_0000 <= var2 <= 0x200_0000);
    (var1 + var2) as i32
}

/// Temperature in hundredths of a degree Celsius, held to the chip's
/// operating range.
pub open spec fn temperature_centi(t_fine: int) -> int {
    let t = centi_celsius(t_fine);
    if t < BME280_TEMPERATURE_MIN_CENTI {
        BME280_TEMPERATURE_MIN_CENTI as int
    } else if t > BME280_TEMPERATURE_MAX_CENTI {
        BME280_TEMPERATURE_MAX_CENTI as int
    } else {
        t
    }
}

/// The fixed-point temperature compensation: the fine temperature and the
/// temperature in hundredths of a degree Celsius, held to -40..85 degrees.
pub fn compensate_temperature_fixed(raw_temperature: u32, calib: &Bme280CalibRaw) -> (r: (
    i32,
    i32,
))
    requires
        raw_temperature < 0x10_0000,
    ensures
        r.0 == t_fine(raw_temperature as int, *calib),
        r.1 == temperature_centi(r.0 as int),
{
    let fine = t_fine_fixed(raw_temperature, calib);
    let f = fine as i64;
    assert(-0x300_0000 <= f <= 0x300_0000);
    let scaled = f * 5 + 128;
    assert(scaled >> 8 == scaled / 256) by (bit_vector)
        requires
            -0x1000_0000 <= scaled <= 0x1000_0000,
    ;
    let t = scaled >> 8;
    let centi = if t < BME280_TEMPERATURE_MIN_CENTI as i64 {
        BME280_TEMPERATURE_MIN_CENTI
    } else if t > BME280_TEMPERATURE_MAX_CENTI as i64 {
        BME280_TEMPERATURE_MAX_CENTI
    } else {
        t as i32
    };
    (fine, centi)
}

} // verus!
