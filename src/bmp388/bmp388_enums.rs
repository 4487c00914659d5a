//! Register field values of the BMP388.
use vstd::prelude::*;

verus! {

/// Bus address of the chip, chosen by its SDO pin.
#[derive(Clone, Copy, Debug, PartialEq, Eq, Structural)]
pub enum Bmp388DeviceAddress {
    Default,
    Secondary,
}

impl Default for Bmp388DeviceAddress {
    fn default() -> (r: Self)
        ensures
            r == Bmp388DeviceAddress::Default,
    {
        Bmp388DeviceAddress::Default
    }
}

impl Bmp388DeviceAddress {
    pub open spec fn code(&self) -> u16 {
        match *self {
            Self::Default => 0x77,
            Self::Secondary => 0x76,
        }
    }

    pub fn value(&self) -> (r: u16)
        ensures
            r == self.code(),
    {
        match *self {
            Self::Default => 0x77,
            Self::Secondary => 0x76,
        }
    }
}

/// Power mode, bits 4..5 of the power control register.
#[derive(Clone, Copy, Debug, PartialEq, Eq, Structural)]
pub enum Bmp388SensorPowerMode {
    Sleep,
    Forced,
    Normal,
}

impl Bmp388SensorPowerMode {
    pub open spec fn code(&self) -> u8 {
        match *self {
            Self::Sleep => 0x00,
            Self::Forced => 0x01,
            Self::Normal => 0x03,
        }
    }

    /// The mode that the two mode bits `bits` stand for; both intermediate
    /// encodings read as forced mode.
    pub open spec fn of_bits(bits: int) -> Self {
        if bits == 0 {
            Self::Sleep
        } else if bits == 1 || bits == 2 {
            Self::Forced
        } else {
            Self::Normal
        }
    }

    pub fn value(&self) -> (r: u8)
        ensures
            r == self.code(),
    {
        match *self {
            Self::Sleep => 0x00,
            Self::Forced => 0x01,
            Self::Normal => 0x03,
        }
    }

    pub fn from_bits(bits: u8) -> (r: Self)
        ensures
            r == Self::of_bits(bits as int),
    {
        match bits {
            0 => Self::Sleep,
            1 | 2 => Self::Forced,
            _ => Self::Normal,
        }
    }
}

/// Whether the pressure sensor is switched on.
#[derive(Clone, Copy, Debug, PartialEq, Eq, Structural)]
pub enum Bmp388StatusPressureSensor {
    Disabled,
    Enabled,
}

impl Bmp388StatusPressureSensor {
    pub open spec fn code(&self) -> u8 {
        match *self {
            Self::Disabled => 0,
            Self::Enabled => 1,
        }
    }

    pub fn value(&self) -> (r: u8)
        ensures
            r == self.code(),
    {
        match *self {
            Self::Disabled => 0,
            Self::Enabled => 1,
        }
    }
}

/// Whether the temperature sensor is switched on.
#[derive(Clone, Copy, Debug, PartialEq, Eq, Structural)]
pub enum Bmp388StatusTemperatureSensor {
    Disabled,
    Enabled,
}

impl Bmp388StatusTemperatureSensor {
    pub open spec fn code(&self) -> u8 {
        match *self {
            Self::Disabled => 0,
            Self::Enabled => 1,
        }
    }

    pub fn value(&self) -> (r: u8)
        ensures
            r == self.code(),
    {
        match *self {
            Self::Disabled => 0,
            Self::Enabled => 1,
        }
    }
}

/// Pressure oversampling.
#[derive(Clone, Copy, Debug, PartialEq, Eq, Structural)]
pub enum Bmp388OverSamplingPr {
    UltraLowX1,
    LowX2,
    StandardX4,
    HighX8,
    UltraHighX16,
    HighestX32,
}

impl Bmp388OverSamplingPr {
    pub open spec fn code(&self) -> u8 {
        match *self {
            Self::UltraLowX1 => 0x00,
            Self::LowX2 => 0x01,
            Self::StandardX4 => 0x02,
            Self::HighX8 => 0x03,
            Self::UltraHighX16 => 0x04,
            Self::HighestX32 => 0x05,
        }
    }

    pub fn value(&self) -> (r: u8)
        ensures
            r == self.code(),
            r < 8,
    {
        match *self {
            Self::UltraLowX1 => 0x00,
            Self::LowX2 => 0x01,
            Self::StandardX4 => 0x02,
            Self::HighX8 => 0x03,
            Self::UltraHighX16 => 0x04,
            Self::HighestX32 => 0x05,
        }
    }
}

/// Temperature oversampling.
#[derive(Clone, Copy, Debug, PartialEq, Eq, Structural)]
pub enum Bmp388OverSamplingTp {
    X1,
    X2,
    X4,
    X8,
    X16,
    X32,
}

impl Bmp388OverSamplingTp {
    pub open spec fn code(&self) -> u8 {
        match *self {
            Self::X1 => 0x00,
            Self::X2 => 0x01,
            Self::X4 => 0x02,
            Self::X8 => 0x03,
            Self::X16 => 0x04,
            Self::X32 => 0x05,
        }
    }

    pub fn value(&self) -> (r: u8)
        ensures
            r == self.code(),
            r < 8,
    {
        match *self {
            Self::X1 => 0x00,
            Self::X2 => 0x01,
            Self::X4 => 0x02,
            Self::X8 => 0x03,
            Self::X16 => 0x04,
            Self::X32 => 0x05,
        }
    }
}

/// Output data rate of normal mode: 200 Hz divided by a power of two.
#[derive(Clone, Copy, Debug, PartialEq, Eq, Structural)]
pub enum Bmp388OutputDataRate {
    Ax200Hz,
    Bx100Hz,
    Cx50Hz,
    Dx25Hz,
    Ex12_5Hz,
    Fx6_25Hz,
    Gx3_1Hz,
    Hx1_5Hz,
    Ix0_78Hz,
    Jx0_39Hz,
    Kx0_2Hz,
    Lx0_1Hz,
    Mx0_05Hz,
    Nx0_02Hz,
    Ox0_01Hz,
    Px0_006Hz,
    Qx0_003Hz,
    Rx0_0015Hz,
}

impl Bmp388OutputDataRate {
    /// The subdivision exponent: the rate is 200 Hz / 2^code.
    pub open spec fn code(&self) -> u8 {
        match *self {
            Self::Ax200Hz => 0x00,
            Self::Bx100Hz => 0x01,
            Self::Cx50Hz => 0x02,
            Self::Dx25Hz => 0x03,
            Self::Ex12_5Hz => 0x04,
            Self::Fx6_25Hz => 0x05,
            Self::Gx3_1Hz => 0x06,
            Self::Hx1_5Hz => 0x07,
            Self::Ix0_78Hz => 0x08,
            Self::Jx0_39Hz => 0x09,
            Self::Kx0_2Hz => 0x0a,
            Self::Lx0_1Hz => 0x0b,
            Self::Mx0_05Hz => 0x0c,
            Self::Nx0_02Hz => 0x0d,
            Self::Ox0_01Hz => 0x0e,
            Self::Px0_006Hz => 0x0f,
            Self::Qx0_003Hz => 0x10,
            Self::Rx0_0015Hz => 0x11,
        }
    }

    pub fn value(&self) -> (r: u8)
        ensures
            r == self.code(),
    {
        match *self {
            Self::Ax200Hz => 0x00,
            Self::Bx100Hz => 0x01,
            Self::Cx50Hz => 0x02,
            Self::Dx25Hz => 0x03,
            Self::Ex12_5Hz => 0x04,
            Self::Fx6_25Hz => 0x05,
            Self::Gx3_1Hz => 0x06,
            Self::Hx1_5Hz => 0x07,
            Self::Ix0_78Hz => 0x08,
            Self::Jx0_39Hz => 0x09,
            Self::Kx0_2Hz => 0x0a,
            Self::Lx0_1Hz => 0x0b,
            Self::Mx0_05Hz => 0x0c,
            Self::Nx0_02Hz => 0x0d,
            Self::Ox0_01Hz => 0x0e,
            Self::Px0_006Hz => 0x0f,
            Self::Qx0_003Hz => 0x10,
            Self::Rx0_0015Hz => 0x11,
        }
    }
}

/// Coefficient of the infinite impulse response filter.
#[derive(Clone, Copy, Debug, PartialEq, Eq, Structural)]
pub enum Bmp388IrrFilter {
    Off,
    Coef1,
    Coef3,
    Coef7,
    Coef15,
    Coef31,
    Coef63,
    Coef127,
}

impl Bmp388IrrFilter {
    pub open spec fn code(&self) -> u8 {
        match *self {
            Self::Off => 0x00,
            Self::Coef1 => 0x01,
            Self::Coef3 => 0x02,
            Self::Coef7 => 0x03,
            Self::Coef15 => 0x04,
            Self::Coef31 => 0x05,
            Self::Coef63 => 0x06,
            Self::Coef127 => 0x07,
        }
    }

    pub fn value(&self) -> (r: u8)
        ensures
            r == self.code(),
    {
        match *self {
            Self::Off => 0x00,
            Self::Coef1 => 0x01,
            Self::Coef3 => 0x02,
            Self::Coef7 => 0x03,
            Self::Coef15 => 0x04,
            Self::Coef31 => 0x05,
            Self::Coef63 => 0x06,
            Self::Coef127 => 0x07,
        }
    }
}

/// Status flag: the command decoder accepts a new command.
#[derive(Clone, Copy, Debug, PartialEq, Eq, Structural)]
pub enum Bmp388StatusCommandDecoder {
    NotReady,
    Ready,
}

/// Status flag: a pressure sample is waiting in the data registers.
#[derive(Clone, Copy, Debug, PartialEq, Eq, Structural)]
pub enum Bmp388StatusPressureData {
    NotReady,
    Ready,
}

/// Status flag: a temperature sample is waiting in the data registers.
#[derive(Clone, Copy, Debug, PartialEq, Eq, Structural)]
pub enum Bmp388StatusTemperatureData {
    NotReady,
    Ready,
}

/// Whether the FIFO stops accepting frames once full.
#[derive(Clone, Copy, Debug, PartialEq, Eq, Structural)]
pub enum Bmp388FifoStopOnFull {
    Disabled,
    Enabled,
}

impl Bmp388FifoStopOnFull {
    pub open spec fn code(&self) -> u8 {
        match *self {
            Self::Disabled => 0,
            Self::Enabled => 1,
        }
    }

    pub fn value(&self) -> (r: u8)
        ensures
            r == self.code(),
    {
        match *self {
            Self::Disabled => 0,
            Self::Enabled => 1,
        }
    }
}

/// Whether FIFO frames carry pressure samples.
#[derive(Clone, Copy, Debug, PartialEq, Eq, Structural)]
pub enum Bmp388FifoWithPressureData {
    Disabled,
    Enabled,
}

impl Bmp388FifoWithPressureData {
    pub open spec fn code(&self) -> u8 {
        match *self {
            Self::Disabled => 0,
            Self::Enabled => 1,
        }
    }

    pub fn value(&self) -> (r: u8)
        ensures
            r == self.code(),
    {
        match *self {
            Self::Disabled => 0,
            Self::Enabled => 1,
        }
    }
}

/// Whether FIFO frames carry temperature samples.
#[derive(Clone, Copy, Debug, PartialEq, Eq, Structural)]
pub enum Bmp388FifoWithTemperatureData {
    Disabled,
    Enabled,
}

impl Bmp388FifoWithTemperatureData {
    pub open spec fn code(&self) -> u8 {
        match *self {
            Self::Disabled => 0,
            Self::Enabled => 1,
        }
    }

    pub fn value(&self) -> (r: u8)
        ensures
            r == self.code(),
    {
        match *self {
            Self::Disabled => 0,
            Self::Enabled => 1,
        }
    }
}

/// Whether the FIFO appends a sensor time frame when it is read empty.
#[derive(Clone, Copy, Debug, PartialEq, Eq, Structural)]
pub enum Bmp388FifoWithSensorTime {
    Disabled,
    Enabled,
}

impl Bmp388FifoWithSensorTime {
    pub open spec fn code(&self) -> u8 {
        match *self {
            Self::Disabled => 0,
            Self::Enabled => 1,
        }
    }

    pub fn value(&self) -> (r: u8)
        ensures
            r == self.code(),
    {
        match *self {
            Self::Disabled => 0,
            Self::Enabled => 1,
        }
    }
}

/// Whether the FIFO stores filtered or unfiltered samples.
#[derive(Clone, Copy, Debug, PartialEq, Eq, Structural)]
pub enum Bmp388FifoDataFiltered {
    Unfiltered,
    Filtered,
}

impl Bmp388FifoDataFiltered {
    pub open spec fn code(&self) -> u8 {
        match *self {
            Self::Unfiltered => 0,
            Self::Filtered => 1,
        }
    }

    pub fn value(&self) -> (r: u8)
        ensures
            r == self.code(),
    {
        match *self {
            Self::Unfiltered => 0,
            Self::Filtered => 1,
        }
    }
}

} // verus!
