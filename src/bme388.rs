//! The BME388 shares the BMP388's registers, calibration layout and
//! compensation; its names stand for the BMP388's items.
pub use crate::bmp388::bmp388_core::DataRaw as RawData;
pub use crate::bmp388::bmp388_enums::{
    Bmp388DeviceAddress as BME388DeviceAddress,
    Bmp388IrrFilter as BME388IrrFilter,
    Bmp388OutputDataRate as BME388OutputDataRate,
    Bmp388OverSamplingPr as BME388OverSamplingPr,
    Bmp388OverSamplingTp as BME388OverSamplingTp,
    Bmp388SensorPowerMode as BME388SensorPowerMode,
    Bmp388StatusCommandDecoder as BME388StatusCommandDecoder,
    Bmp388StatusPressureData as BME388StatusPressureData,
    Bmp388StatusPressureSensor as BME388StatusPressureSensor,
    Bmp388StatusTemperatureData as BME388StatusTemperatureData,
    Bmp388StatusTemperatureSensor as BME388StatusTemperatureSensor,
};
