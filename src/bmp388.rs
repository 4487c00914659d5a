//! The BMP388 barometric pressure sensor.
pub mod bmp388_core;
pub mod bmp388_enums;
pub mod fifo;
