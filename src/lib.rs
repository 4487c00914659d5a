//! Register-level core for Bosch barometric pressure / temperature sensors
//! on an I2C bus: register encodings, calibration-block decoding, integer
//! compensation, the FIFO frame decoder and the bring-up sequence.
//!
//! Everything here is free of I/O. The bus itself is driven by the caller,
//! which performs the reads and writes that the functions here ask for.
pub mod bme280;
pub mod bme388;
pub mod bmp388;
pub mod bring_up;
pub mod error;
pub mod fields;

use vstd::prelude::*;

verus! {

} // verus!
