//! Sensor acquisition core of a barometric and humidity sensor node: the
//! register-level pressure sensor arithmetic, the humidity sensor's pulse
//! decoder, and the fault-counting policy of the sampling tasks.

pub mod error;
pub mod humidity;
pub mod pressure;
pub mod sampling;

