//! Driver for a register-addressed temperature sensor on a two-wire bus.
//!
//! The driver configures the sensor's resolution when it is built, reads the
//! raw fixed-point temperature register, and tells a failed bus transfer
//! apart from a reading that the sensor itself marks as invalid.
pub mod bus;
pub mod error;
pub mod sensor;

pub use bus::I2cBus;
pub use error::SensorError;
pub use sensor::{Resolution, TemperatureSensor};
