//! Sensors on the I²C bus.
pub mod bmi160;
pub mod scene;
pub mod biometrics;
