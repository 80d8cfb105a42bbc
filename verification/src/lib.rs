//! Signal conditioning for an analog joystick transmitter: calibration of the
//! raw stick readings, mixing into the normalized control range, and encoding
//! of the result for the radio link and for a gamepad report.

pub mod adc;
pub mod arith;
pub mod calibrate;
pub mod mixer;
pub mod sample;
pub mod elrs_tx;
pub mod gampad;
pub mod joy_dev;
