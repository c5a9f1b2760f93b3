//! Telemetry display and vector-font rendering for a small monochrome panel.
//!
//! Nothing here touches the hardware: every routine that would draw appends
//! [`draw::DrawOp`] values to a list, which the caller hands to the panel,
//! and the sensor, motor, button, light and clock logic takes readings as
//! plain values and returns what is to be sent.

pub mod canvas;
pub mod draw;
pub mod glyph;
pub mod info_box;
pub mod keys;
pub mod leds;
pub mod motor;
pub mod point;
pub mod screen;
pub mod sensor;
pub mod time;
pub mod trig;
