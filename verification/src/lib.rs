//! Driver logic for a two-axis analog joystick with a push-button switch.
//!
//! The crate is organised around capability traits for the hardware the
//! driver consumes (an analog-to-digital converter and a digital input
//! pin) and verified logic on top of them: per-axis scaling of raw
//! samples into normalized positions, and the ordered, short-circuiting
//! composition of the two axis reads into one position read.

pub mod axis;
pub mod hal;
pub mod joystick;
pub mod logged;
pub mod reading;
pub mod scale;
pub mod scripted;
