//! A verified model of a four-LED chase animation.
//!
//! The library models a bank of four board LEDs driven in a fixed,
//! repeating on/off sequence with blocking delays between the steps.
//! The hardware itself (GPIO pins, the system timer, the debug channel)
//! is driven by an unverified shell around this crate; everything the
//! shell decides — which LED to touch next, how long to wait, whether
//! to run at all — is computed and proved here.

pub mod driver;
pub mod led;
pub mod schedule;
pub mod smoke;
pub mod startup;
