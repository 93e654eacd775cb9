//! Verified core of a keyboard-matrix firmware: keycode tables, layer
//! resolution, and HID report synthesis.
//!
//! The library owns all decision logic of the input pipeline: which keycode a
//! switch position resolves to on the active layer, how press/release events
//! patch the boot-keyboard report, and when a report must be handed to the
//! USB transport.  Hardware pin access and the transport itself stay outside;
//! they exchange plain values (scan grids in, reports to submit out) with the
//! functions here.

pub mod driver;
pub mod keyboard_config;
pub mod keycodes;
pub mod layers;
pub mod report;
