//! Control logic for an RGBW LED panel driven by two rotary knobs and a
//! potentiometer.
//!
//! The crate holds the pure parts of the firmware: the knob state machine,
//! the encoder that turns pixels into the serial waveform, the two animation
//! generators and the frame scheduler. Everything is stated over plain
//! values, so the hardware loop around it only moves data in and out.

use vstd::prelude::*;

pub mod controller;
pub mod conway;
pub mod leds;
pub mod rotary;
pub mod status;

verus! {

/// An event of one knob, tagged with the knob it came from.
#[derive(Clone, Copy, Debug, PartialEq, Eq, Structural)]
pub enum RotorUpdate {
    Red(rotary::RotaryEvent),
    Yellow(rotary::RotaryEvent),
}

} // verus!
