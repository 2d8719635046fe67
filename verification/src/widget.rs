//! The editor's one control: a knob bound to the amplitude.

use crate::params::GainEffectParameters;
use std::sync::Arc;
use vstd::prelude::*;

verus! {

/// Bit pattern of 0.0, the low end of the knob.
pub const KNOB_MIN: u32 = 0;

/// Bit pattern of 1.0, the high end of the knob.
pub const KNOB_MAX: u32 = 0x3F80_0000;

/// What a slider-like control reports or is told, each value as a bit pattern.
#[derive(Clone, Copy, Debug, PartialEq, Eq, Structural)]
pub enum SliderEvent {
    /// The user moved the control to this value.
    ValueChanged(u32),
    /// The control is told to show this value.
    SetValue(u32),
    /// The control is told its low end.
    SetMin(u32),
    /// The control is told its high end.
    SetMax(u32),
}

/// The knob the widget asks the toolkit to build.
pub struct Knob {
    /// The caption.
    pub label: String,
    /// The value shown at first.
    pub value: u32,
    /// The low end of the range.
    pub min: u32,
    /// The high end of the range.
    pub max: u32,
}

/// The amplitude an event asks to be stored: the new value of a move by the
/// user, and nothing for any other event.
pub open spec fn requested_amplitude(event: SliderEvent) -> Option<u32> {
    match event {
        SliderEvent::ValueChanged(bits) => Some(bits),
        _ => None,
    }
}

/// Decides whether `event` writes the amplitude, and with which bit pattern.
pub fn amplitude_request(event: SliderEvent) -> (request: Option<u32>)
    ensures
        request == requested_amplitude(event),
{
    match event {
        SliderEvent::ValueChanged(bits) => Some(bits),
        _ => None,
    }
}

/// The knob that shows `value` at first: captioned "Gain" and ranging from
/// 0.0 to 1.0. The value is taken as it is, whether or not it lies in the
/// range.
pub fn knob_showing(value: u32) -> (knob: Knob)
    ensures
        knob.label@ == "Gain"@,
        knob.value == value,
        knob.min == KNOB_MIN,
        knob.max == KNOB_MAX,
{
    Knob { label: "Gain".to_owned(), value, min: KNOB_MIN, max: KNOB_MAX }
}

/// The control surface: it shows the amplitude when it is built and writes
/// the amplitude whenever the user moves the knob. It does not follow writes
/// made elsewhere while it is open.
pub struct GainWidget {
    /// The parameters the knob is bound to.
    pub params: Arc<GainEffectParameters>,
}

impl GainWidget {
    /// A widget bound to `params`.
    pub fn new(params: Arc<GainEffectParameters>) -> (widget: Self)
        ensures
            widget.params == params,
    {
        GainWidget { params }
    }

    /// The knob to build: captioned "Gain", ranging from 0.0 to 1.0, and
    /// showing what one load of the amplitude gave.
    pub fn on_build(&self) -> (knob: Knob)
        ensures
            knob.label@ == "Gain"@,
            knob.min == KNOB_MIN,
            knob.max == KNOB_MAX,
    {
        let amplitude: u32 = self.params.amplitude.get();
        knob_showing(amplitude)
    }

    /// Takes one event from the knob: a move by the user is written to the
    /// amplitude as it is, every other event is ignored.
    pub fn on_event(&self, event: SliderEvent) {
        match amplitude_request(event) {
            Some(bits) => self.params.amplitude.set(bits),
            None => {},
        }
    }
}

} // verus!
