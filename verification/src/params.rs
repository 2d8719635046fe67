//! The parameter surface the host automates: one parameter, the amplitude, at
//! index 0. Every other index is absorbed without an error.

use crate::store::ParameterStore;
use vstd::prelude::*;

verus! {

/// Index of the amplitude, the only parameter.
pub const AMPLITUDE: i32 = 0;

/// Number of parameters the host is told about.
pub const PARAMETER_COUNT: i32 = 1;

/// Bit pattern of 0.5, the amplitude of a fresh instance.
pub const INITIAL_AMPLITUDE: u32 = 0x3F00_0000;

/// Bit pattern of 0.0, the value reported for an index that names no parameter.
pub const NO_VALUE: u32 = 0;

/// What the host shows beneath a control.
#[derive(Clone, Copy, Debug, PartialEq, Eq, Structural)]
pub enum ParameterText {
    /// The centred reading of the amplitude with this bit pattern: the
    /// amplitude less one half, doubled, to two decimal places, so that the
    /// stored range from 0 to 1 reads as -1.00 to 1.00.
    Centred(u32),
    /// The empty string.
    Empty,
}

/// The value the host reads at `index` while the store holds `amplitude`.
pub open spec fn reported_value(index: i32, amplitude: u32) -> u32 {
    if index == AMPLITUDE {
        amplitude
    } else {
        NO_VALUE
    }
}

/// The bit pattern a host write of `value` at `index` puts into the store, or
/// `None` where the write leaves the store alone.
pub open spec fn accepted_value(index: i32, value: u32) -> Option<u32> {
    if index == AMPLITUDE {
        Some(value)
    } else {
        None
    }
}

/// What the store holds after a host write of `value` at `index`, given that
/// it held `before` and that no other write came between.
pub open spec fn amplitude_after(before: u32, index: i32, value: u32) -> u32 {
    match accepted_value(index, value) {
        Some(bits) => bits,
        None => before,
    }
}

/// The name of the parameter at `index`.
pub open spec fn parameter_name(index: i32) -> Seq<char> {
    if index == AMPLITUDE {
        "Amplitude"@
    } else {
        Seq::empty()
    }
}

/// The text shown for `index` while the store holds `amplitude`.
pub open spec fn parameter_text(index: i32, amplitude: u32) -> ParameterText {
    if index == AMPLITUDE {
        ParameterText::Centred(amplitude)
    } else {
        ParameterText::Empty
    }
}

/// Picks what the host reads at `index` out of the amplitude just loaded.
pub fn value_for_host(index: i32, amplitude: u32) -> (value: u32)
    ensures
        value == reported_value(index, amplitude),
{
    if index == AMPLITUDE {
        amplitude
    } else {
        NO_VALUE
    }
}

/// Decides whether a host write of `value` at `index` reaches the store, and
/// with which bit pattern. The value is passed through as it is: no clamping.
pub fn value_to_store(index: i32, value: u32) -> (accepted: Option<u32>)
    ensures
        accepted == accepted_value(index, value),
{
    if index == AMPLITUDE {
        Some(value)
    } else {
        None
    }
}

/// Picks the text for `index` out of the amplitude just loaded.
pub fn text_for_host(index: i32, amplitude: u32) -> (text: ParameterText)
    ensures
        text == parameter_text(index, amplitude),
{
    if index == AMPLITUDE {
        ParameterText::Centred(amplitude)
    } else {
        ParameterText::Empty
    }
}

/// The state shared by the host's automation, the audio callback and the
/// editor: a single amplitude.
pub struct GainEffectParameters {
    pub amplitude: ParameterStore,
}

impl Default for GainEffectParameters {
    /// Parameters whose amplitude starts at `INITIAL_AMPLITUDE`.
    fn default() -> (params: GainEffectParameters)
        ensures
            params.amplitude.initial_bits() == INITIAL_AMPLITUDE,
    {
        GainEffectParameters { amplitude: ParameterStore::new(INITIAL_AMPLITUDE) }
    }
}

impl GainEffectParameters {
    /// The value of the parameter at `index`: what one load of the store gave
    /// for the amplitude, and 0.0 for every other index.
    pub fn get_parameter(&self, index: i32) -> (value: u32)
        ensures
            exists|amplitude: u32| value == #[trigger] reported_value(index, amplitude),
            index != AMPLITUDE ==> value == NO_VALUE,
    {
        let amplitude: u32 = self.amplitude.get();
        value_for_host(index, amplitude)
    }

    /// Writes `value` to the amplitude if `index` names it; does nothing for
    /// any other index.
    pub fn set_parameter(&self, index: i32, value: u32) {
        match value_to_store(index, value) {
            Some(bits) => self.amplitude.set(bits),
            None => {},
        }
    }

    /// The text shown for the parameter at `index`: the centred reading of
    /// what one load of the store gave, and nothing for every other index.
    pub fn get_parameter_text(&self, index: i32) -> (text: ParameterText)
        ensures
            exists|amplitude: u32| text == #[trigger] parameter_text(index, amplitude),
            index != AMPLITUDE ==> text == ParameterText::Empty,
            index == AMPLITUDE ==> text is Centred,
    {
        let amplitude: u32 = self.amplitude.get();
        text_for_host(index, amplitude)
    }

    /// The name of the parameter at `index`: "Amplitude" at 0, the empty
    /// string elsewhere.
    pub fn get_parameter_name(&self, index: i32) -> (name: String)
        ensures
            name@ == parameter_name(index),
            index != AMPLITUDE ==> name@.len() == 0,
    {
        if index == AMPLITUDE {
            "Amplitude".to_owned()
        } else {
            String::new()
        }
    }
}

/// Reading back after a write: with no other writer in between, the host
/// reads at the amplitude's index exactly the bit pattern it wrote there.
pub proof fn lemma_write_then_read(before: u32, value: u32)
    ensures
        accepted_value(AMPLITUDE, value) == Some(value),
        reported_value(AMPLITUDE, amplitude_after(before, AMPLITUDE, value)) == value,
{
}

/// An index that names no parameter is inert: a write there leaves the store
/// as it was, and a read, a name and a text there are 0.0 and empty, whatever
/// the store holds.
pub proof fn lemma_unknown_index_is_inert(index: i32, before: u32, value: u32)
    requires
        index != AMPLITUDE,
    ensures
        accepted_value(index, value) is None,
        amplitude_after(before, index, value) == before,
        reported_value(index, before) == NO_VALUE,
        parameter_name(index) == Seq::<char>::empty(),
        parameter_text(index, before) == ParameterText::Empty,
{
}

/// Writing twice is writing once: the second of two equal writes changes
/// nothing.
pub proof fn lemma_write_is_idempotent(before: u32, index: i32, value: u32)
    ensures
        amplitude_after(amplitude_after(before, index, value), index, value) == amplitude_after(
            before,
            index,
            value,
        ),
{
}

} // verus!
