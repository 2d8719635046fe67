//! The plugin instance as the host sees it: its description, its shared
//! parameters and its one editor.

use crate::editor::TestPluginEditor;
use crate::params::GainEffectParameters;
use crate::params::INITIAL_AMPLITUDE;
use crate::params::PARAMETER_COUNT;
use std::sync::Arc;
use vst::plugin::Category;
use vst::plugin::Info;
use vstd::prelude::*;

verus! {

/// The number the host tells this plugin apart by.
pub const UNIQUE_ID: i32 = 243123073;

/// A plugin description as the host protocol defines it.
#[verifier::external_type_specification]
pub struct ExInfo(vst::plugin::Info);

/// The kinds of plugin the host protocol knows.
#[verifier::external_type_specification]
pub struct ExCategory(vst::plugin::Category);

/// `Info::default()` of the `vst` crate: the description of a nameless
/// stereo effect without parameters, field by field as that crate's source
/// gives it.
pub assume_specification[ <Info as Default>::default ]() -> (info: Info)
    ensures
        info.name@ == "VST"@,
        info.vendor@ == Seq::<char>::empty(),
        info.presets == 1,
        info.parameters == 0,
        info.inputs == 2,
        info.outputs == 2,
        info.midi_inputs == 0,
        info.midi_outputs == 0,
        info.unique_id == 0,
        info.version == 1,
        info.category is Effect,
        info.initial_delay == 0,
        !info.preset_chunks,
        !info.f64_precision,
        !info.silent_when_stopped,
;

/// A gain effect: the shared parameters, and the editor until the host has
/// taken it.
pub struct TestPlugin {
    /// The parameters, shared with the editor and with the host.
    pub params: Arc<GainEffectParameters>,
    /// The editor, until `get_editor` has handed it out.
    pub editor: Option<TestPluginEditor>,
}

impl Default for TestPlugin {
    /// A fresh instance: parameters at their initial values, and a closed
    /// editor over the same parameters.
    fn default() -> (plugin: TestPlugin)
        ensures
            plugin.params.amplitude.initial_bits() == INITIAL_AMPLITUDE,
            plugin.editor matches Some(editor) && !editor.is_open_spec() && editor.params
                == plugin.params,
    {
        let params = Arc::new(GainEffectParameters::default());
        let shared = Arc::clone(&params);
        TestPlugin { params, editor: Some(TestPluginEditor::new(shared)) }
    }
}

impl TestPlugin {
    /// The description given to the host: a stereo effect with one parameter.
    pub fn get_info(&self) -> (info: Info)
        ensures
            info.name@ == "Tuix Gain Effect in Rust"@,
            info.vendor@ == "Geom3trik"@,
            info.unique_id == UNIQUE_ID,
            info.version == 1,
            info.inputs == 2,
            info.outputs == 2,
            info.parameters == PARAMETER_COUNT,
            info.category is Effect,
            info.presets == 1,
            info.midi_inputs == 0,
            info.midi_outputs == 0,
            info.initial_delay == 0,
            !info.preset_chunks,
            !info.f64_precision,
            !info.silent_when_stopped,
    {
        Info {
            name: "Tuix Gain Effect in Rust".to_owned(),
            vendor: "Geom3trik".to_owned(),
            unique_id: UNIQUE_ID,
            version: 1,
            inputs: 2,
            outputs: 2,
            parameters: PARAMETER_COUNT,
            category: Category::Effect,
            ..Default::default()
        }
    }

    /// Hands the editor to the host. The first call gives the editor, every
    /// later one `None`: there is never a second editor for one instance.
    pub fn get_editor(&mut self) -> (editor: Option<TestPluginEditor>)
        ensures
            editor == old(self).editor,
            final(self).editor is None,
            final(self).params == old(self).params,
    {
        self.editor.take()
    }

    /// Another handle on the shared parameters.
    pub fn get_parameter_object(&self) -> (params: Arc<GainEffectParameters>)
        ensures
            params == self.params,
    {
        Arc::clone(&self.params)
    }
}

} // verus!
