//! The editor session: whether the embedded window is open, and under which
//! native parent.

use crate::params::GainEffectParameters;
use std::sync::Arc;
use vstd::prelude::*;

verus! {

/// Width of the editor window in pixels.
pub const WINDOW_WIDTH: usize = 300;

/// Height of the editor window in pixels.
pub const WINDOW_HEIGHT: usize = 300;

/// One editor per plugin instance. It is closed until the host opens it
/// under a native parent window, and closed again once the host closes it.
pub struct TestPluginEditor {
    /// The parameters the editor's control reads and writes.
    pub params: Arc<GainEffectParameters>,
    /// The native parent the window is open under, `None` while closed.
    pub parent: Option<usize>,
}

impl TestPluginEditor {
    /// Whether the window is open.
    pub open spec fn is_open_spec(&self) -> bool {
        self.parent is Some
    }

    /// A closed editor over `params`.
    pub fn new(params: Arc<GainEffectParameters>) -> (editor: Self)
        ensures
            !editor.is_open_spec(),
            editor.params == params,
    {
        TestPluginEditor { params, parent: None }
    }

    /// Where the window sits inside its parent: the top left corner.
    pub fn position(&self) -> (at: (i32, i32))
        ensures
            at == (0i32, 0i32),
    {
        (0, 0)
    }

    /// The fixed size of the window, width first.
    pub fn size(&self) -> (extent: (i32, i32))
        ensures
            extent.0 == WINDOW_WIDTH,
            extent.1 == WINDOW_HEIGHT,
    {
        (WINDOW_WIDTH as i32, WINDOW_HEIGHT as i32)
    }

    /// Opens the editor under `parent`. A closed editor becomes open and the
    /// call returns `true`: the caller then owes the window. An editor that
    /// is already open is left exactly as it was and the call returns
    /// `false`.
    pub fn open(&mut self, parent: usize) -> (opened: bool)
        ensures
            opened == !old(self).is_open_spec(),
            final(self).is_open_spec(),
            opened ==> final(self).parent == Some(parent),
            !opened ==> *final(self) == *old(self),
            final(self).params == old(self).params,
    {
        if self.parent.is_some() {
            return false;
        }
        self.parent = Some(parent);
        true
    }

    /// Whether the window is open.
    pub fn is_open(&self) -> (open: bool)
        ensures
            open == self.is_open_spec(),
    {
        self.parent.is_some()
    }

    /// Closes the editor and lets go of the parent, whatever state it was in.
    /// The shared parameters are not touched.
    pub fn close(&mut self)
        ensures
            !final(self).is_open_spec(),
            final(self).params == old(self).params,
    {
        self.parent = None;
    }
}

/// The X11 window id carried by a parent handle: its low 32 bits.
pub fn x11_window_id(parent: usize) -> (id: u32)
    ensures
        id as int == (parent as int) % 0x1_0000_0000,
{
    ((parent as u64) % 0x1_0000_0000u64) as u32
}

} // verus!
