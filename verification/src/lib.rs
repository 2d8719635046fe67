//! A gain effect for an audio host: one shared amplitude, the indexed
//! parameter surface the host automates it through, the editor's open/closed
//! state, and the per-block scaling of samples.
//!
//! Single-precision values cross this library as their IEEE-754 binary32 bit
//! patterns, held in `u32`.

pub mod editor;
pub mod params;
pub mod plugin;
pub mod process;
pub mod store;
pub mod widget;
