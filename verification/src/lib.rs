//! Core logic of a small 3D piano: the fixed key layout, the mapping from
//! typing keys to piano keys and notes, the highlight colour of a key under
//! a press or release, the queue of notes being mixed, and the application
//! state transitions driven by the start menu. The engine front end
//! (rendering, audio playback, immediate-mode UI) lives outside this crate
//! and consumes these functions through plain values.

pub mod debug;
pub mod highlight;
pub mod input;
pub mod keys;
pub mod menu;
pub mod notes;
pub mod queue;
