//! Core of a video playback pipeline: a decode worker feeds RGBA frames
//! through a non-blocking channel to a renderer that uploads the newest
//! pending frame into a fixed-resolution texture and draws it into a
//! viewport rectangle reported by the UI layout pass.

pub mod channel;
pub mod frame;
pub mod gpu;
pub mod gui;
pub mod loader;
pub mod playback;
pub mod viewport;
