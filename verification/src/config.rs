//! The integer and text sections of the configuration.

use vstd::prelude::*;

verus! {

/// The output window and the virtual arena that is scaled onto it.
#[derive(Clone, Debug)]
pub struct WindowConfig {
    pub title: String,
    pub width: u32,
    pub height: u32,
    pub virtual_width: u32,
    pub virtual_height: u32,
    pub fullscreen: bool,
    pub vsync: bool,
    pub scaling_quality: String,
}

/// The two flat colours of a frame, as red, green and blue bytes.
#[derive(Clone, Copy, Debug)]
pub struct RendererConfig {
    pub background_color: [u8; 3],
    pub object_color: [u8; 3],
}

/// The capture of presented frames.
#[derive(Clone, Debug)]
pub struct DebugConfig {
    pub enable_frame_capture: bool,
    pub output_directory: String,
    pub max_captured_frames: usize,
    pub frame_capture_interval: u32,
}

} // verus!
