//! The decision core of a small fixed-timestep arena simulation: the integer
//! geometry of its bodies, the order and classification of their contacts,
//! the host loop's state machine, the draw list of a frame and the capture
//! of presented frames.

pub mod config;
pub mod frame_capture;
pub mod host_loop;
pub mod pairs;
pub mod physics;
pub mod rect;
pub mod renderer;
