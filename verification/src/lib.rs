//! The core of a small renderer that shows a textured cube from an orbit
//! camera: the input table, the decisions of the camera controller, the
//! host-side mirror of the camera's uniform buffer, the descriptions of the
//! geometry, the texture and the pipeline, the handling of window events,
//! and the state machine that takes a frame from acquisition to
//! presentation.
//!
//! The library holds no handle to a window or a device. It says what is to
//! be done and in which order; a shell around it talks to the window system
//! and the graphics device, and does the camera's floating-point arithmetic.

pub mod binding;
pub mod camera;
pub mod commands;
pub mod event;
pub mod frame;
pub mod input;
pub mod pipeline;
pub mod primitives;
pub mod shapes;
pub mod surface;
pub mod texture;
pub mod window;
