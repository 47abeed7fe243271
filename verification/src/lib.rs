//! Frame-resource lifecycle and two-pass render planning for a windowed GPU
//! renderer.
//!
//! Every frame, a small set of instanced triangles is rendered into an
//! offscreen color target, which is then blitted onto the window's surface.
//! This crate holds everything about that which can be decided without
//! touching a GPU or a window, and proves it:
//!
//! - [`surface`] and [`targets`]: the surface configuration and the
//!   resources derived from its size, rebuilt as one generation.
//! - [`layout`], [`geometry`] and [`frame`]: buffer layouts, the static
//!   geometry, pipelines, and the two passes of a frame.
//! - [`camera`] and [`instances`]: the camera and the instance poses,
//!   generic in their scalar; their matrices are the caller's arithmetic.
//! - [`context`]: bringing up the graphics context.
//! - [`renderer`]: the frame driver, a state machine from events to
//!   actions, which the caller carries out.
//! - [`xr`]: what is exchanged with a stereo runtime that brackets a frame.
//! - [`laws`]: what holds of the driver in every state and over whole
//!   ticks.

pub mod camera;
pub mod context;
pub mod frame;
pub mod geometry;
pub mod instances;
pub mod laws;
pub mod layout;
pub mod renderer;
pub mod surface;
pub mod targets;
pub mod xr;
