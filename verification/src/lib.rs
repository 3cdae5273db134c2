//! A minimal real-time display core: a resizable RGBA frame buffer with two
//! drawing primitives, and a render-loop state machine that paces redraws,
//! keeps buffer and surface dimensions in lockstep under resize events, and
//! decides when the frame and resize callbacks fire.
//!
//! The platform shell — window creation, the event source, the GPU
//! presentation surface and the clock — lives outside this crate; it feeds
//! reduced events in and carries the returned actions out.

pub mod frame;
pub mod render;
