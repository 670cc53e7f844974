//! The rendering contract of a program that shows one fixed mesh in a window.
//!
//! The program itself talks to a graphics device and to a window system. What
//! it decides is kept here, as plain values: which bytes go into the vertex
//! and index buffers, whether a shader binary is fit to be handed to a driver,
//! what state the render pipeline has, which commands make up a frame, and
//! which event of the window system leads to which action.
//!
//! - [`geometry`]: the mesh and the contents of its buffers.
//! - [`shader`]: SPIR-V modules and the examination of their container.
//! - [`pipeline`]: the state of the one render pipeline.
//! - [`frame`]: the render pass that is recorded for a frame.
//! - [`context`]: everything that is prepared once, and the frames it records.
//! - [`pump`]: the driver of the render loop.
//! - [`words`]: words of 32 bits and the bytes that store them.

pub mod context;
pub mod frame;
pub mod geometry;
pub mod pipeline;
pub mod pump;
pub mod shader;
pub mod words;
