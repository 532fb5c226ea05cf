//! A windowing and OpenGL device layer whose decisions are verified.
//!
//! The library holds the rules of the device lifecycle, of picking a
//! framebuffer configuration and of owning GPU resources. It never touches the
//! platform or the driver itself: every operation takes what the platform
//! answered as plain values and returns the driver calls and platform commands
//! that the embedding program has to carry out, in order.

pub mod gl;
pub mod opengl;
pub mod texture;
pub mod shader;
pub mod buffer;
pub mod app;
pub mod context;
pub mod input;
pub mod game_loop;
pub mod config;
pub mod file;
pub mod game_app;
