//! Frame orchestration for a small real-time renderer.
//!
//! The crate holds the decisions of the renderer: which surface configuration
//! is in force, which passes a frame is made of and in which order, how text
//! blocks are stacked, and how a frame is begun, retried, skipped and ended.
//! It touches no device: the caller performs what the functions here hand
//! back and reports what the device answered.

pub mod assets;
pub mod context;
pub mod entity;
pub mod frame;
pub mod layout;
pub mod pass;
pub mod renderer;
pub mod units;
