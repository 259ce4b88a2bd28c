//! The decision logic of a game recorder.
//!
//! The recorder watches which window has the focus. While the target window
//! has it, the recorder captures a video of that window together with every
//! keyboard and mouse event. This library decides what is to be done and holds
//! all state that the decisions rest on. Whatever touches the operating system
//! is left to its caller.

pub mod capture;
pub mod columns;
pub mod error;
pub mod focus;
pub mod input;
pub mod messages;
pub mod recorder;
pub mod session;
pub mod text;
pub mod threads;
