//! Capture, diff and stream: the pure core of a screen and audio assistant.
//!
//! The crate decides which captured frames are worth sending, prepares audio
//! chunks, builds the requests for the hosted model, decodes its streamed
//! answers and keeps the orchestration state. Every function is verified;
//! devices, sockets and the user interface live with the caller.

pub mod ai;
pub mod calendar;
pub mod capture;
pub mod clock;
pub mod encoding;
pub mod stream_manager;
pub mod text;
pub mod tray;
