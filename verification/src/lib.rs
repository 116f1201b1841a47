//! Capture of the sound that a computer plays.

pub mod screencapturekit;
pub mod text;
pub mod types;
pub mod wasapi_loopback;
