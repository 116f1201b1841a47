//! Capture of system sound on macOS, through ScreenCaptureKit.

pub mod capture;
pub mod device;
pub mod enumerate;
pub mod host;
pub mod stream;
