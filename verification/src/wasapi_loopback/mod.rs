//! Capture of system sound on Windows: render endpoints as input-only loopback devices.

pub mod activation;
pub mod building;
pub mod capture_client;
pub mod device;
pub mod enumerate;
pub mod error;
pub mod format;
pub mod host;
pub mod process;
pub mod process_tree;
pub mod stream;
