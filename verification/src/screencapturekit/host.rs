//! The host.

use vstd::prelude::*;

use crate::screencapturekit::device::Device;
use crate::screencapturekit::enumerate::{
    default_input_device, default_output_device, devices_of, Devices, Display,
};
use crate::types::{DevicesError, HostUnavailable};

verus! {

/// The ScreenCaptureKit host: its devices are the displays.
#[derive(Debug)]
pub struct Host;

impl Host {
    /// The host is always there.
    pub fn new() -> (result: Result<Self, HostUnavailable>)
        ensures
            result is Ok,
    {
        Ok(Host)
    }

    /// The host is always available.
    pub fn is_available() -> (available: bool)
        ensures
            available,
    {
        true
    }

    /// The devices of the displays that were found, or why there are none.
    pub fn devices(&self, displays: Result<Vec<Display>, DevicesError>) -> (result: Result<
        Devices,
        DevicesError,
    >)
        ensures
            match displays {
                Ok(found) => result matches Ok(devices) && devices_of(devices@, found@),
                Err(e) => result == Err::<Devices, DevicesError>(e),
            },
    {
        Devices::new(displays)
    }

    /// The device of the first display.
    pub fn default_input_device(&self, displays: Result<Vec<Display>, DevicesError>) -> (device:
        Option<Device>)
        ensures
            match displays {
                Ok(found) => if found@.len() > 0 {
                    device matches Some(d) && d.stands_for(found@[0])
                } else {
                    device is None
                },
                Err(_) => device is None,
            },
    {
        default_input_device(displays)
    }

    /// There is no output device.
    pub fn default_output_device(&self) -> (device: Option<Device>)
        ensures
            device is None,
    {
        default_output_device()
    }
}

} // verus!
