//! The host.

use vstd::prelude::*;

use crate::types::{BackendSpecificError, DevicesError, ErrorView, HostUnavailable};
use crate::wasapi_loopback::device::Device;
use crate::wasapi_loopback::enumerate::{default_input_device, default_output_device, Devices};

verus! {

/// The WASAPI loopback host: its devices are the render endpoints, as capture devices.
#[derive(Debug)]
pub struct Host;

impl Host {
    /// The host is always there.
    pub fn new() -> (result: Result<Self, HostUnavailable>)
        ensures
            result is Ok,
    {
        Ok(Host)
    }

    /// The host is always available.
    pub fn is_available() -> (available: bool)
        ensures
            available,
    {
        true
    }

    /// The endpoints of a collection of so many, or why there is none.
    pub fn devices(&self, count: Result<u32, BackendSpecificError>) -> (result: Result<
        Devices,
        DevicesError,
    >)
        ensures
            match count {
                Ok(n) => result matches Ok(devices) && devices.well_formed() && devices.next_item
                    == 0 && devices.total_count == n,
                Err(error) => result matches Err(e) && e@ == ErrorView::BackendSpecific(error@),
            },
    {
        Devices::new(count)
    }

    /// The device of the default render endpoint, where there is one.
    pub fn default_input_device<C>(&self, endpoint_found: bool) -> (device: Option<Device<C>>)
        ensures
            endpoint_found ==> (device matches Some(d) && d.future_audio_client is None),
            !endpoint_found ==> device is None,
    {
        default_input_device(endpoint_found)
    }

    /// There is no output device.
    pub fn default_output_device<C>(&self) -> (device: Option<Device<C>>)
        ensures
            device is None,
    {
        default_output_device()
    }
}

} // verus!
