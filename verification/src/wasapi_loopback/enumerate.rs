//! Enumeration of the render endpoints.

use vstd::prelude::*;

use crate::types::{BackendSpecificError, DevicesError, ErrorView};
use crate::wasapi_loopback::device::Device;

verus! {

/// The active render endpoints, by their places in the system's collection.
pub struct Devices {
    pub total_count: u32,
    pub next_item: u32,
}

impl Devices {
    /// The next item is in the collection, or behind its end.
    pub open spec fn well_formed(self) -> bool {
        self.next_item <= self.total_count
    }

    /// The places that are left.
    pub open spec fn left(self) -> Seq<u32> {
        Seq::new(
            (self.total_count - self.next_item) as nat,
            |i: int| (self.next_item + i) as u32,
        )
    }

    /// The endpoints of a collection of so many, or why there is none.
    pub fn new(count: Result<u32, BackendSpecificError>) -> (result: Result<
        Devices,
        DevicesError,
    >)
        ensures
            match count {
                Ok(n) => result matches Ok(devices) && devices.well_formed() && devices.next_item
                    == 0 && devices.total_count == n,
                Err(error) => result matches Err(e) && e@ == ErrorView::BackendSpecific(error@),
            },
    {
        match count {
            Ok(total_count) => Ok(Devices { total_count, next_item: 0 }),
            Err(err) => Err(DevicesError::BackendSpecific { err }),
        }
    }

    /// The place of the next endpoint.
    pub fn next(&mut self) -> (item: Option<u32>)
        requires
            old(self).well_formed(),
        ensures
            final(self).well_formed(),
            final(self).total_count == old(self).total_count,
            old(self).left().len() == 0 ==> item is None && final(self).left() == old(self).left(),
            item is Some <==> old(self).next_item < old(self).total_count,
            item matches Some(place) ==> place == old(self).next_item && final(self).next_item
                == old(self).next_item + 1,
            item is None ==> final(self).next_item == old(self).next_item,
            old(self).left().len() > 0 ==> item == Some(old(self).left()[0]) && final(self).left()
                == old(self).left().skip(1),
    {
        if self.next_item >= self.total_count {
            return None;
        }
        let item: u32 = self.next_item;
        self.next_item = self.next_item + 1;
        proof {
            assert(self.left() =~= old(self).left().skip(1));
        }
        Some(item)
    }

    /// How many endpoints are left: exactly so many.
    pub fn size_hint(&self) -> (hint: (usize, Option<usize>))
        requires
            self.well_formed(),
        ensures
            hint.0 == self.left().len(),
            hint.0 == self.total_count - self.next_item,
            hint.1 == Some(hint.0),
    {
        let num: usize = (self.total_count - self.next_item) as usize;
        (num, Some(num))
    }
}

/// Devices that have not been walked give each place of the collection once, in order.
pub proof fn devices_cover_the_collection(devices: Devices, i: int)
    requires
        devices.next_item == 0,
        0 <= i < devices.total_count,
    ensures
        devices.left().len() == devices.total_count,
        devices.left()[i] == i,
{
}

/// The device of the default render endpoint, where there is one.
pub fn default_input_device<C>(endpoint_found: bool) -> (device: Option<Device<C>>)
    ensures
        endpoint_found ==> (device matches Some(d) && d.future_audio_client is None),
        !endpoint_found ==> device is None,
{
    if endpoint_found {
        Some(Device::from_immdevice())
    } else {
        None
    }
}

/// There is no output device.
pub fn default_output_device<C>() -> (device: Option<Device<C>>)
    ensures
        device is None,
{
    None
}

} // verus!
