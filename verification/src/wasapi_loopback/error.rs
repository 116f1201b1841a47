//! What the errors of the Windows audio interfaces come to.

use vstd::prelude::*;

use crate::types::{
    BackendSpecificError, BuildStreamError, DefaultStreamConfigError, ErrorView,
    SupportedStreamConfigsError,
};

verus! {

/// The endpoint was unplugged or reconfigured: `AUDCLNT_E_DEVICE_INVALIDATED`, `0x88890004`.
pub const DEVICE_INVALIDATED: i32 = -2004287484;

/// The endpoint is in use: `AUDCLNT_E_DEVICE_IN_USE`, `0x8889000A`.
pub const DEVICE_IN_USE: i32 = -2004287478;

/// An error of a Windows interface: its code, and the text as which it is shown. The text is the
/// system's message with the code behind it in parentheses, or the code alone where there is no
/// message.
#[derive(Clone, Debug)]
pub struct WindowsError {
    pub code: i32,
    pub message: String,
}

/// The errors that can say that a device is not available.
pub trait ErrDeviceNotAvailable: View<V = ErrorView> + Sized {
    /// The device is not available.
    fn device_not_available() -> (error: Self)
        ensures
            error@ == ErrorView::DeviceNotAvailable,
    ;

    /// An error in the words of the platform.
    fn from_backend(err: BackendSpecificError) -> (error: Self)
        ensures
            error@ == ErrorView::BackendSpecific(err@),
    ;
}

impl ErrDeviceNotAvailable for BuildStreamError {
    fn device_not_available() -> (error: Self) {
        BuildStreamError::DeviceNotAvailable
    }

    fn from_backend(err: BackendSpecificError) -> (error: Self) {
        BuildStreamError::BackendSpecific { err }
    }
}

impl ErrDeviceNotAvailable for SupportedStreamConfigsError {
    fn device_not_available() -> (error: Self) {
        SupportedStreamConfigsError::DeviceNotAvailable
    }

    fn from_backend(err: BackendSpecificError) -> (error: Self) {
        SupportedStreamConfigsError::BackendSpecific { err }
    }
}

impl ErrDeviceNotAvailable for DefaultStreamConfigError {
    fn device_not_available() -> (error: Self) {
        DefaultStreamConfigError::DeviceNotAvailable
    }

    fn from_backend(err: BackendSpecificError) -> (error: Self) {
        DefaultStreamConfigError::BackendSpecific { err }
    }
}

/// What an error says where an endpoint that is in use counts as not available.
pub open spec fn device_error(error: WindowsError) -> ErrorView {
    if error.code == DEVICE_INVALIDATED || error.code == DEVICE_IN_USE {
        ErrorView::DeviceNotAvailable
    } else {
        ErrorView::BackendSpecific(error.message@)
    }
}

/// What an error says where only an invalidated endpoint counts as not available.
pub open spec fn invalidation_error(error: WindowsError) -> ErrorView {
    if error.code == DEVICE_INVALIDATED {
        ErrorView::DeviceNotAvailable
    } else {
        ErrorView::BackendSpecific(error.message@)
    }
}

/// An error says that the device is not available exactly when the endpoint is invalidated, or,
/// where that counts, in use. Any other error is in the words of the platform.
pub proof fn errors_tell_missing_devices(error: WindowsError)
    ensures
        device_error(error) == ErrorView::DeviceNotAvailable <==> error.code == -2004287484
            || error.code == -2004287478,
        invalidation_error(error) == ErrorView::DeviceNotAvailable <==> error.code == -2004287484,
        device_error(error) != ErrorView::DeviceNotAvailable ==> device_error(error)
            == ErrorView::BackendSpecific(error.message@),
        invalidation_error(error) != ErrorView::DeviceNotAvailable ==> invalidation_error(error)
            == ErrorView::BackendSpecific(error.message@),
{
}

/// The error of an operation on an endpoint. An endpoint that is invalidated or in use is not
/// available.
pub fn windows_err_to_cpal_err<E: ErrDeviceNotAvailable>(error: WindowsError) -> (converted: E)
    ensures
        converted@ == device_error(error),
        error.code == -2004287484 || error.code == -2004287478 ==> converted@
            == ErrorView::DeviceNotAvailable,
        error.code != -2004287484 && error.code != -2004287478 ==> converted@
            == ErrorView::BackendSpecific(error.message@),
{
    if error.code == DEVICE_INVALIDATED || error.code == DEVICE_IN_USE {
        E::device_not_available()
    } else {
        E::from_backend(BackendSpecificError { description: error.message })
    }
}

/// The error of an operation on an endpoint. An endpoint that is invalidated is not available.
pub fn invalidated_or_backend<E: ErrDeviceNotAvailable>(error: WindowsError) -> (converted: E)
    ensures
        converted@ == invalidation_error(error),
        error.code == -2004287484 ==> converted@ == ErrorView::DeviceNotAvailable,
        error.code != -2004287484 ==> converted@ == ErrorView::BackendSpecific(error.message@),
{
    if error.code == DEVICE_INVALIDATED {
        E::device_not_available()
    } else {
        E::from_backend(BackendSpecificError { description: error.message })
    }
}

} // verus!
