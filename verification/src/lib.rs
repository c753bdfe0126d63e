//! Device-side USB HID class support: report builders for keyboards (NKRO and
//! boot protocol), mice and consumer control, the per-interface pacing engine
//! that implements the HID idle protocol, control-request routing, and
//! descriptor assembly.

use vstd::prelude::*;

pub mod bits;
pub mod consumer;
pub mod descriptor;
pub mod hid_class;
pub mod interface;
pub mod keyboard;
pub mod mouse;
pub mod page;

verus! {

#[verifier::external_type_specification]
#[verifier::external_body]
pub struct ExUsbError(usb_device::UsbError);

/// Error kinds surfaced to the application.
#[derive(Debug)]
pub enum UsbHidError {
    /// Transient back-pressure: the endpoint buffer is full, retry later.
    WouldBlock,
    /// The report equals the last transmitted one and the idle window has not
    /// expired; a normal pacing outcome.
    Duplicate,
    /// A fatal bus-driver error, surfaced unchanged.
    UsbError(usb_device::UsbError),
    /// Builder inputs were inconsistent with the report layout.
    SerializationError,
}

/// Relies on usb_device::UsbError: `WouldBlock` is the one transient variant
/// (device busy or no data available); every other variant is a bus fault.
#[verifier::external_body]
fn classify_bus_error(e: usb_device::UsbError) -> (r: UsbHidError)
    ensures
        r is WouldBlock || r is UsbError,
{
    match e {
        usb_device::UsbError::WouldBlock => UsbHidError::WouldBlock,
        _ => UsbHidError::UsbError(e),
    }
}

impl From<usb_device::UsbError> for UsbHidError {
    fn from(e: usb_device::UsbError) -> (r: Self) {
        classify_bus_error(e)
    }
}

impl vstd::std_specs::convert::FromSpecImpl<usb_device::UsbError> for UsbHidError {
    open spec fn obeys_from_spec() -> bool {
        false
    }

    open spec fn from_spec(e: usb_device::UsbError) -> UsbHidError {
        UsbHidError::UsbError(e)
    }
}

} // verus!
