//! The types of the multiplexer daemon's interface.

pub mod proto;

use vstd::prelude::*;

verus! {

/// What a multiplexer event reports.
#[allow(non_camel_case_types)]
#[derive(Copy, Clone, Debug, PartialEq, Eq, Structural)]
pub enum usbmuxd_event_type {
    DeviceAdd,
    DeviceRemove,
}

pub const UE_DEVICE_ADD: usbmuxd_event_type = usbmuxd_event_type::DeviceAdd;

pub const UE_DEVICE_REMOVE: usbmuxd_event_type = usbmuxd_event_type::DeviceRemove;

impl usbmuxd_event_type {
    /// The number that stands for the value on the wire and in the C interface.
    pub open spec fn spec_code(self) -> u32 {
        match self {
            usbmuxd_event_type::DeviceAdd => 1u32,
            usbmuxd_event_type::DeviceRemove => 2u32,
        }
    }

    /// The number that stands for the value.
    pub fn code(self) -> (r: u32)
        ensures
            r == self.spec_code(),
    {
        match self {
            usbmuxd_event_type::DeviceAdd => 1,
            usbmuxd_event_type::DeviceRemove => 2,
        }
    }

    /// The value that a number stands for, if it stands for one.
    pub fn from_code(code: u32) -> (r: Option<usbmuxd_event_type>)
        ensures
            r matches Some(v) ==> v.spec_code() == code,
            r is None ==> forall|v: usbmuxd_event_type| v.spec_code() != code,
    {
        match code {
            1 => Some(usbmuxd_event_type::DeviceAdd),
            2 => Some(usbmuxd_event_type::DeviceRemove),
            _ => None,
        }
    }
}

} // verus!
