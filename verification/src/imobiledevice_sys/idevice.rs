//! The types of the device interface.

use vstd::prelude::*;

verus! {

/// Results of the device interface.
#[allow(non_camel_case_types)]
#[derive(Copy, Clone, Debug, PartialEq, Eq, Structural)]
pub enum idevice_error_t {
    Success,
    InvalidArg,
    UnknownError,
    NoDevice,
    NotEnoughData,
    BadHeader,
    SslError,
}

pub const IDEVICE_E_SUCCESS: idevice_error_t = idevice_error_t::Success;

pub const IDEVICE_E_INVALID_ARG: idevice_error_t = idevice_error_t::InvalidArg;

pub const IDEVICE_E_UNKNOWN_ERROR: idevice_error_t = idevice_error_t::UnknownError;

pub const IDEVICE_E_NO_DEVICE: idevice_error_t = idevice_error_t::NoDevice;

pub const IDEVICE_E_NOT_ENOUGH_DATA: idevice_error_t = idevice_error_t::NotEnoughData;

pub const IDEVICE_E_BAD_HEADER: idevice_error_t = idevice_error_t::BadHeader;

pub const IDEVICE_E_SSL_ERROR: idevice_error_t = idevice_error_t::SslError;

impl idevice_error_t {
    /// The number that stands for the value on the wire and in the C interface.
    pub open spec fn spec_code(self) -> i32 {
        match self {
            idevice_error_t::Success => 0i32,
            idevice_error_t::InvalidArg => (-1i32),
            idevice_error_t::UnknownError => (-2i32),
            idevice_error_t::NoDevice => (-3i32),
            idevice_error_t::NotEnoughData => (-4i32),
            idevice_error_t::BadHeader => (-5i32),
            idevice_error_t::SslError => (-6i32),
        }
    }

    /// The number that stands for the value.
    pub fn code(self) -> (r: i32)
        ensures
            r == self.spec_code(),
    {
        match self {
            idevice_error_t::Success => 0,
            idevice_error_t::InvalidArg => -1,
            idevice_error_t::UnknownError => -2,
            idevice_error_t::NoDevice => -3,
            idevice_error_t::NotEnoughData => -4,
            idevice_error_t::BadHeader => -5,
            idevice_error_t::SslError => -6,
        }
    }

    /// The value that a number stands for, if it stands for one.
    pub fn from_code(code: i32) -> (r: Option<idevice_error_t>)
        ensures
            r matches Some(v) ==> v.spec_code() == code,
            r is None ==> forall|v: idevice_error_t| v.spec_code() != code,
    {
        match code {
            0 => Some(idevice_error_t::Success),
            -1 => Some(idevice_error_t::InvalidArg),
            -2 => Some(idevice_error_t::UnknownError),
            -3 => Some(idevice_error_t::NoDevice),
            -4 => Some(idevice_error_t::NotEnoughData),
            -5 => Some(idevice_error_t::BadHeader),
            -6 => Some(idevice_error_t::SslError),
            _ => None,
        }
    }
}

/// What a device event reports.
#[allow(non_camel_case_types)]
#[derive(Copy, Clone, Debug, PartialEq, Eq, Structural)]
pub enum idevice_event_type {
    DeviceAdd,
    DeviceRemove,
}

pub const IDEVICE_DEVICE_ADD: idevice_event_type = idevice_event_type::DeviceAdd;

pub const IDEVICE_DEVICE_REMOVE: idevice_event_type = idevice_event_type::DeviceRemove;

impl idevice_event_type {
    /// The number that stands for the value on the wire and in the C interface.
    pub open spec fn spec_code(self) -> u32 {
        match self {
            idevice_event_type::DeviceAdd => 1u32,
            idevice_event_type::DeviceRemove => 2u32,
        }
    }

    /// The number that stands for the value.
    pub fn code(self) -> (r: u32)
        ensures
            r == self.spec_code(),
    {
        match self {
            idevice_event_type::DeviceAdd => 1,
            idevice_event_type::DeviceRemove => 2,
        }
    }

    /// The value that a number stands for, if it stands for one.
    pub fn from_code(code: u32) -> (r: Option<idevice_event_type>)
        ensures
            r matches Some(v) ==> v.spec_code() == code,
            r is None ==> forall|v: idevice_event_type| v.spec_code() != code,
    {
        match code {
            1 => Some(idevice_event_type::DeviceAdd),
            2 => Some(idevice_event_type::DeviceRemove),
            _ => None,
        }
    }
}

} // verus!
