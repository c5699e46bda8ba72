//! The types of the diagnostics relay.

use vstd::prelude::*;

verus! {

/// Results of the diagnostics relay.
#[allow(non_camel_case_types)]
#[derive(Copy, Clone, Debug, PartialEq, Eq, Structural)]
pub enum diagnostics_relay_error_t {
    Success,
    InvalidArg,
    PlistError,
    MuxError,
    UnknownRequest,
    UnknownError,
}

pub const DIAGNOSTICS_RELAY_E_SUCCESS: diagnostics_relay_error_t = diagnostics_relay_error_t::Success;

pub const DIAGNOSTICS_RELAY_E_INVALID_ARG: diagnostics_relay_error_t = diagnostics_relay_error_t::InvalidArg;

pub const DIAGNOSTICS_RELAY_E_PLIST_ERROR: diagnostics_relay_error_t = diagnostics_relay_error_t::PlistError;

pub const DIAGNOSTICS_RELAY_E_MUX_ERROR: diagnostics_relay_error_t = diagnostics_relay_error_t::MuxError;

pub const DIAGNOSTICS_RELAY_E_UNKNOWN_REQUEST: diagnostics_relay_error_t = diagnostics_relay_error_t::UnknownRequest;

pub const DIAGNOSTICS_RELAY_E_UNKNOWN_ERROR: diagnostics_relay_error_t = diagnostics_relay_error_t::UnknownError;

impl diagnostics_relay_error_t {
    /// The number that stands for the value on the wire and in the C interface.
    pub open spec fn spec_code(self) -> i32 {
        match self {
            diagnostics_relay_error_t::Success => 0i32,
            diagnostics_relay_error_t::InvalidArg => (-1i32),
            diagnostics_relay_error_t::PlistError => (-2i32),
            diagnostics_relay_error_t::MuxError => (-3i32),
            diagnostics_relay_error_t::UnknownRequest => (-4i32),
            diagnostics_relay_error_t::UnknownError => (-256i32),
        }
    }

    /// The number that stands for the value.
    pub fn code(self) -> (r: i32)
        ensures
            r == self.spec_code(),
    {
        match self {
            diagnostics_relay_error_t::Success => 0,
            diagnostics_relay_error_t::InvalidArg => -1,
            diagnostics_relay_error_t::PlistError => -2,
            diagnostics_relay_error_t::MuxError => -3,
            diagnostics_relay_error_t::UnknownRequest => -4,
            diagnostics_relay_error_t::UnknownError => -256,
        }
    }

    /// The value that a number stands for, if it stands for one.
    pub fn from_code(code: i32) -> (r: Option<diagnostics_relay_error_t>)
        ensures
            r matches Some(v) ==> v.spec_code() == code,
            r is None ==> forall|v: diagnostics_relay_error_t| v.spec_code() != code,
    {
        match code {
            0 => Some(diagnostics_relay_error_t::Success),
            -1 => Some(diagnostics_relay_error_t::InvalidArg),
            -2 => Some(diagnostics_relay_error_t::PlistError),
            -3 => Some(diagnostics_relay_error_t::MuxError),
            -4 => Some(diagnostics_relay_error_t::UnknownRequest),
            -256 => Some(diagnostics_relay_error_t::UnknownError),
            _ => None,
        }
    }
}

} // verus!
