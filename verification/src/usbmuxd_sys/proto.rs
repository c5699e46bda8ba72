//! Structures of the multiplexer protocol.

use vstd::prelude::*;

verus! {

pub const USBMUXD_PROTOCOL_VERSION: i32 = 0;

pub const USBMUXD_SOCKET_PORT: u16 = 27015;

/// Results that the multiplexer daemon answers with.
#[allow(non_camel_case_types)]
#[derive(Copy, Clone, Debug, PartialEq, Eq, Structural)]
pub enum usbmuxd_result {
    Okay,
    BadCommand,
    BadDev,
    ConnRefused,
    BadVersion,
}

pub const RESULT_OK: usbmuxd_result = usbmuxd_result::Okay;

pub const RESULT_BADCOMMAND: usbmuxd_result = usbmuxd_result::BadCommand;

pub const RESULT_BADDEV: usbmuxd_result = usbmuxd_result::BadDev;

pub const RESULT_CONNREFUSED: usbmuxd_result = usbmuxd_result::ConnRefused;

pub const RESULT_BADVERSION: usbmuxd_result = usbmuxd_result::BadVersion;

impl usbmuxd_result {
    /// The number that stands for the value on the wire and in the C interface.
    pub open spec fn spec_code(self) -> u32 {
        match self {
            usbmuxd_result::Okay => 0u32,
            usbmuxd_result::BadCommand => 1u32,
            usbmuxd_result::BadDev => 2u32,
            usbmuxd_result::ConnRefused => 3u32,
            usbmuxd_result::BadVersion => 6u32,
        }
    }

    /// The number that stands for the value.
    pub fn code(self) -> (r: u32)
        ensures
            r == self.spec_code(),
    {
        match self {
            usbmuxd_result::Okay => 0,
            usbmuxd_result::BadCommand => 1,
            usbmuxd_result::BadDev => 2,
            usbmuxd_result::ConnRefused => 3,
            usbmuxd_result::BadVersion => 6,
        }
    }

    /// The value that a number stands for, if it stands for one.
    pub fn from_code(code: u32) -> (r: Option<usbmuxd_result>)
        ensures
            r matches Some(v) ==> v.spec_code() == code,
            r is None ==> forall|v: usbmuxd_result| v.spec_code() != code,
    {
        match code {
            0 => Some(usbmuxd_result::Okay),
            1 => Some(usbmuxd_result::BadCommand),
            2 => Some(usbmuxd_result::BadDev),
            3 => Some(usbmuxd_result::ConnRefused),
            6 => Some(usbmuxd_result::BadVersion),
            _ => None,
        }
    }
}

/// Kinds of message of the multiplexer protocol.
#[allow(non_camel_case_types)]
#[derive(Copy, Clone, Debug, PartialEq, Eq, Structural)]
pub enum usbmuxd_msgtype {
    Result,
    Connect,
    Listen,
    DeviceAdd,
    DeviceRemove,
    Plist,
}

pub const MESSAGE_RESULT: usbmuxd_msgtype = usbmuxd_msgtype::Result;

pub const MESSAGE_CONNECT: usbmuxd_msgtype = usbmuxd_msgtype::Connect;

pub const MESSAGE_LISTEN: usbmuxd_msgtype = usbmuxd_msgtype::Listen;

pub const MESSAGE_DEVICE_ADD: usbmuxd_msgtype = usbmuxd_msgtype::DeviceAdd;

pub const MESSAGE_DEVICE_REMOVE: usbmuxd_msgtype = usbmuxd_msgtype::DeviceRemove;

pub const MESSAGE_PLIST: usbmuxd_msgtype = usbmuxd_msgtype::Plist;

impl usbmuxd_msgtype {
    /// The number that stands for the value on the wire and in the C interface.
    pub open spec fn spec_code(self) -> u32 {
        match self {
            usbmuxd_msgtype::Result => 1u32,
            usbmuxd_msgtype::Connect => 2u32,
            usbmuxd_msgtype::Listen => 3u32,
            usbmuxd_msgtype::DeviceAdd => 4u32,
            usbmuxd_msgtype::DeviceRemove => 5u32,
            usbmuxd_msgtype::Plist => 8u32,
        }
    }

    /// The number that stands for the value.
    pub fn code(self) -> (r: u32)
        ensures
            r == self.spec_code(),
    {
        match self {
            usbmuxd_msgtype::Result => 1,
            usbmuxd_msgtype::Connect => 2,
            usbmuxd_msgtype::Listen => 3,
            usbmuxd_msgtype::DeviceAdd => 4,
            usbmuxd_msgtype::DeviceRemove => 5,
            usbmuxd_msgtype::Plist => 8,
        }
    }

    /// The value that a number stands for, if it stands for one.
    pub fn from_code(code: u32) -> (r: Option<usbmuxd_msgtype>)
        ensures
            r matches Some(v) ==> v.spec_code() == code,
            r is None ==> forall|v: usbmuxd_msgtype| v.spec_code() != code,
    {
        match code {
            1 => Some(usbmuxd_msgtype::Result),
            2 => Some(usbmuxd_msgtype::Connect),
            3 => Some(usbmuxd_msgtype::Listen),
            4 => Some(usbmuxd_msgtype::DeviceAdd),
            5 => Some(usbmuxd_msgtype::DeviceRemove),
            8 => Some(usbmuxd_msgtype::Plist),
            _ => None,
        }
    }
}

/// The header of every message: the length of the whole message in bytes, the version of
/// the protocol, the kind of message and a tag that the answer repeats.
#[allow(non_camel_case_types)]
pub struct usbmuxd_header {
    pub length: u32,
    pub version: u32,
    pub message: u32,
    pub tag: u32,
}

/// The answer to a request.
#[allow(non_camel_case_types)]
pub struct usbmuxd_result_msg {
    pub header: usbmuxd_header,
    pub result: u32,
}

/// A request to connect to a port of a device.
#[allow(non_camel_case_types)]
pub struct usbmuxd_connect_request {
    pub header: usbmuxd_header,
    pub device_id: u32,
    pub port: u16,
    pub _reserved: u16,
}

/// A request to be told of devices that come and go.
#[allow(non_camel_case_types)]
pub struct usbmuxd_listen_request {
    pub header: usbmuxd_header,
}

} // verus!
