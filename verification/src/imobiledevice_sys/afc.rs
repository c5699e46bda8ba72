//! The types of the file-conduit service.

use vstd::prelude::*;

verus! {

/// Results of the file-conduit service.
#[allow(non_camel_case_types)]
#[derive(Copy, Clone, Debug, PartialEq, Eq, Structural)]
pub enum afc_error_t {
    Success,
    UnknownError,
    OpHeaderInvalid,
    NoResources,
    ReadError,
    WriteError,
    UnknownPacketType,
    InvalidArg,
    ObjectNotFound,
    ObjectIsDir,
    PermDenied,
    ServiceNotConnected,
    OpTimeout,
    TooMuchData,
    EndOfData,
    OpNotSupported,
    ObjectExists,
    ObjectBusy,
    NoSpaceLeft,
    OpWouldBlock,
    IoError,
    OpInterrupted,
    OpInProgress,
    InternalError,
    MuxError,
    NoMem,
    NotEnoughData,
    DirNotEmpty,
    ForceSignedType,
}

pub const AFC_E_SUCCESS: afc_error_t = afc_error_t::Success;

pub const AFC_E_UNKNOWN_ERROR: afc_error_t = afc_error_t::UnknownError;

pub const AFC_E_OP_HEADER_INVALID: afc_error_t = afc_error_t::OpHeaderInvalid;

pub const AFC_E_NO_RESOURCES: afc_error_t = afc_error_t::NoResources;

pub const AFC_E_READ_ERROR: afc_error_t = afc_error_t::ReadError;

pub const AFC_E_WRITE_ERROR: afc_error_t = afc_error_t::WriteError;

pub const AFC_E_UNKNOWN_PACKET_TYPE: afc_error_t = afc_error_t::UnknownPacketType;

pub const AFC_E_INVALID_ARG: afc_error_t = afc_error_t::InvalidArg;

pub const AFC_E_OBJECT_NOT_FOUND: afc_error_t = afc_error_t::ObjectNotFound;

pub const AFC_E_OBJECT_IS_DIR: afc_error_t = afc_error_t::ObjectIsDir;

pub const AFC_E_PERM_DENIED: afc_error_t = afc_error_t::PermDenied;

pub const AFC_E_SERVICE_NOT_CONNECTED: afc_error_t = afc_error_t::ServiceNotConnected;

pub const AFC_E_OP_TIMEOUT: afc_error_t = afc_error_t::OpTimeout;

pub const AFC_E_TOO_MUCH_DATA: afc_error_t = afc_error_t::TooMuchData;

pub const AFC_E_END_OF_DATA: afc_error_t = afc_error_t::EndOfData;

pub const AFC_E_OP_NOT_SUPPORTED: afc_error_t = afc_error_t::OpNotSupported;

pub const AFC_E_OBJECT_EXISTS: afc_error_t = afc_error_t::ObjectExists;

pub const AFC_E_OBJECT_BUSY: afc_error_t = afc_error_t::ObjectBusy;

pub const AFC_E_NO_SPACE_LEFT: afc_error_t = afc_error_t::NoSpaceLeft;

pub const AFC_E_OP_WOULD_BLOCK: afc_error_t = afc_error_t::OpWouldBlock;

pub const AFC_E_IO_ERROR: afc_error_t = afc_error_t::IoError;

pub const AFC_E_OP_INTERRUPTED: afc_error_t = afc_error_t::OpInterrupted;

pub const AFC_E_OP_IN_PROGRESS: afc_error_t = afc_error_t::OpInProgress;

pub const AFC_E_INTERNAL_ERROR: afc_error_t = afc_error_t::InternalError;

pub const AFC_E_MUX_ERROR: afc_error_t = afc_error_t::MuxError;

pub const AFC_E_NO_MEM: afc_error_t = afc_error_t::NoMem;

pub const AFC_E_NOT_ENOUGH_DATA: afc_error_t = afc_error_t::NotEnoughData;

pub const AFC_E_DIR_NOT_EMPTY: afc_error_t = afc_error_t::DirNotEmpty;

pub const AFC_E_FORCE_SIGNED_TYPE: afc_error_t = afc_error_t::ForceSignedType;

impl afc_error_t {
    /// The number that stands for the value on the wire and in the C interface.
    pub open spec fn spec_code(self) -> i32 {
        match self {
            afc_error_t::Success => 0i32,
            afc_error_t::UnknownError => 1i32,
            afc_error_t::OpHeaderInvalid => 2i32,
            afc_error_t::NoResources => 3i32,
            afc_error_t::ReadError => 4i32,
            afc_error_t::WriteError => 5i32,
            afc_error_t::UnknownPacketType => 6i32,
            afc_error_t::InvalidArg => 7i32,
            afc_error_t::ObjectNotFound => 8i32,
            afc_error_t::ObjectIsDir => 9i32,
            afc_error_t::PermDenied => 10i32,
            afc_error_t::ServiceNotConnected => 11i32,
            afc_error_t::OpTimeout => 12i32,
            afc_error_t::TooMuchData => 13i32,
            afc_error_t::EndOfData => 14i32,
            afc_error_t::OpNotSupported => 15i32,
            afc_error_t::ObjectExists => 16i32,
            afc_error_t::ObjectBusy => 17i32,
            afc_error_t::NoSpaceLeft => 18i32,
            afc_error_t::OpWouldBlock => 19i32,
            afc_error_t::IoError => 20i32,
            afc_error_t::OpInterrupted => 21i32,
            afc_error_t::OpInProgress => 22i32,
            afc_error_t::InternalError => 23i32,
            afc_error_t::MuxError => 30i32,
            afc_error_t::NoMem => 31i32,
            afc_error_t::NotEnoughData => 32i32,
            afc_error_t::DirNotEmpty => 33i32,
            afc_error_t::ForceSignedType => (-1i32),
        }
    }

    /// The number that stands for the value.
    pub fn code(self) -> (r: i32)
        ensures
            r == self.spec_code(),
    {
        match self {
            afc_error_t::Success => 0,
            afc_error_t::UnknownError => 1,
            afc_error_t::OpHeaderInvalid => 2,
            afc_error_t::NoResources => 3,
            afc_error_t::ReadError => 4,
            afc_error_t::WriteError => 5,
            afc_error_t::UnknownPacketType => 6,
            afc_error_t::InvalidArg => 7,
            afc_error_t::ObjectNotFound => 8,
            afc_error_t::ObjectIsDir => 9,
            afc_error_t::PermDenied => 10,
            afc_error_t::ServiceNotConnected => 11,
            afc_error_t::OpTimeout => 12,
            afc_error_t::TooMuchData => 13,
            afc_error_t::EndOfData => 14,
            afc_error_t::OpNotSupported => 15,
            afc_error_t::ObjectExists => 16,
            afc_error_t::ObjectBusy => 17,
            afc_error_t::NoSpaceLeft => 18,
            afc_error_t::OpWouldBlock => 19,
            afc_error_t::IoError => 20,
            afc_error_t::OpInterrupted => 21,
            afc_error_t::OpInProgress => 22,
            afc_error_t::InternalError => 23,
            afc_error_t::MuxError => 30,
            afc_error_t::NoMem => 31,
            afc_error_t::NotEnoughData => 32,
            afc_error_t::DirNotEmpty => 33,
            afc_error_t::ForceSignedType => -1,
        }
    }

    /// The value that a number stands for, if it stands for one.
    pub fn from_code(code: i32) -> (r: Option<afc_error_t>)
        ensures
            r matches Some(v) ==> v.spec_code() == code,
            r is None ==> forall|v: afc_error_t| v.spec_code() != code,
    {
        match code {
            0 => Some(afc_error_t::Success),
            1 => Some(afc_error_t::UnknownError),
            2 => Some(afc_error_t::OpHeaderInvalid),
            3 => Some(afc_error_t::NoResources),
            4 => Some(afc_error_t::ReadError),
            5 => Some(afc_error_t::WriteError),
            6 => Some(afc_error_t::UnknownPacketType),
            7 => Some(afc_error_t::InvalidArg),
            8 => Some(afc_error_t::ObjectNotFound),
            9 => Some(afc_error_t::ObjectIsDir),
            10 => Some(afc_error_t::PermDenied),
            11 => Some(afc_error_t::ServiceNotConnected),
            12 => Some(afc_error_t::OpTimeout),
            13 => Some(afc_error_t::TooMuchData),
            14 => Some(afc_error_t::EndOfData),
            15 => Some(afc_error_t::OpNotSupported),
            16 => Some(afc_error_t::ObjectExists),
            17 => Some(afc_error_t::ObjectBusy),
            18 => Some(afc_error_t::NoSpaceLeft),
            19 => Some(afc_error_t::OpWouldBlock),
            20 => Some(afc_error_t::IoError),
            21 => Some(afc_error_t::OpInterrupted),
            22 => Some(afc_error_t::OpInProgress),
            23 => Some(afc_error_t::InternalError),
            30 => Some(afc_error_t::MuxError),
            31 => Some(afc_error_t::NoMem),
            32 => Some(afc_error_t::NotEnoughData),
            33 => Some(afc_error_t::DirNotEmpty),
            -1 => Some(afc_error_t::ForceSignedType),
            _ => None,
        }
    }
}

/// Modes in which the file-conduit service opens a file.
#[allow(non_camel_case_types)]
#[derive(Copy, Clone, Debug, PartialEq, Eq, Structural)]
pub enum afc_file_mode_t {
    ReadOnly,
    ReadWrite,
    Truncate,
    ReadTruncate,
    Append,
    ReadAppend,
}

pub const AFC_FOPEN_RDONLY: afc_file_mode_t = afc_file_mode_t::ReadOnly;

pub const AFC_FOPEN_RW: afc_file_mode_t = afc_file_mode_t::ReadWrite;

pub const AFC_FOPEN_WRONLY: afc_file_mode_t = afc_file_mode_t::Truncate;

pub const AFC_FOPEN_WR: afc_file_mode_t = afc_file_mode_t::ReadTruncate;

pub const AFC_FOPEN_APPEND: afc_file_mode_t = afc_file_mode_t::Append;

pub const AFC_FOPEN_RDAPPEND: afc_file_mode_t = afc_file_mode_t::ReadAppend;

impl afc_file_mode_t {
    /// The number that stands for the value on the wire and in the C interface.
    pub open spec fn spec_code(self) -> u32 {
        match self {
            afc_file_mode_t::ReadOnly => 1u32,
            afc_file_mode_t::ReadWrite => 2u32,
            afc_file_mode_t::Truncate => 3u32,
            afc_file_mode_t::ReadTruncate => 4u32,
            afc_file_mode_t::Append => 5u32,
            afc_file_mode_t::ReadAppend => 6u32,
        }
    }

    /// The number that stands for the value.
    pub fn code(self) -> (r: u32)
        ensures
            r == self.spec_code(),
    {
        match self {
            afc_file_mode_t::ReadOnly => 1,
            afc_file_mode_t::ReadWrite => 2,
            afc_file_mode_t::Truncate => 3,
            afc_file_mode_t::ReadTruncate => 4,
            afc_file_mode_t::Append => 5,
            afc_file_mode_t::ReadAppend => 6,
        }
    }

    /// The value that a number stands for, if it stands for one.
    pub fn from_code(code: u32) -> (r: Option<afc_file_mode_t>)
        ensures
            r matches Some(v) ==> v.spec_code() == code,
            r is None ==> forall|v: afc_file_mode_t| v.spec_code() != code,
    {
        match code {
            1 => Some(afc_file_mode_t::ReadOnly),
            2 => Some(afc_file_mode_t::ReadWrite),
            3 => Some(afc_file_mode_t::Truncate),
            4 => Some(afc_file_mode_t::ReadTruncate),
            5 => Some(afc_file_mode_t::Append),
            6 => Some(afc_file_mode_t::ReadAppend),
            _ => None,
        }
    }
}

/// Kinds of link that the file-conduit service makes.
#[allow(non_camel_case_types)]
#[derive(Copy, Clone, Debug, PartialEq, Eq, Structural)]
pub enum afc_link_type_t {
    Hardlink,
    Symlink,
}

pub const AFC_HARDLINK: afc_link_type_t = afc_link_type_t::Hardlink;

pub const AFC_SYMLINK: afc_link_type_t = afc_link_type_t::Symlink;

impl afc_link_type_t {
    /// The number that stands for the value on the wire and in the C interface.
    pub open spec fn spec_code(self) -> u32 {
        match self {
            afc_link_type_t::Hardlink => 1u32,
            afc_link_type_t::Symlink => 2u32,
        }
    }

    /// The number that stands for the value.
    pub fn code(self) -> (r: u32)
        ensures
            r == self.spec_code(),
    {
        match self {
            afc_link_type_t::Hardlink => 1,
            afc_link_type_t::Symlink => 2,
        }
    }

    /// The value that a number stands for, if it stands for one.
    pub fn from_code(code: u32) -> (r: Option<afc_link_type_t>)
        ensures
            r matches Some(v) ==> v.spec_code() == code,
            r is None ==> forall|v: afc_link_type_t| v.spec_code() != code,
    {
        match code {
            1 => Some(afc_link_type_t::Hardlink),
            2 => Some(afc_link_type_t::Symlink),
            _ => None,
        }
    }
}

/// Lock operations of the file-conduit service.
#[allow(non_camel_case_types)]
#[derive(Copy, Clone, Debug, PartialEq, Eq, Structural)]
pub enum afc_lock_op_t {
    LockShared,
    LockExclusive,
    Unlock,
}

pub const AFC_LOCK_SH: afc_lock_op_t = afc_lock_op_t::LockShared;

pub const AFC_LOCK_EX: afc_lock_op_t = afc_lock_op_t::LockExclusive;

pub const AFC_LOCK_UN: afc_lock_op_t = afc_lock_op_t::Unlock;

impl afc_lock_op_t {
    /// The number that stands for the value on the wire and in the C interface.
    pub open spec fn spec_code(self) -> u32 {
        match self {
            afc_lock_op_t::LockShared => 5u32,
            afc_lock_op_t::LockExclusive => 6u32,
            afc_lock_op_t::Unlock => 12u32,
        }
    }

    /// The number that stands for the value.
    pub fn code(self) -> (r: u32)
        ensures
            r == self.spec_code(),
    {
        match self {
            afc_lock_op_t::LockShared => 5,
            afc_lock_op_t::LockExclusive => 6,
            afc_lock_op_t::Unlock => 12,
        }
    }

    /// The value that a number stands for, if it stands for one.
    pub fn from_code(code: u32) -> (r: Option<afc_lock_op_t>)
        ensures
            r matches Some(v) ==> v.spec_code() == code,
            r is None ==> forall|v: afc_lock_op_t| v.spec_code() != code,
    {
        match code {
            5 => Some(afc_lock_op_t::LockShared),
            6 => Some(afc_lock_op_t::LockExclusive),
            12 => Some(afc_lock_op_t::Unlock),
            _ => None,
        }
    }
}

} // verus!
