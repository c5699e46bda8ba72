//! The types of the lockdown service.

use vstd::prelude::*;

verus! {

/// Results of the lockdown service.
#[allow(non_camel_case_types)]
#[derive(Copy, Clone, Debug, PartialEq, Eq, Structural)]
pub enum lockdownd_error_t {
    Success,
    InvalidArg,
    InvalidConf,
    PlistError,
    PairingFailed,
    SslError,
    DictError,
    NotEnoughData,
    MuxError,
    NoRunningSession,
    InvalidResponse,
    MissingKey,
    MissingValue,
    GetProhibited,
    SetProhibited,
    RemoveProhibited,
    ImmutableValue,
    PasswordProtected,
    UserDeniedPairing,
    PairingDialogResponsePending,
    MissingHostId,
    InvalidHostId,
    SessionActive,
    SessionInactive,
    MissingSessionId,
    InvalidSessionId,
    MissingService,
    InvalidService,
    ServiceLimit,
    MissingPairRecord,
    SavePairRecordFailed,
    InvalidPairRecord,
    InvalidActivationRecord,
    MissingActivationRecord,
    ServiceProhibited,
    EscrowLocked,
    UnknownError,
}

pub const LOCKDOWN_E_SUCCESS: lockdownd_error_t = lockdownd_error_t::Success;

pub const LOCKDOWN_E_INVALID_ARG: lockdownd_error_t = lockdownd_error_t::InvalidArg;

pub const LOCKDOWN_E_INVALID_CONF: lockdownd_error_t = lockdownd_error_t::InvalidConf;

pub const LOCKDOWN_E_PLIST_ERROR: lockdownd_error_t = lockdownd_error_t::PlistError;

pub const LOCKDOWN_E_PAIRING_FAILED: lockdownd_error_t = lockdownd_error_t::PairingFailed;

pub const LOCKDOWN_E_SSL_ERROR: lockdownd_error_t = lockdownd_error_t::SslError;

pub const LOCKDOWN_E_DICT_ERROR: lockdownd_error_t = lockdownd_error_t::DictError;

pub const LOCKDOWN_E_NOT_ENOUGH_DATA: lockdownd_error_t = lockdownd_error_t::NotEnoughData;

pub const LOCKDOWN_E_MUX_ERROR: lockdownd_error_t = lockdownd_error_t::MuxError;

pub const LOCKDOWN_E_NO_RUNNING_SESSION: lockdownd_error_t = lockdownd_error_t::NoRunningSession;

pub const LOCKDOWN_E_INVALID_RESPONSE: lockdownd_error_t = lockdownd_error_t::InvalidResponse;

pub const LOCKDOWN_E_MISSING_KEY: lockdownd_error_t = lockdownd_error_t::MissingKey;

pub const LOCKDOWN_E_MISSING_VALUE: lockdownd_error_t = lockdownd_error_t::MissingValue;

pub const LOCKDOWN_E_GET_PROHIBITED: lockdownd_error_t = lockdownd_error_t::GetProhibited;

pub const LOCKDOWN_E_SET_PROHIBITED: lockdownd_error_t = lockdownd_error_t::SetProhibited;

pub const LOCKDOWN_E_REMOVE_PROHIBITED: lockdownd_error_t = lockdownd_error_t::RemoveProhibited;

pub const LOCKDOWN_E_IMMUTABLE_VALUE: lockdownd_error_t = lockdownd_error_t::ImmutableValue;

pub const LOCKDOWN_E_PASSWORD_PROTECTED: lockdownd_error_t = lockdownd_error_t::PasswordProtected;

pub const LOCKDOWN_E_USER_DENIED_PAIRING: lockdownd_error_t = lockdownd_error_t::UserDeniedPairing;

pub const LOCKDOWN_E_PAIRING_DIALOG_RESPONSE_PENDING: lockdownd_error_t = lockdownd_error_t::PairingDialogResponsePending;

pub const LOCKDOWN_E_MISSING_HOST_ID: lockdownd_error_t = lockdownd_error_t::MissingHostId;

pub const LOCKDOWN_E_INVALID_HOST_ID: lockdownd_error_t = lockdownd_error_t::InvalidHostId;

pub const LOCKDOWN_E_SESSION_ACTIVE: lockdownd_error_t = lockdownd_error_t::SessionActive;

pub const LOCKDOWN_E_SESSION_INACTIVE: lockdownd_error_t = lockdownd_error_t::SessionInactive;

pub const LOCKDOWN_E_MISSING_SESSION_ID: lockdownd_error_t = lockdownd_error_t::MissingSessionId;

pub const LOCKDOWN_E_INVALID_SESSION_ID: lockdownd_error_t = lockdownd_error_t::InvalidSessionId;

pub const LOCKDOWN_E_MISSING_SERVICE: lockdownd_error_t = lockdownd_error_t::MissingService;

pub const LOCKDOWN_E_INVALID_SERVICE: lockdownd_error_t = lockdownd_error_t::InvalidService;

pub const LOCKDOWN_E_SERVICE_LIMIT: lockdownd_error_t = lockdownd_error_t::ServiceLimit;

pub const LOCKDOWN_E_MISSING_PAIR_RECORD: lockdownd_error_t = lockdownd_error_t::MissingPairRecord;

pub const LOCKDOWN_E_SAVE_PAIR_RECORD_FAILED: lockdownd_error_t = lockdownd_error_t::SavePairRecordFailed;

pub const LOCKDOWN_E_INVALID_PAIR_RECORD: lockdownd_error_t = lockdownd_error_t::InvalidPairRecord;

pub const LOCKDOWN_E_INVALID_ACTIVATION_RECORD: lockdownd_error_t = lockdownd_error_t::InvalidActivationRecord;

pub const LOCKDOWN_E_MISSING_ACTIVATION_RECORD: lockdownd_error_t = lockdownd_error_t::MissingActivationRecord;

pub const LOCKDOWN_E_SERVICE_PROHIBITED: lockdownd_error_t = lockdownd_error_t::ServiceProhibited;

pub const LOCKDOWN_E_ESCROW_LOCKED: lockdownd_error_t = lockdownd_error_t::EscrowLocked;

pub const LOCKDOWN_E_UNKNOWN_ERROR: lockdownd_error_t = lockdownd_error_t::UnknownError;

impl lockdownd_error_t {
    /// The number that stands for the value on the wire and in the C interface.
    pub open spec fn spec_code(self) -> i32 {
        match self {
            lockdownd_error_t::Success => 0i32,
            lockdownd_error_t::InvalidArg => (-1i32),
            lockdownd_error_t::InvalidConf => (-2i32),
            lockdownd_error_t::PlistError => (-3i32),
            lockdownd_error_t::PairingFailed => (-4i32),
            lockdownd_error_t::SslError => (-5i32),
            lockdownd_error_t::DictError => (-6i32),
            lockdownd_error_t::NotEnoughData => (-7i32),
            lockdownd_error_t::MuxError => (-8i32),
            lockdownd_error_t::NoRunningSession => (-9i32),
            lockdownd_error_t::InvalidResponse => (-10i32),
            lockdownd_error_t::MissingKey => (-11i32),
            lockdownd_error_t::MissingValue => (-12i32),
            lockdownd_error_t::GetProhibited => (-13i32),
            lockdownd_error_t::SetProhibited => (-14i32),
            lockdownd_error_t::RemoveProhibited => (-15i32),
            lockdownd_error_t::ImmutableValue => (-16i32),
            lockdownd_error_t::PasswordProtected => (-17i32),
            lockdownd_error_t::UserDeniedPairing => (-18i32),
            lockdownd_error_t::PairingDialogResponsePending => (-19i32),
            lockdownd_error_t::MissingHostId => (-20i32),
            lockdownd_error_t::InvalidHostId => (-21i32),
            lockdownd_error_t::SessionActive => (-22i32),
            lockdownd_error_t::SessionInactive => (-23i32),
            lockdownd_error_t::MissingSessionId => (-24i32),
            lockdownd_error_t::InvalidSessionId => (-25i32),
            lockdownd_error_t::MissingService => (-26i32),
            lockdownd_error_t::InvalidService => (-27i32),
            lockdownd_error_t::ServiceLimit => (-28i32),
            lockdownd_error_t::MissingPairRecord => (-29i32),
            lockdownd_error_t::SavePairRecordFailed => (-30i32),
            lockdownd_error_t::InvalidPairRecord => (-31i32),
            lockdownd_error_t::InvalidActivationRecord => (-32i32),
            lockdownd_error_t::MissingActivationRecord => (-33i32),
            lockdownd_error_t::ServiceProhibited => (-34i32),
            lockdownd_error_t::EscrowLocked => (-35i32),
            lockdownd_error_t::UnknownError => (-256i32),
        }
    }

    /// The number that stands for the value.
    pub fn code(self) -> (r: i32)
        ensures
            r == self.spec_code(),
    {
        match self {
            lockdownd_error_t::Success => 0,
            lockdownd_error_t::InvalidArg => -1,
            lockdownd_error_t::InvalidConf => -2,
            lockdownd_error_t::PlistError => -3,
            lockdownd_error_t::PairingFailed => -4,
            lockdownd_error_t::SslError => -5,
            lockdownd_error_t::DictError => -6,
            lockdownd_error_t::NotEnoughData => -7,
            lockdownd_error_t::MuxError => -8,
            lockdownd_error_t::NoRunningSession => -9,
            lockdownd_error_t::InvalidResponse => -10,
            lockdownd_error_t::MissingKey => -11,
            lockdownd_error_t::MissingValue => -12,
            lockdownd_error_t::GetProhibited => -13,
            lockdownd_error_t::SetProhibited => -14,
            lockdownd_error_t::RemoveProhibited => -15,
            lockdownd_error_t::ImmutableValue => -16,
            lockdownd_error_t::PasswordProtected => -17,
            lockdownd_error_t::UserDeniedPairing => -18,
            lockdownd_error_t::PairingDialogResponsePending => -19,
            lockdownd_error_t::MissingHostId => -20,
            lockdownd_error_t::InvalidHostId => -21,
            lockdownd_error_t::SessionActive => -22,
            lockdownd_error_t::SessionInactive => -23,
            lockdownd_error_t::MissingSessionId => -24,
            lockdownd_error_t::InvalidSessionId => -25,
            lockdownd_error_t::MissingService => -26,
            lockdownd_error_t::InvalidService => -27,
            lockdownd_error_t::ServiceLimit => -28,
            lockdownd_error_t::MissingPairRecord => -29,
            lockdownd_error_t::SavePairRecordFailed => -30,
            lockdownd_error_t::InvalidPairRecord => -31,
            lockdownd_error_t::InvalidActivationRecord => -32,
            lockdownd_error_t::MissingActivationRecord => -33,
            lockdownd_error_t::ServiceProhibited => -34,
            lockdownd_error_t::EscrowLocked => -35,
            lockdownd_error_t::UnknownError => -256,
        }
    }

    /// The value that a number stands for, if it stands for one.
    pub fn from_code(code: i32) -> (r: Option<lockdownd_error_t>)
        ensures
            r matches Some(v) ==> v.spec_code() == code,
            r is None ==> forall|v: lockdownd_error_t| v.spec_code() != code,
    {
        match code {
            0 => Some(lockdownd_error_t::Success),
            -1 => Some(lockdownd_error_t::InvalidArg),
            -2 => Some(lockdownd_error_t::InvalidConf),
            -3 => Some(lockdownd_error_t::PlistError),
            -4 => Some(lockdownd_error_t::PairingFailed),
            -5 => Some(lockdownd_error_t::SslError),
            -6 => Some(lockdownd_error_t::DictError),
            -7 => Some(lockdownd_error_t::NotEnoughData),
            -8 => Some(lockdownd_error_t::MuxError),
            -9 => Some(lockdownd_error_t::NoRunningSession),
            -10 => Some(lockdownd_error_t::InvalidResponse),
            -11 => Some(lockdownd_error_t::MissingKey),
            -12 => Some(lockdownd_error_t::MissingValue),
            -13 => Some(lockdownd_error_t::GetProhibited),
            -14 => Some(lockdownd_error_t::SetProhibited),
            -15 => Some(lockdownd_error_t::RemoveProhibited),
            -16 => Some(lockdownd_error_t::ImmutableValue),
            -17 => Some(lockdownd_error_t::PasswordProtected),
            -18 => Some(lockdownd_error_t::UserDeniedPairing),
            -19 => Some(lockdownd_error_t::PairingDialogResponsePending),
            -20 => Some(lockdownd_error_t::MissingHostId),
            -21 => Some(lockdownd_error_t::InvalidHostId),
            -22 => Some(lockdownd_error_t::SessionActive),
            -23 => Some(lockdownd_error_t::SessionInactive),
            -24 => Some(lockdownd_error_t::MissingSessionId),
            -25 => Some(lockdownd_error_t::InvalidSessionId),
            -26 => Some(lockdownd_error_t::MissingService),
            -27 => Some(lockdownd_error_t::InvalidService),
            -28 => Some(lockdownd_error_t::ServiceLimit),
            -29 => Some(lockdownd_error_t::MissingPairRecord),
            -30 => Some(lockdownd_error_t::SavePairRecordFailed),
            -31 => Some(lockdownd_error_t::InvalidPairRecord),
            -32 => Some(lockdownd_error_t::InvalidActivationRecord),
            -33 => Some(lockdownd_error_t::MissingActivationRecord),
            -34 => Some(lockdownd_error_t::ServiceProhibited),
            -35 => Some(lockdownd_error_t::EscrowLocked),
            -256 => Some(lockdownd_error_t::UnknownError),
            _ => None,
        }
    }
}

/// Where a service that lockdown started can be reached.
#[allow(non_camel_case_types)]
pub struct lockdownd_service_descriptor {
    pub port: u16,
    pub ssl_enabled: u8,
}

} // verus!
