use libplist::imobiledevice_sys::afc::{
    afc_error_t, afc_file_mode_t, afc_link_type_t, afc_lock_op_t, AFC_E_FORCE_SIGNED_TYPE,
    AFC_E_MUX_ERROR, AFC_FOPEN_RDAPPEND, AFC_LOCK_UN, AFC_SYMLINK,
};
use libplist::imobiledevice_sys::diagnostics_relay::{
    diagnostics_relay_error_t, DIAGNOSTICS_RELAY_E_UNKNOWN_ERROR,
};
use libplist::imobiledevice_sys::idevice::{
    idevice_error_t, idevice_event_type, IDEVICE_DEVICE_REMOVE, IDEVICE_E_SSL_ERROR,
    IDEVICE_E_SUCCESS,
};
use libplist::imobiledevice_sys::lockdown::{
    lockdownd_error_t, lockdownd_service_descriptor, LOCKDOWN_E_ESCROW_LOCKED,
    LOCKDOWN_E_UNKNOWN_ERROR,
};
use libplist::usbmuxd_sys::proto::{
    usbmuxd_connect_request, usbmuxd_header, usbmuxd_listen_request, usbmuxd_msgtype,
    usbmuxd_result, usbmuxd_result_msg, MESSAGE_PLIST, RESULT_BADVERSION, RESULT_OK,
    USBMUXD_PROTOCOL_VERSION, USBMUXD_SOCKET_PORT,
};
use libplist::usbmuxd_sys::{usbmuxd_event_type, UE_DEVICE_ADD, UE_DEVICE_REMOVE};

#[test]
fn test_validity() {
    assert_eq!(IDEVICE_E_SUCCESS.code(), 0);
    assert_eq!(idevice_error_t::from_code(0), Some(idevice_error_t::Success));
    assert_eq!(RESULT_OK.code(), 0);
    assert_eq!(usbmuxd_result::from_code(0), Some(usbmuxd_result::Okay));
}

#[test]
fn test_afc_codes() {
    assert_eq!(AFC_E_MUX_ERROR.code(), 30);
    assert_eq!(AFC_E_FORCE_SIGNED_TYPE.code(), -1);
    assert_eq!(afc_error_t::from_code(33), Some(afc_error_t::DirNotEmpty));
    assert_eq!(afc_error_t::from_code(23), Some(afc_error_t::InternalError));
    assert_eq!(afc_error_t::from_code(24), None);
    assert_eq!(afc_error_t::from_code(-2), None);
    assert_eq!(AFC_FOPEN_RDAPPEND.code(), 6);
    assert_eq!(afc_file_mode_t::from_code(3), Some(afc_file_mode_t::Truncate));
    assert_eq!(afc_file_mode_t::from_code(0), None);
    assert_eq!(AFC_SYMLINK.code(), 2);
    assert_eq!(afc_link_type_t::from_code(1), Some(afc_link_type_t::Hardlink));
    assert_eq!(afc_link_type_t::from_code(3), None);
    assert_eq!(AFC_LOCK_UN.code(), 12);
    assert_eq!(afc_lock_op_t::from_code(5), Some(afc_lock_op_t::LockShared));
    assert_eq!(afc_lock_op_t::from_code(7), None);
}

#[test]
fn test_every_afc_code_names_its_value() {
    for code in -5..40 {
        if let Some(value) = afc_error_t::from_code(code) {
            assert_eq!(value.code(), code);
        }
    }
    let known = (-5..40).filter(|c| afc_error_t::from_code(*c).is_some()).count();
    assert_eq!(known, 29);
}

#[test]
fn test_device_codes() {
    assert_eq!(IDEVICE_E_SSL_ERROR.code(), -6);
    assert_eq!(idevice_error_t::from_code(-3), Some(idevice_error_t::NoDevice));
    assert_eq!(idevice_error_t::from_code(1), None);
    assert_eq!(IDEVICE_DEVICE_REMOVE.code(), 2);
    assert_eq!(idevice_event_type::from_code(1), Some(idevice_event_type::DeviceAdd));
    assert_eq!(idevice_event_type::from_code(0), None);
    assert_eq!(DIAGNOSTICS_RELAY_E_UNKNOWN_ERROR.code(), -256);
    assert_eq!(diagnostics_relay_error_t::from_code(-4), Some(diagnostics_relay_error_t::UnknownRequest));
    assert_eq!(diagnostics_relay_error_t::from_code(-5), None);
}

#[test]
fn test_lockdown_codes() {
    assert_eq!(LOCKDOWN_E_ESCROW_LOCKED.code(), -35);
    assert_eq!(LOCKDOWN_E_UNKNOWN_ERROR.code(), -256);
    assert_eq!(lockdownd_error_t::from_code(-17), Some(lockdownd_error_t::PasswordProtected));
    assert_eq!(lockdownd_error_t::from_code(-36), None);
    let descriptor = lockdownd_service_descriptor { port: 62078, ssl_enabled: 1 };
    assert_eq!(descriptor.port, 62078);
    assert_eq!(descriptor.ssl_enabled, 1);
}

#[test]
fn test_multiplexer_codes() {
    assert_eq!(UE_DEVICE_ADD.code(), 1);
    assert_eq!(UE_DEVICE_REMOVE.code(), 2);
    assert_eq!(usbmuxd_event_type::from_code(3), None);
    assert_eq!(RESULT_BADVERSION.code(), 6);
    assert_eq!(usbmuxd_result::from_code(3), Some(usbmuxd_result::ConnRefused));
    assert_eq!(usbmuxd_result::from_code(4), None);
    assert_eq!(MESSAGE_PLIST.code(), 8);
    assert_eq!(usbmuxd_msgtype::from_code(1), Some(usbmuxd_msgtype::Result));
    assert_eq!(usbmuxd_msgtype::from_code(6), None);
    assert_eq!(USBMUXD_PROTOCOL_VERSION, 0);
    assert_eq!(USBMUXD_SOCKET_PORT, 27015);
}

#[test]
fn test_multiplexer_messages() {
    let header = usbmuxd_header { length: 24, version: 0, message: MESSAGE_PLIST.code(), tag: 7 };
    let answer = usbmuxd_result_msg {
        header: usbmuxd_header { length: 20, version: 0, message: 1, tag: 7 },
        result: RESULT_OK.code(),
    };
    let connect = usbmuxd_connect_request {
        header: usbmuxd_header { length: 24, version: 0, message: 2, tag: 8 },
        device_id: 3,
        port: 0x7ef2,
        _reserved: 0,
    };
    let listen = usbmuxd_listen_request {
        header: usbmuxd_header { length: 16, version: 0, message: 3, tag: 9 },
    };
    assert_eq!(header.message, 8);
    assert_eq!(usbmuxd_result::from_code(answer.result), Some(usbmuxd_result::Okay));
    assert_eq!(usbmuxd_msgtype::from_code(connect.header.message), Some(usbmuxd_msgtype::Connect));
    assert_eq!(connect.device_id + connect.port as u32 + connect._reserved as u32, 3 + 0x7ef2);
    assert_eq!(usbmuxd_msgtype::from_code(listen.header.message), Some(usbmuxd_msgtype::Listen));
}
