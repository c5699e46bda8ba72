//! The types of the device library's interface.

pub mod afc;
pub mod diagnostics_relay;
pub mod idevice;
pub mod lockdown;
