//! Error types.

use vstd::prelude::*;
use vstd::string::{to_string_from_display_ensures, StringExecFns};
use core::str::Utf8Error;
use crate::plist_sys::plist_type;

verus! {

/// The decode failure that `core::str::from_utf8` reports. Nothing is known of its inside.
#[verifier::external_type_specification]
#[verifier::external_body]
pub struct ExUtf8Error(Utf8Error);

/// Error while converting a node to a native value.
#[derive(Debug)]
pub enum PlistError {
    /// The node has a type that the conversion or view does not accept.
    UnsupportedType(plist_type),
    /// The node is a string whose bytes are not UTF-8.
    Utf8(Utf8Error),
}

/// An error without the decode failure it carries: what contracts can speak of.
pub enum ErrorKind {
    UnsupportedType(plist_type),
    Utf8,
}

impl PlistError {
    /// The error without the decode failure it carries.
    pub open spec fn kind(&self) -> ErrorKind {
        match self {
            PlistError::UnsupportedType(t) => ErrorKind::UnsupportedType(*t),
            PlistError::Utf8(_) => ErrorKind::Utf8,
        }
    }

    /// A short description of the error.
    pub fn description(&self) -> (r: &'static str)
        ensures
            self is UnsupportedType ==> r@ == "unsupported plist type"@,
            self is Utf8 ==> r@ == "string is not properly UTF-8-encoded"@,
    {
        match self {
            PlistError::UnsupportedType(_) => "unsupported plist type",
            PlistError::Utf8(_) => "string is not properly UTF-8-encoded",
        }
    }

    /// The message of the error: for a type that is not accepted its name after
    /// "unsupported plist type " and a line feed at the end, for a string that is not UTF-8
    /// what the decode failure says of itself.
    pub fn to_string(&self) -> (r: String)
        ensures
            self matches PlistError::UnsupportedType(t) ==> r@ == "unsupported plist type "@
                + t.spec_name() + "\n"@,
            self matches PlistError::Utf8(e) ==> to_string_from_display_ensures::<Utf8Error>(
                &e,
                r,
            ),
    {
        match self {
            PlistError::UnsupportedType(t) => {
                let mut message = String::from_str("unsupported plist type ");
                message.append(t.name());
                message.append("\n");
                message
            },
            PlistError::Utf8(e) => e.to_string(),
        }
    }

    /// The decode failure behind the error, if there is one.
    pub fn cause(&self) -> (r: Option<&Utf8Error>)
        ensures
            r is Some <==> self is Utf8,
            r matches Some(e) ==> *self == PlistError::Utf8(*e),
    {
        match self {
            PlistError::Utf8(e) => Some(e),
            _ => None,
        }
    }
}

impl From<Utf8Error> for PlistError {
    fn from(e: Utf8Error) -> (r: PlistError) {
        PlistError::Utf8(e)
    }
}

impl vstd::std_specs::convert::FromSpecImpl<Utf8Error> for PlistError {
    open spec fn obeys_from_spec() -> bool {
        true
    }

    open spec fn from_spec(e: Utf8Error) -> PlistError {
        PlistError::Utf8(e)
    }
}

} // verus!
