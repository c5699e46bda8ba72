//! Strings.
//!
//! A string node holds bytes. A `str` or a `String` is written as its UTF-8 encoding, and a
//! string node is read as a `String` only if its bytes are UTF-8. A [`RawString`] takes the
//! bytes as they are, so reading one from a string node always succeeds.

use vstd::prelude::*;
use vstd::string::StringSliceAdditionalSpecFns;
use vstd::utf8::{decode_utf8, encode_utf8, valid_utf8};
use vstd::utf8::{encode_utf8_decode_utf8, encode_utf8_valid_utf8};
use core::str::Utf8Error;
use crate::error::{ErrorKind, PlistError};
use crate::native::{FromPlistNode, RoundTrip, ToPlistNode};
use crate::node::{Node, OwnedNode};
use crate::value::Value;

verus! {

/// `core::str::from_utf8` succeeds exactly on the byte strings that are UTF-8, and the `str`
/// it then hands out consists of the very bytes that went in.
pub assume_specification[ core::str::from_utf8 ](v: &[u8]) -> (r: Result<&str, Utf8Error>)
    ensures
        r is Ok <==> valid_utf8(v@),
        r matches Ok(s) ==> s.spec_bytes() == v@,
;

/// The bytes of a string node, taken as they are.
#[derive(Debug)]
pub struct RawString {
    pub bytes: Vec<u8>,
}

impl DeepView for RawString {
    type V = Seq<u8>;

    open spec fn deep_view(&self) -> Seq<u8> {
        self.bytes@
    }
}

impl ToPlistNode for RawString {
    open spec fn write(m: Seq<u8>) -> Value {
        Value::String(m)
    }

    fn to_plist_node(&self) -> (r: OwnedNode) {
        OwnedNode::new_str(self.bytes.as_slice())
    }
}

impl FromPlistNode for RawString {
    open spec fn read(v: Value) -> Result<Seq<u8>, ErrorKind> {
        match v {
            Value::String(s) => Ok(s),
            _ => Err(ErrorKind::UnsupportedType(v.tag())),
        }
    }

    fn from_plist_node(node: &Node) -> (r: Result<RawString, PlistError>) {
        match node.get_string_val() {
            Some(s) => Ok(RawString { bytes: vstd::slice::slice_to_vec(s) }),
            None => Err(PlistError::UnsupportedType(node.node_type())),
        }
    }
}

impl RoundTrip for RawString {
    open spec fn exact(m: Seq<u8>) -> bool {
        true
    }

    proof fn round_trip(m: Seq<u8>) {
    }
}

impl ToPlistNode for str {
    open spec fn write(m: Seq<char>) -> Value {
        Value::String(encode_utf8(m))
    }

    fn to_plist_node(&self) -> (r: OwnedNode) {
        OwnedNode::new_str(self.as_bytes())
    }
}

impl ToPlistNode for String {
    open spec fn write(m: Seq<char>) -> Value {
        Value::String(encode_utf8(m))
    }

    fn to_plist_node(&self) -> (r: OwnedNode) {
        OwnedNode::new_str(self.as_str().as_bytes())
    }
}

impl FromPlistNode for String {
    open spec fn read(v: Value) -> Result<Seq<char>, ErrorKind> {
        match v {
            Value::String(s) => if valid_utf8(s) {
                Ok(decode_utf8(s))
            } else {
                Err(ErrorKind::Utf8)
            },
            _ => Err(ErrorKind::UnsupportedType(v.tag())),
        }
    }

    fn from_plist_node(node: &Node) -> (r: Result<String, PlistError>) {
        match node.get_string_val() {
            Some(bytes) => match core::str::from_utf8(bytes) {
                Ok(s) => {
                    proof {
                        encode_utf8_decode_utf8(s@);
                    }
                    Ok(s.to_owned())
                },
                Err(e) => Err(PlistError::Utf8(e)),
            },
            None => Err(PlistError::UnsupportedType(node.node_type())),
        }
    }
}

impl RoundTrip for String {
    open spec fn exact(m: Seq<char>) -> bool {
        true
    }

    proof fn round_trip(m: Seq<char>) {
        encode_utf8_valid_utf8(m);
        encode_utf8_decode_utf8(m);
    }
}

/// Reading a string node whose bytes are not UTF-8 as a `String` fails, and the failure is a
/// decode failure; reading it as a `RawString` succeeds.
pub proof fn lemma_not_utf8(bytes: Seq<u8>)
    requires
        !valid_utf8(bytes),
    ensures
        String::read(Value::String(bytes)) == Err::<Seq<char>, ErrorKind>(ErrorKind::Utf8),
        RawString::read(Value::String(bytes)) == Ok::<Seq<u8>, ErrorKind>(bytes),
{
}

} // verus!
