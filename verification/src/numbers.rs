//! Integers.
//!
//! A node holds an unsigned integer of 64 bits, and every integer type goes through it. A
//! narrower or signed type is written by `as`, which keeps the value where it fits and
//! otherwise keeps the low bits in two's complement; it is read by `as` too, which cuts to
//! the width of the type. So a negative number is written as a large unsigned one and read
//! back as itself, and a number too large for the type that reads it loses its high bits.

use vstd::prelude::*;
use crate::error::{ErrorKind, PlistError};
use crate::native::{FromPlistNode, RoundTrip, ToPlistNode};
use crate::node::{Node, OwnedNode};
use crate::value::Value;

verus! {

impl ToPlistNode for u16 {
    open spec fn write(m: u16) -> Value {
        Value::UInt(m as u64)
    }

    fn to_plist_node(&self) -> (r: OwnedNode) {
        OwnedNode::new_uint(#[verifier::truncate] (*self as u64))
    }
}

impl FromPlistNode for u16 {
    open spec fn read(v: Value) -> Result<u16, ErrorKind> {
        match v {
            Value::UInt(n) => Ok(n as u16),
            _ => Err(ErrorKind::UnsupportedType(v.tag())),
        }
    }

    fn from_plist_node(node: &Node) -> (r: Result<u16, PlistError>) {
        match node.get_uint_val() {
            Some(n) => Ok(#[verifier::truncate] (n as u16)),
            None => Err(PlistError::UnsupportedType(node.node_type())),
        }
    }
}

impl RoundTrip for u16 {
    open spec fn exact(m: u16) -> bool {
        true
    }

    proof fn round_trip(m: u16) {
        assert((m as u64) as u16 == m) by (bit_vector);
    }
}

impl ToPlistNode for i16 {
    open spec fn write(m: i16) -> Value {
        Value::UInt(m as u64)
    }

    fn to_plist_node(&self) -> (r: OwnedNode) {
        OwnedNode::new_uint(#[verifier::truncate] (*self as u64))
    }
}

impl FromPlistNode for i16 {
    open spec fn read(v: Value) -> Result<i16, ErrorKind> {
        match v {
            Value::UInt(n) => Ok(n as i16),
            _ => Err(ErrorKind::UnsupportedType(v.tag())),
        }
    }

    fn from_plist_node(node: &Node) -> (r: Result<i16, PlistError>) {
        match node.get_uint_val() {
            Some(n) => Ok(#[verifier::truncate] (n as i16)),
            None => Err(PlistError::UnsupportedType(node.node_type())),
        }
    }
}

impl RoundTrip for i16 {
    open spec fn exact(m: i16) -> bool {
        true
    }

    proof fn round_trip(m: i16) {
        assert((m as u64) as i16 == m) by (bit_vector);
    }
}

impl ToPlistNode for u32 {
    open spec fn write(m: u32) -> Value {
        Value::UInt(m as u64)
    }

    fn to_plist_node(&self) -> (r: OwnedNode) {
        OwnedNode::new_uint(#[verifier::truncate] (*self as u64))
    }
}

impl FromPlistNode for u32 {
    open spec fn read(v: Value) -> Result<u32, ErrorKind> {
        match v {
            Value::UInt(n) => Ok(n as u32),
            _ => Err(ErrorKind::UnsupportedType(v.tag())),
        }
    }

    fn from_plist_node(node: &Node) -> (r: Result<u32, PlistError>) {
        match node.get_uint_val() {
            Some(n) => Ok(#[verifier::truncate] (n as u32)),
            None => Err(PlistError::UnsupportedType(node.node_type())),
        }
    }
}

impl RoundTrip for u32 {
    open spec fn exact(m: u32) -> bool {
        true
    }

    proof fn round_trip(m: u32) {
        assert((m as u64) as u32 == m) by (bit_vector);
    }
}

impl ToPlistNode for i32 {
    open spec fn write(m: i32) -> Value {
        Value::UInt(m as u64)
    }

    fn to_plist_node(&self) -> (r: OwnedNode) {
        OwnedNode::new_uint(#[verifier::truncate] (*self as u64))
    }
}

impl FromPlistNode for i32 {
    open spec fn read(v: Value) -> Result<i32, ErrorKind> {
        match v {
            Value::UInt(n) => Ok(n as i32),
            _ => Err(ErrorKind::UnsupportedType(v.tag())),
        }
    }

    fn from_plist_node(node: &Node) -> (r: Result<i32, PlistError>) {
        match node.get_uint_val() {
            Some(n) => Ok(#[verifier::truncate] (n as i32)),
            None => Err(PlistError::UnsupportedType(node.node_type())),
        }
    }
}

impl RoundTrip for i32 {
    open spec fn exact(m: i32) -> bool {
        true
    }

    proof fn round_trip(m: i32) {
        assert((m as u64) as i32 == m) by (bit_vector);
    }
}

impl ToPlistNode for u64 {
    open spec fn write(m: u64) -> Value {
        Value::UInt(m)
    }

    fn to_plist_node(&self) -> (r: OwnedNode) {
        OwnedNode::new_uint(*self)
    }
}

impl FromPlistNode for u64 {
    open spec fn read(v: Value) -> Result<u64, ErrorKind> {
        match v {
            Value::UInt(n) => Ok(n),
            _ => Err(ErrorKind::UnsupportedType(v.tag())),
        }
    }

    fn from_plist_node(node: &Node) -> (r: Result<u64, PlistError>) {
        match node.get_uint_val() {
            Some(n) => Ok(n),
            None => Err(PlistError::UnsupportedType(node.node_type())),
        }
    }
}

impl RoundTrip for u64 {
    open spec fn exact(m: u64) -> bool {
        true
    }

    proof fn round_trip(m: u64) {
    }
}

impl ToPlistNode for i64 {
    open spec fn write(m: i64) -> Value {
        Value::UInt(m as u64)
    }

    fn to_plist_node(&self) -> (r: OwnedNode) {
        OwnedNode::new_uint(#[verifier::truncate] (*self as u64))
    }
}

impl FromPlistNode for i64 {
    open spec fn read(v: Value) -> Result<i64, ErrorKind> {
        match v {
            Value::UInt(n) => Ok(n as i64),
            _ => Err(ErrorKind::UnsupportedType(v.tag())),
        }
    }

    fn from_plist_node(node: &Node) -> (r: Result<i64, PlistError>) {
        match node.get_uint_val() {
            Some(n) => Ok(#[verifier::truncate] (n as i64)),
            None => Err(PlistError::UnsupportedType(node.node_type())),
        }
    }
}

impl RoundTrip for i64 {
    open spec fn exact(m: i64) -> bool {
        true
    }

    proof fn round_trip(m: i64) {
        assert((m as u64) as i64 == m) by (bit_vector);
    }
}

impl ToPlistNode for usize {
    open spec fn write(m: usize) -> Value {
        Value::UInt(m as u64)
    }

    fn to_plist_node(&self) -> (r: OwnedNode) {
        OwnedNode::new_uint(#[verifier::truncate] (*self as u64))
    }
}

impl FromPlistNode for usize {
    open spec fn read(v: Value) -> Result<usize, ErrorKind> {
        match v {
            Value::UInt(n) => Ok(n as usize),
            _ => Err(ErrorKind::UnsupportedType(v.tag())),
        }
    }

    fn from_plist_node(node: &Node) -> (r: Result<usize, PlistError>) {
        match node.get_uint_val() {
            Some(n) => Ok(#[verifier::truncate] (n as usize)),
            None => Err(PlistError::UnsupportedType(node.node_type())),
        }
    }
}

impl RoundTrip for usize {
    open spec fn exact(m: usize) -> bool {
        true
    }

    proof fn round_trip(m: usize) {
        assert((m as u64) as usize == m) by (bit_vector);
    }
}

impl ToPlistNode for isize {
    open spec fn write(m: isize) -> Value {
        Value::UInt(m as u64)
    }

    fn to_plist_node(&self) -> (r: OwnedNode) {
        OwnedNode::new_uint(#[verifier::truncate] (*self as u64))
    }
}

impl FromPlistNode for isize {
    open spec fn read(v: Value) -> Result<isize, ErrorKind> {
        match v {
            Value::UInt(n) => Ok(n as isize),
            _ => Err(ErrorKind::UnsupportedType(v.tag())),
        }
    }

    fn from_plist_node(node: &Node) -> (r: Result<isize, PlistError>) {
        match node.get_uint_val() {
            Some(n) => Ok(#[verifier::truncate] (n as isize)),
            None => Err(PlistError::UnsupportedType(node.node_type())),
        }
    }
}

impl RoundTrip for isize {
    open spec fn exact(m: isize) -> bool {
        true
    }

    proof fn round_trip(m: isize) {
        assert((m as u64) as isize == m) by (bit_vector);
    }
}

/// No value but an unsigned integer is read as a number: reading fails, and the error names
/// the type that the node has. So it is for a dictionary.
pub proof fn lemma_not_a_number(v: Value)
    requires
        !(v is UInt),
    ensures
        u16::read(v) == Err::<u16, ErrorKind>(ErrorKind::UnsupportedType(v.tag())),
        i16::read(v) == Err::<i16, ErrorKind>(ErrorKind::UnsupportedType(v.tag())),
        u32::read(v) == Err::<u32, ErrorKind>(ErrorKind::UnsupportedType(v.tag())),
        i32::read(v) == Err::<i32, ErrorKind>(ErrorKind::UnsupportedType(v.tag())),
        u64::read(v) == Err::<u64, ErrorKind>(ErrorKind::UnsupportedType(v.tag())),
        i64::read(v) == Err::<i64, ErrorKind>(ErrorKind::UnsupportedType(v.tag())),
        usize::read(v) == Err::<usize, ErrorKind>(ErrorKind::UnsupportedType(v.tag())),
        isize::read(v) == Err::<isize, ErrorKind>(ErrorKind::UnsupportedType(v.tag())),
        v is Dict ==> v.tag() == crate::plist_sys::plist_type::Dict,
{
}

} // verus!
