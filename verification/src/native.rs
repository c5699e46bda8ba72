//! Converting between native values and nodes.
//!
//! A native type says what it writes and what it reads over its model, the deep view of its
//! values: [`ToPlistNode::write`] gives the value of the node made of a native value, and
//! [`FromPlistNode::read`] gives the native value recovered from a node, or the error.

use vstd::prelude::*;
use crate::error::{ErrorKind, PlistError};
use crate::node::{Node, OwnedNode};
use crate::value::Value;

verus! {

/// Implemented for types which can be converted to a node.
pub trait ToPlistNode: DeepView {
    /// The value of the node that is made of a native value with the given model.
    spec fn write(m: <Self as DeepView>::V) -> Value;

    /// Converts this value into a tree of its own.
    fn to_plist_node(&self) -> (r: OwnedNode)
        ensures
            r@ == Self::write(self.deep_view()),
    ;
}

/// Implemented for types which can be converted from a node.
pub trait FromPlistNode: Sized + DeepView {
    /// The model of the native value that is read from a node with the given value, or the
    /// error that the conversion fails with.
    spec fn read(v: Value) -> Result<<Self as DeepView>::V, ErrorKind>;

    /// Reads the content of a node and tries to convert it to a native value.
    fn from_plist_node(node: &Node) -> (r: Result<Self, PlistError>)
        ensures
            Self::read(node@) matches Ok(m) ==> r is Ok && r->Ok_0.deep_view() == m,
            Self::read(node@) matches Err(k) ==> r is Err && r->Err_0.kind() == k,
    ;
}

/// Native types that convert both ways: what is written is read back.
pub trait RoundTrip: ToPlistNode + FromPlistNode {
    /// The native values that come back as they were. For every type but a timestamp these
    /// are all its values.
    spec fn exact(m: <Self as DeepView>::V) -> bool;

    /// Reading the node written for an exact value gives that value.
    proof fn round_trip(m: <Self as DeepView>::V)
        requires
            Self::exact(m),
        ensures
            Self::read(Self::write(m)) == Ok::<<Self as DeepView>::V, ErrorKind>(m),
    ;
}

impl ToPlistNode for bool {
    open spec fn write(m: bool) -> Value {
        Value::Boolean(m)
    }

    fn to_plist_node(&self) -> (r: OwnedNode) {
        OwnedNode::new_bool(*self)
    }
}

impl FromPlistNode for bool {
    open spec fn read(v: Value) -> Result<bool, ErrorKind> {
        match v {
            Value::Boolean(b) => Ok(b),
            _ => Err(ErrorKind::UnsupportedType(v.tag())),
        }
    }

    fn from_plist_node(node: &Node) -> (r: Result<bool, PlistError>) {
        match node.get_bool_val() {
            Some(b) => Ok(b),
            None => Err(PlistError::UnsupportedType(node.node_type())),
        }
    }
}

impl RoundTrip for bool {
    open spec fn exact(m: bool) -> bool {
        true
    }

    proof fn round_trip(m: bool) {
    }
}

impl FromPlistNode for OwnedNode {
    open spec fn read(v: Value) -> Result<Value, ErrorKind> {
        Ok(v)
    }

    fn from_plist_node(node: &Node) -> (r: Result<OwnedNode, PlistError>) {
        Ok(node.to_owned())
    }
}

impl ToPlistNode for Node {
    open spec fn write(m: Value) -> Value {
        m
    }

    fn to_plist_node(&self) -> (r: OwnedNode) {
        self.to_owned()
    }
}

impl<'a, T: ToPlistNode + ?Sized> ToPlistNode for &'a T {
    open spec fn write(m: <T as DeepView>::V) -> Value {
        T::write(m)
    }

    fn to_plist_node(&self) -> (r: OwnedNode) {
        (*self).to_plist_node()
    }
}

impl<T: ToPlistNode + ?Sized> ToPlistNode for Box<T> {
    open spec fn write(m: <T as DeepView>::V) -> Value {
        T::write(m)
    }

    fn to_plist_node(&self) -> (r: OwnedNode) {
        (**self).to_plist_node()
    }
}

} // verus!
