//! Byte buffers and sequences.
//!
//! A buffer of bytes converts to and from a data node. A sequence of any other native type
//! converts to and from an array, item by item and in order; reading stops at the first item
//! that cannot be read and fails with the error of that item.

use vstd::prelude::*;
use crate::error::{ErrorKind, PlistError};
use crate::native::{FromPlistNode, RoundTrip, ToPlistNode};
use crate::node::{values_of, Node, OwnedNode};
use crate::value::Value;

verus! {

impl ToPlistNode for [u8] {
    open spec fn write(m: Seq<u8>) -> Value {
        Value::Data(m)
    }

    fn to_plist_node(&self) -> (r: OwnedNode) {
        assert(self.deep_view() =~= self@);
        OwnedNode::new_data(self)
    }
}

impl ToPlistNode for Vec<u8> {
    open spec fn write(m: Seq<u8>) -> Value {
        Value::Data(m)
    }

    fn to_plist_node(&self) -> (r: OwnedNode) {
        assert(self.deep_view() =~= self@);
        OwnedNode::new_data(self.as_slice())
    }
}

impl FromPlistNode for Vec<u8> {
    open spec fn read(v: Value) -> Result<Seq<u8>, ErrorKind> {
        match v {
            Value::Data(d) => Ok(d),
            _ => Err(ErrorKind::UnsupportedType(v.tag())),
        }
    }

    fn from_plist_node(node: &Node) -> (r: Result<Vec<u8>, PlistError>) {
        match node.get_data_val() {
            Some(d) => {
                let bytes = vstd::slice::slice_to_vec(d);
                assert(bytes.deep_view() =~= bytes@);
                Ok(bytes)
            },
            None => Err(PlistError::UnsupportedType(node.node_type())),
        }
    }
}

impl RoundTrip for Vec<u8> {
    open spec fn exact(m: Seq<u8>) -> bool {
        true
    }

    proof fn round_trip(m: Seq<u8>) {
    }
}

/// The values written for the items of a sequence, in order.
pub open spec fn write_all<T: ToPlistNode + ?Sized>(m: Seq<<T as DeepView>::V>) -> Seq<Value> {
    Seq::new(m.len(), |i: int| T::write(m[i]))
}

/// Every item can be read.
pub open spec fn all_readable<T: FromPlistNode>(items: Seq<Value>) -> bool {
    forall|i: int| 0 <= i < items.len() ==> (#[trigger] T::read(items[i])) is Ok
}

/// The place of the first item that cannot be read, where there is one.
pub open spec fn first_unreadable<T: FromPlistNode>(items: Seq<Value>) -> int {
    choose|i: int|
        0 <= i < items.len() && (#[trigger] T::read(items[i])) is Err && forall|j: int|
            0 <= j < i ==> (#[trigger] T::read(items[j])) is Ok
}

/// The native values read from the items of an array, or the error of the first item that
/// cannot be read.
pub open spec fn read_all<T: FromPlistNode>(items: Seq<Value>) -> Result<
    Seq<<T as DeepView>::V>,
    ErrorKind,
> {
    if all_readable::<T>(items) {
        Ok(Seq::new(items.len(), |i: int| T::read(items[i])->Ok_0))
    } else {
        Err(T::read(items[first_unreadable::<T>(items)])->Err_0)
    }
}

impl<T: ToPlistNode> ToPlistNode for [T] {
    open spec fn write(m: Seq<<T as DeepView>::V>) -> Value {
        Value::Array(write_all::<T>(m))
    }

    fn to_plist_node(&self) -> (r: OwnedNode) {
        let mut nodes: Vec<OwnedNode> = Vec::new();
        let mut i: usize = 0;
        while i < self.len()
            invariant
                i <= self@.len(),
                nodes@.len() == i,
                forall|j: int| 0 <= j < i ==> nodes@[j]@ == T::write(self@[j].deep_view()),
            decreases self@.len() - i,
        {
            nodes.push(self[i].to_plist_node());
            i += 1;
        }
        assert(values_of(nodes@) =~= write_all::<T>(self.deep_view()));
        OwnedNode::from_iter(nodes)
    }
}

impl<T: ToPlistNode> ToPlistNode for Vec<T> {
    open spec fn write(m: Seq<<T as DeepView>::V>) -> Value {
        Value::Array(write_all::<T>(m))
    }

    fn to_plist_node(&self) -> (r: OwnedNode) {
        let items = self.as_slice();
        assert(self.deep_view() =~= items.deep_view());
        items.to_plist_node()
    }
}

impl<T: FromPlistNode> FromPlistNode for Vec<T> {
    open spec fn read(v: Value) -> Result<Seq<<T as DeepView>::V>, ErrorKind> {
        match v {
            Value::Array(items) => read_all::<T>(items),
            _ => Err(ErrorKind::UnsupportedType(v.tag())),
        }
    }

    fn from_plist_node(node: &Node) -> (r: Result<Vec<T>, PlistError>) {
        let array = match node.array() {
            Ok(array) => array,
            Err(e) => {
                return Err(e);
            },
        };
        let ghost items = array@;
        let mut result: Vec<T> = Vec::with_capacity(array.len());
        let mut i: usize = 0;
        while i < array.len()
            invariant
                node@ == Value::Array(items),
                items == array@,
                i <= items.len(),
                result@.len() == i,
                forall|j: int|
                    0 <= j < i ==> (#[trigger] T::read(items[j])) == Ok::<
                        <T as DeepView>::V,
                        ErrorKind,
                    >(result@[j].deep_view()),
            decreases items.len() - i,
        {
            match T::from_plist_node(&array[i]) {
                Ok(x) => {
                    result.push(x);
                },
                Err(e) => {
                    proof {
                        let at = i as int;
                        assert(T::read(items[at]) is Err);
                        assert(!all_readable::<T>(items));
                        assert(0 <= at < items.len() && (#[trigger] T::read(items[at])) is Err
                            && forall|j: int| 0 <= j < at ==> (#[trigger] T::read(items[j])) is Ok);
                        let c = first_unreadable::<T>(items);
                        if c < i {
                            assert(T::read(items[c]) is Ok);
                        }
                        if c > i {
                            assert(T::read(items[i as int]) is Ok);
                        }
                    }
                    return Err(e);
                },
            }
            i += 1;
        }
        proof {
            assert(all_readable::<T>(items));
            assert(result.deep_view() =~= read_all::<T>(items)->Ok_0);
        }
        Ok(result)
    }
}

impl<T: RoundTrip> RoundTrip for Vec<T> {
    open spec fn exact(m: Seq<<T as DeepView>::V>) -> bool {
        forall|i: int| 0 <= i < m.len() ==> T::exact(#[trigger] m[i])
    }

    proof fn round_trip(m: Seq<<T as DeepView>::V>) {
        let items = write_all::<T>(m);
        assert forall|i: int| 0 <= i < items.len() implies (#[trigger] T::read(items[i])) == Ok::<
            <T as DeepView>::V,
            ErrorKind,
        >(m[i]) by {
            T::round_trip(m[i]);
        }
        assert(all_readable::<T>(items));
        assert(read_all::<T>(items)->Ok_0 =~= m);
    }
}

} // verus!
