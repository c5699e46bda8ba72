//! Key-value mappings.
//!
//! A native mapping is a vector of entries, each a key and a native value, in the order in
//! which the mapping is walked. It is written as a dictionary by inserting its entries one
//! after another, so the dictionary has them in the mapping's own order. A dictionary is read
//! entry by entry in its order; each key must be UTF-8 and each value must be readable, and
//! reading stops at the first entry that fails, with the error of that entry.

use vstd::prelude::*;
use vstd::utf8::{decode_utf8, encode_utf8, valid_utf8};
use vstd::utf8::{encode_utf8_decode_utf8, encode_utf8_valid_utf8};
use crate::error::{ErrorKind, PlistError};
use crate::native::{FromPlistNode, RoundTrip, ToPlistNode};
use crate::node::{entries_of, Node, OwnedNode};
use crate::value::{dict_keys, insert_all, lemma_insert_all_distinct, Value};

verus! {

/// The entries written for the entries of a mapping, in order.
pub open spec fn write_entries<T: ToPlistNode>(m: Seq<(Seq<char>, <T as DeepView>::V)>) -> Seq<
    (Seq<u8>, Value),
> {
    Seq::new(m.len(), |i: int| (encode_utf8(m[i].0), T::write(m[i].1)))
}

/// What is read from one entry of a dictionary: the key must be UTF-8, then the value must be
/// readable.
pub open spec fn read_entry<T: FromPlistNode>(e: (Seq<u8>, Value)) -> Result<
    (Seq<char>, <T as DeepView>::V),
    ErrorKind,
> {
    if !valid_utf8(e.0) {
        Err(ErrorKind::Utf8)
    } else {
        match T::read(e.1) {
            Ok(x) => Ok((decode_utf8(e.0), x)),
            Err(k) => Err(k),
        }
    }
}

/// Every entry can be read.
pub open spec fn all_entries_readable<T: FromPlistNode>(entries: Seq<(Seq<u8>, Value)>) -> bool {
    forall|i: int| 0 <= i < entries.len() ==> (#[trigger] read_entry::<T>(entries[i])) is Ok
}

/// The place of the first entry that cannot be read, where there is one.
pub open spec fn first_unreadable_entry<T: FromPlistNode>(entries: Seq<(Seq<u8>, Value)>) -> int {
    choose|i: int|
        0 <= i < entries.len() && (#[trigger] read_entry::<T>(entries[i])) is Err && forall|j: int|
            0 <= j < i ==> (#[trigger] read_entry::<T>(entries[j])) is Ok
}

/// The entries read from a dictionary, in its order, or the error of the first entry that
/// cannot be read.
pub open spec fn read_entries<T: FromPlistNode>(entries: Seq<(Seq<u8>, Value)>) -> Result<
    Seq<(Seq<char>, <T as DeepView>::V)>,
    ErrorKind,
> {
    if all_entries_readable::<T>(entries) {
        Ok(Seq::new(entries.len(), |i: int| read_entry::<T>(entries[i])->Ok_0))
    } else {
        Err(read_entry::<T>(entries[first_unreadable_entry::<T>(entries)])->Err_0)
    }
}

impl<T: ToPlistNode> ToPlistNode for Vec<(String, T)> {
    open spec fn write(m: Seq<(Seq<char>, <T as DeepView>::V)>) -> Value {
        Value::Dict(insert_all(Seq::empty(), write_entries::<T>(m)))
    }

    fn to_plist_node(&self) -> (r: OwnedNode) {
        let mut entries: Vec<(Vec<u8>, OwnedNode)> = Vec::new();
        let mut i: usize = 0;
        while i < self.len()
            invariant
                i <= self@.len(),
                entries@.len() == i,
                forall|j: int|
                    0 <= j < i ==> (#[trigger] entries@[j]).0@ == encode_utf8(self@[j].0@)
                        && entries@[j].1@ == T::write(self@[j].1.deep_view()),
            decreases self@.len() - i,
        {
            let key = vstd::slice::slice_to_vec(self[i].0.as_str().as_bytes());
            let value = self[i].1.to_plist_node();
            entries.push((key, value));
            i += 1;
        }
        assert(entries_of(entries@) =~= write_entries::<T>(self.deep_view()));
        OwnedNode::from_entries(entries)
    }
}

impl<T: FromPlistNode> FromPlistNode for Vec<(String, T)> {
    open spec fn read(v: Value) -> Result<Seq<(Seq<char>, <T as DeepView>::V)>, ErrorKind> {
        match v {
            Value::Dict(entries) => read_entries::<T>(entries),
            _ => Err(ErrorKind::UnsupportedType(v.tag())),
        }
    }

    fn from_plist_node(node: &Node) -> (r: Result<Vec<(String, T)>, PlistError>) {
        let dict = match node.dict() {
            Ok(dict) => dict,
            Err(e) => {
                return Err(e);
            },
        };
        let ghost entries = dict@;
        let n = dict.len();
        let mut walk = dict.iter();
        let mut result: Vec<(String, T)> = Vec::with_capacity(n);
        let mut i: usize = 0;
        while i < n
            invariant
                node@ == Value::Dict(entries),
                n == entries.len(),
                i <= n,
                walk.remaining() == entries.skip(i as int),
                result@.len() == i,
                forall|j: int|
                    0 <= j < i ==> (#[trigger] read_entry::<T>(entries[j])) == Ok::<
                        (Seq<char>, <T as DeepView>::V),
                        ErrorKind,
                    >(result@[j].deep_view()),
            decreases n - i,
        {
            let ghost at = i as int;
            proof {
                assert(entries.skip(at)[0] == entries[at]);
                assert(entries.skip(at).skip(1) =~= entries.skip(at + 1));
            }
            let failure: Option<PlistError> = match walk.next() {
                Some((key, value)) => match core::str::from_utf8(key.as_slice()) {
                    Ok(text) => {
                        proof {
                            encode_utf8_decode_utf8(text@);
                        }
                        match T::from_plist_node(value) {
                            Ok(x) => {
                                result.push((text.to_owned(), x));
                                None
                            },
                            Err(e) => Some(e),
                        }
                    },
                    Err(e) => Some(PlistError::Utf8(e)),
                },
                None => None,
            };
            if let Some(e) = failure {
                proof {
                    assert(0 <= at < entries.len() && (#[trigger] read_entry::<T>(entries[at])) is Err
                        && forall|j: int|
                        0 <= j < at ==> (#[trigger] read_entry::<T>(entries[j])) is Ok);
                    let c = first_unreadable_entry::<T>(entries);
                    if c < at {
                        assert(read_entry::<T>(entries[c]) is Ok);
                    }
                    if c > at {
                        assert(read_entry::<T>(entries[at]) is Ok);
                    }
                }
                return Err(e);
            }
            i += 1;
        }
        proof {
            assert(all_entries_readable::<T>(entries));
            assert(result.deep_view() =~= read_entries::<T>(entries)->Ok_0);
        }
        Ok(result)
    }
}

impl<T: RoundTrip> RoundTrip for Vec<(String, T)> {
    /// A mapping has no key twice.
    open spec fn exact(m: Seq<(Seq<char>, <T as DeepView>::V)>) -> bool {
        &&& m.map_values(|e: (Seq<char>, <T as DeepView>::V)| e.0).no_duplicates()
        &&& forall|i: int| 0 <= i < m.len() ==> T::exact((#[trigger] m[i]).1)
    }

    proof fn round_trip(m: Seq<(Seq<char>, <T as DeepView>::V)>) {
        let entries = write_entries::<T>(m);
        let names = m.map_values(|e: (Seq<char>, <T as DeepView>::V)| e.0);
        assert forall|i: int, j: int|
            0 <= i < entries.len() && 0 <= j < entries.len() && i != j implies dict_keys(
            entries,
        )[i] != dict_keys(entries)[j] by {
            encode_utf8_decode_utf8(m[i].0);
            encode_utf8_decode_utf8(m[j].0);
            assert(names[i] != names[j]);
        }
        lemma_insert_all_distinct(entries);
        assert forall|i: int| 0 <= i < entries.len() implies (#[trigger] read_entry::<T>(
            entries[i],
        )) == Ok::<(Seq<char>, <T as DeepView>::V), ErrorKind>(m[i]) by {
            encode_utf8_valid_utf8(m[i].0);
            encode_utf8_decode_utf8(m[i].0);
            T::round_trip(m[i].1);
        }
        assert(all_entries_readable::<T>(entries));
        assert(read_entries::<T>(entries)->Ok_0 =~= m);
    }
}

} // verus!
