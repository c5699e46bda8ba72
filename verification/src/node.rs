//! Nodes, the trees they form, and the views of arrays and dictionaries.
//!
//! Every item of a property list is a node. Simple types like strings and integers are single
//! nodes, while arrays and dictionaries carry child nodes. The root of each tree is held by an
//! [`OwnedNode`]; the nodes below it are reached as `&Node` and `&mut Node`. The relationship
//! between `OwnedNode` and `Node` is similar to `String` and `str`.

use vstd::prelude::*;
use vstd::std_specs::cmp::PartialEqSpecImpl;
use crate::error::PlistError;
use crate::plist_sys::plist_type;
use crate::value::{
    dict_get, dict_has, dict_insert, dict_keys, dict_position, dict_remove, first_entries,
    insert_all, lemma_dict_entry, lemma_dict_insert, lemma_dict_position, lemma_dict_remove,
    lemma_first_entries, lemma_first_entries_same, Value,
};

verus! {

/// What a node holds.
#[derive(Debug)]
enum Payload {
    Boolean(bool),
    UInt(u64),
    Real(u64),
    String(Vec<u8>),
    Array(ArrayNode),
    Dict(DictNode),
    Date(i32, i32),
    Data(Vec<u8>),
    Uid(u64),
}

/// A node of a tree, reached through a reference that the owner of the tree lends out.
#[derive(Debug)]
pub struct Node {
    payload: Payload,
}

/// The owner of a tree. The tree lives exactly as long as this handle.
#[derive(Debug)]
pub struct OwnedNode {
    root: Node,
}

/// An array node: a sequence of child nodes addressed by index.
#[derive(Debug)]
pub struct ArrayNode {
    items: Vec<Node>,
}

/// A dictionary node: child nodes addressed by key, no key twice.
#[derive(Debug)]
pub struct DictNode {
    keys: Vec<Vec<u8>>,
    values: Vec<Node>,
}

/// The byte strings that a vector of keys holds.
spec fn key_views(keys: Seq<Vec<u8>>) -> Seq<Seq<u8>> {
    keys.map_values(|k: Vec<u8>| k@)
}

impl ArrayNode {
    /// The values of the children, in order.
    pub closed spec fn view(&self) -> Seq<Value>
        decreases self, 0nat,
    {
        Seq::new(
            self.items@.len(),
            |i: int|
                if 0 <= i < self.items@.len() {
                    self.items@[i].view()
                } else {
                    Value::Boolean(false)
                },
        )
    }
}

impl DictNode {
    #[verifier::type_invariant]
    spec fn well_formed(&self) -> bool {
        &&& self.keys@.len() == self.values@.len()
        &&& key_views(self.keys@).no_duplicates()
    }

    /// The entries, each a key and the value of its child, in the order in which the
    /// dictionary is walked. No key occurs twice: a dictionary stores no key twice, and the
    /// definition passes over a repeated key, so that this holds of every value of the type.
    pub closed spec fn view(&self) -> Seq<(Seq<u8>, Value)>
        decreases self, 1nat,
    {
        first_entries(self.pairs())
    }

    /// The keys in the order in which the dictionary is walked.
    pub open spec fn keys(&self) -> Seq<Seq<u8>> {
        dict_keys(self@)
    }

    /// The keys and values as they are stored.
    spec fn pairs(&self) -> Seq<(Seq<u8>, Value)>
        decreases self, 0nat,
    {
        Seq::new(
            self.keys@.len(),
            |i: int|
                (
                    self.keys@[i]@,
                    if 0 <= i < self.values@.len() {
                        self.values@[i].view()
                    } else {
                        Value::Boolean(false)
                    },
                ),
        )
    }

    /// The view of a well-formed dictionary is what it stores.
    proof fn lemma_view(&self)
        requires
            self.well_formed(),
        ensures
            self@ == self.pairs(),
            self@.len() == self.keys@.len(),
            dict_keys(self@) == key_views(self.keys@),
            dict_keys(self@).no_duplicates(),
            forall|i: int|
                0 <= i < self.keys@.len() ==> #[trigger] self@[i] == (
                    self.keys@[i]@,
                    self.values@[i]@,
                ),
    {
        assert(dict_keys(self.pairs()) =~= key_views(self.keys@));
        lemma_first_entries_same(self.pairs());
    }

}

impl Node {
    /// The value of the tree below this node.
    pub closed spec fn view(&self) -> Value
        decreases self, 0nat,
    {
        match self.payload {
            Payload::Boolean(b) => Value::Boolean(b),
            Payload::UInt(n) => Value::UInt(n),
            Payload::Real(bits) => Value::Real(bits),
            Payload::String(s) => Value::String(s@),
            Payload::Array(a) => Value::Array(a.view()),
            Payload::Dict(d) => Value::Dict(d.view()),
            Payload::Date(sec, usec) => Value::Date { sec, usec },
            Payload::Data(d) => Value::Data(d@),
            Payload::Uid(n) => Value::Uid(n),
        }
    }

    /// Obtains the type of the node.
    pub fn node_type(&self) -> (t: plist_type)
        ensures
            t == self@.tag(),
    {
        match &self.payload {
            Payload::Boolean(_) => plist_type::Boolean,
            Payload::UInt(_) => plist_type::UInt,
            Payload::Real(_) => plist_type::Real,
            Payload::String(_) => plist_type::String,
            Payload::Array(_) => plist_type::Array,
            Payload::Dict(_) => plist_type::Dict,
            Payload::Date(_, _) => plist_type::Date,
            Payload::Data(_) => plist_type::Data,
            Payload::Uid(_) => plist_type::Uid,
        }
    }

    /// Verifies that the node has the given type. If not, returns `Err(UnsupportedType)` with
    /// the type that the node does have.
    pub fn expect_type(&self, ty: plist_type) -> (r: Result<(), PlistError>)
        ensures
            self@.tag() == ty ==> r is Ok,
            self@.tag() != ty ==> r == Err::<(), PlistError>(
                PlistError::UnsupportedType(self@.tag()),
            ),
    {
        let real_ty = self.node_type();
        if real_ty == ty {
            Ok(())
        } else {
            Err(PlistError::UnsupportedType(real_ty))
        }
    }

    /// Obtains an immutable array view of this node.
    pub fn array(&self) -> (r: Result<&ArrayNode, PlistError>)
        ensures
            self@ matches Value::Array(items) ==> r is Ok && r.unwrap()@ == items,
            !(self@ is Array) ==> r == Err::<&ArrayNode, PlistError>(
                PlistError::UnsupportedType(self@.tag()),
            ),
    {
        match &self.payload {
            Payload::Array(a) => Ok(a),
            _ => Err(PlistError::UnsupportedType(self.node_type())),
        }
    }

    /// Obtains a mutable array view of this node. What is done to the view is done to the
    /// node.
    pub fn array_mut(&mut self) -> (r: Result<&mut ArrayNode, PlistError>)
        ensures
            old(self)@ is Array <==> r is Ok,
            r matches Ok(a) ==> Value::Array(a@) == old(self)@ && final(self)@ == Value::Array(final(a)@),
            r matches Err(e) ==> e == PlistError::UnsupportedType(old(self)@.tag()) && final(self)@ == old(self)@,
    {
        let real_ty = self.node_type();
        match &mut self.payload {
            Payload::Array(a) => Ok(a),
            _ => Err(PlistError::UnsupportedType(real_ty)),
        }
    }

    /// Obtains an immutable dictionary view of this node.
    pub fn dict(&self) -> (r: Result<&DictNode, PlistError>)
        ensures
            self@ matches Value::Dict(entries) ==> r is Ok && r.unwrap()@ == entries,
            !(self@ is Dict) ==> r == Err::<&DictNode, PlistError>(
                PlistError::UnsupportedType(self@.tag()),
            ),
    {
        match &self.payload {
            Payload::Dict(d) => Ok(d),
            _ => Err(PlistError::UnsupportedType(self.node_type())),
        }
    }

    /// Obtains a mutable dictionary view of this node. What is done to the view is done to the
    /// node.
    pub fn dict_mut(&mut self) -> (r: Result<&mut DictNode, PlistError>)
        ensures
            old(self)@ is Dict <==> r is Ok,
            r matches Ok(d) ==> Value::Dict(d@) == old(self)@ && final(self)@ == Value::Dict(final(d)@),
            r matches Err(e) ==> e == PlistError::UnsupportedType(old(self)@.tag()) && final(self)@ == old(self)@,
    {
        let real_ty = self.node_type();
        match &mut self.payload {
            Payload::Dict(d) => Ok(d),
            _ => Err(PlistError::UnsupportedType(real_ty)),
        }
    }
}

impl ArrayNode {
    /// The value of every array is well formed.
    pub proof fn lemma_wf(&self)
        ensures
            Value::Array(self@).wf(),
        decreases self,
    {
        assert forall|i: int| 0 <= i < self@.len() implies (#[trigger] self@[i]).wf() by {
            self.items@[i].lemma_wf();
        }
    }
}

impl DictNode {
    /// The value of every dictionary is well formed.
    pub proof fn lemma_wf(&self)
        ensures
            Value::Dict(self@).wf(),
        decreases self,
    {
        lemma_first_entries(self.pairs());
        assert forall|i: int| 0 <= i < self@.len() implies (#[trigger] self@[i]).1.wf() by {
            let pairs = self.pairs();
            let j = choose|j: int| 0 <= j < pairs.len() && pairs[j] == self@[i];
            if 0 <= j < self.values@.len() {
                self.values@[j].lemma_wf();
            }
        }
    }
}

impl Node {
    /// The value of every node is well formed: no dictionary in it has a key twice.
    pub proof fn lemma_wf(&self)
        ensures
            self@.wf(),
        decreases self,
    {
        match self.payload {
            Payload::Array(a) => {
                a.lemma_wf();
            },
            Payload::Dict(d) => {
                d.lemma_wf();
            },
            _ => {},
        }
    }
}

impl OwnedNode {
    /// The value of every tree is well formed: no dictionary in it has a key twice.
    pub proof fn lemma_wf(&self)
        ensures
            self@.wf(),
    {
        self.root.lemma_wf();
    }
}

impl Node {
    /// The boolean that the node holds, if it is a boolean.
    pub fn get_bool_val(&self) -> (r: Option<bool>)
        ensures
            r == (match self@ {
                Value::Boolean(b) => Some(b),
                _ => None,
            }),
    {
        match &self.payload {
            Payload::Boolean(b) => Some(*b),
            _ => None,
        }
    }

    /// The integer that the node holds, if it is an unsigned integer.
    pub fn get_uint_val(&self) -> (r: Option<u64>)
        ensures
            r == (match self@ {
                Value::UInt(n) => Some(n),
                _ => None,
            }),
    {
        match &self.payload {
            Payload::UInt(n) => Some(*n),
            _ => None,
        }
    }

    /// The bit pattern of the double that the node holds, if it is a real.
    pub fn get_real_val(&self) -> (r: Option<u64>)
        ensures
            r == (match self@ {
                Value::Real(bits) => Some(bits),
                _ => None,
            }),
    {
        match &self.payload {
            Payload::Real(bits) => Some(*bits),
            _ => None,
        }
    }

    /// The bytes of the string that the node holds, if it is a string.
    pub fn get_string_val(&self) -> (r: Option<&[u8]>)
        ensures
            self@ matches Value::String(s) ==> r is Some && r.unwrap()@ == s,
            !(self@ is String) ==> r is None,
    {
        match &self.payload {
            Payload::String(s) => Some(s.as_slice()),
            _ => None,
        }
    }

    /// The bytes that the node holds, if it is a data node.
    pub fn get_data_val(&self) -> (r: Option<&[u8]>)
        ensures
            self@ matches Value::Data(d) ==> r is Some && r.unwrap()@ == d,
            !(self@ is Data) ==> r is None,
    {
        match &self.payload {
            Payload::Data(d) => Some(d.as_slice()),
            _ => None,
        }
    }

    /// The seconds and microseconds that the node holds, if it is a date.
    pub fn get_date_val(&self) -> (r: Option<(i32, i32)>)
        ensures
            r == (match self@ {
                Value::Date { sec, usec } => Some((sec, usec)),
                _ => None,
            }),
    {
        match &self.payload {
            Payload::Date(sec, usec) => Some((*sec, *usec)),
            _ => None,
        }
    }

    /// The identifier that the node holds, if it is a unique identifier.
    pub fn get_uid_val(&self) -> (r: Option<u64>)
        ensures
            r == (match self@ {
                Value::Uid(n) => Some(n),
                _ => None,
            }),
    {
        match &self.payload {
            Payload::Uid(n) => Some(*n),
            _ => None,
        }
    }
}

impl DeepView for Node {
    type V = Value;

    open spec fn deep_view(&self) -> Value {
        self@
    }
}

impl OwnedNode {
    /// The value of the tree that the handle owns.
    pub closed spec fn view(&self) -> Value {
        self.root@
    }

    /// Creates an empty array.
    pub fn new_array() -> (r: OwnedNode)
        ensures
            r@ == Value::Array(Seq::empty()),
    {
        let r = OwnedNode { root: Node { payload: Payload::Array(ArrayNode { items: Vec::new() }) } };
        assert(r.root@->Array_0 =~= Seq::empty());
        r
    }

    /// Creates an empty dictionary.
    pub fn new_dict() -> (r: OwnedNode)
        ensures
            r@ == Value::Dict(Seq::empty()),
    {
        let d = DictNode { keys: Vec::new(), values: Vec::new() };
        proof {
            d.lemma_view();
            assert(d@ =~= Seq::empty());
        }
        OwnedNode { root: Node { payload: Payload::Dict(d) } }
    }

    /// Creates an unsigned integer node.
    pub fn new_uint(value: u64) -> (r: OwnedNode)
        ensures
            r@ == Value::UInt(value),
    {
        OwnedNode { root: Node { payload: Payload::UInt(value) } }
    }

    /// Creates a string node that holds the given bytes.
    pub fn new_str(value: &[u8]) -> (r: OwnedNode)
        ensures
            r@ == Value::String(value@),
    {
        OwnedNode { root: Node { payload: Payload::String(vstd::slice::slice_to_vec(value)) } }
    }

    /// Creates a new boolean node.
    pub fn new_bool(value: bool) -> (r: OwnedNode)
        ensures
            r@ == Value::Boolean(value),
    {
        OwnedNode { root: Node { payload: Payload::Boolean(value) } }
    }

    /// Creates a new real node from the IEEE 754 bit pattern of a double.
    pub fn new_real(bits: u64) -> (r: OwnedNode)
        ensures
            r@ == Value::Real(bits),
    {
        OwnedNode { root: Node { payload: Payload::Real(bits) } }
    }

    /// Creates a new date node: seconds and microseconds counted from 2001-01-01T00:00:00Z.
    pub fn new_date(sec: i32, usec: i32) -> (r: OwnedNode)
        ensures
            r@ == (Value::Date { sec, usec }),
    {
        OwnedNode { root: Node { payload: Payload::Date(sec, usec) } }
    }

    /// Creates a new data node that holds the given bytes.
    pub fn new_data(value: &[u8]) -> (r: OwnedNode)
        ensures
            r@ == Value::Data(value@),
    {
        OwnedNode { root: Node { payload: Payload::Data(vstd::slice::slice_to_vec(value)) } }
    }

    /// Creates a new unique-identifier node.
    pub fn new_uid(value: u64) -> (r: OwnedNode)
        ensures
            r@ == Value::Uid(value),
    {
        OwnedNode { root: Node { payload: Payload::Uid(value) } }
    }

    /// Lends out the root of the tree.
    pub fn as_ref(&self) -> (r: &Node)
        ensures
            r@ == self@,
    {
        &self.root
    }

    /// Lends out the root of the tree for mutation. What is done to the node is done to the
    /// tree.
    pub fn as_mut(&mut self) -> (r: &mut Node)
        ensures
            r@ == old(self)@,
            final(self)@ == final(r)@,
    {
        &mut self.root
    }
}

impl core::ops::Deref for OwnedNode {
    type Target = Node;

    fn deref(&self) -> (r: &Node)
        ensures
            r@ == self@,
    {
        &self.root
    }
}

impl core::ops::DerefMut for OwnedNode {
    fn deref_mut(&mut self) -> (r: &mut Node)
        ensures
            r@ == old(self)@,
            final(self)@ == final(r)@,
    {
        &mut self.root
    }
}

impl core::convert::AsRef<Node> for OwnedNode {
    fn as_ref(&self) -> (r: &Node)
        ensures
            r@ == self@,
    {
        &self.root
    }
}

impl core::convert::AsMut<Node> for OwnedNode {
    fn as_mut(&mut self) -> (r: &mut Node)
        ensures
            r@ == old(self)@,
            final(self)@ == final(r)@,
    {
        &mut self.root
    }
}

impl core::borrow::Borrow<Node> for OwnedNode {
    fn borrow(&self) -> (r: &Node)
        ensures
            Node::view(r) == self@,
    {
        &self.root
    }
}

impl core::borrow::BorrowMut<Node> for OwnedNode {
    fn borrow_mut(&mut self) -> (r: &mut Node)
        ensures
            Node::view(r) == old(self)@,
            final(self)@ == Node::view(final(r)),
    {
        &mut self.root
    }
}

impl DeepView for OwnedNode {
    type V = Value;

    open spec fn deep_view(&self) -> Value {
        self@
    }
}

impl ArrayNode {
    /// Length of the array.
    pub fn len(&self) -> (r: usize)
        ensures
            r == self@.len(),
    {
        self.items.len()
    }

    /// Checks if the array is empty.
    pub fn is_empty(&self) -> (r: bool)
        ensures
            r == (self@.len() == 0),
    {
        self.len() == 0
    }

    /// Obtains a child of this array. Returns `None` if the index is out of bounds.
    pub fn get(&self, index: usize) -> (r: Option<&Node>)
        ensures
            index < self@.len() ==> r is Some && r.unwrap()@ == self@[index as int],
            index >= self@.len() ==> r is None,
    {
        if index < self.items.len() {
            Some(&self.items[index])
        } else {
            None
        }
    }

    /// Obtains a mutable child of this array. Returns `None` if the index is out of bounds.
    /// What is done to the child is done to the array.
    pub fn get_mut(&mut self, index: usize) -> (r: Option<&mut Node>)
        ensures
            index < old(self)@.len() <==> r is Some,
            r matches Some(n) ==> n@ == old(self)@[index as int] && final(self)@ == old(self)@.update(index as int, final(n)@),
            r is None ==> final(self)@ == old(self)@,
    {
        if index < self.items.len() {
            Some(&mut self.items[index])
        } else {
            None
        }
    }

    /// Sets a child at a specified index, which must be in bounds. The child that was there is
    /// destroyed.
    pub fn set(&mut self, index: usize, item: OwnedNode)
        requires
            index < old(self)@.len(),
        ensures
            final(self)@ == old(self)@.update(index as int, item@),
    {
        self.items[index] = item.root;
        assert(self@ =~= old(self)@.update(index as int, item@));
    }

    /// Pushes a child to the end of the array.
    pub fn push(&mut self, item: OwnedNode)
        ensures
            final(self)@ == old(self)@.push(item@),
    {
        self.items.push(item.root);
        assert(self@ =~= old(self)@.push(item@));
    }

    /// Inserts a child before the specified index, which must not be beyond the end.
    pub fn insert(&mut self, index: usize, item: OwnedNode)
        requires
            index <= old(self)@.len(),
        ensures
            final(self)@ == old(self)@.insert(index as int, item@),
    {
        self.items.insert(index, item.root);
        assert(self@ =~= old(self)@.insert(index as int, item@));
    }

    /// Removes and destroys the child at the specified index, which must be in bounds.
    pub fn remove(&mut self, index: usize)
        requires
            index < old(self)@.len(),
        ensures
            final(self)@ == old(self)@.remove(index as int),
    {
        let _ = self.items.remove(index);
        assert(self@ =~= old(self)@.remove(index as int));
    }
}

impl core::ops::Index<usize> for ArrayNode {
    type Output = Node;

    /// Obtains the child at the given index, which must be in bounds.
    fn index(&self, index: usize) -> (r: &Node)
        ensures
            r@ == self@[index as int],
    {
        &self.items[index]
    }
}

impl vstd::std_specs::core::IndexSpecImpl<usize> for ArrayNode {
    open spec fn index_req(&self, index: &usize) -> bool {
        *index < self@.len()
    }
}

/// The values of the trees that a sequence of handles owns.
pub open spec fn values_of(items: Seq<OwnedNode>) -> Seq<Value> {
    items.map_values(|n: OwnedNode| n@)
}

impl ArrayNode {
    /// Pushes the given children to the end of the array, in order.
    pub fn extend(&mut self, items: Vec<OwnedNode>)
        ensures
            final(self)@ == old(self)@ + values_of(items@),
    {
        let ghost all = items@;
        for item in it: items
            invariant
                it.seq() == all,
                self@ == old(self)@ + values_of(all.take(it.index() as int)),
        {
            self.push(item);
            assert(self@ =~= old(self)@ + values_of(all.take(it.index() + 1)));
        }
        assert(all.take(all.len() as int) =~= all);
    }
}

impl OwnedNode {
    /// Creates an array of the given children, in order.
    pub fn from_iter(items: Vec<OwnedNode>) -> (r: OwnedNode)
        ensures
            r@ == Value::Array(values_of(items@)),
    {
        let mut array = ArrayNode { items: Vec::new() };
        assert(array@ =~= Seq::empty());
        array.extend(items);
        assert(array@ =~= values_of(items@));
        OwnedNode { root: Node { payload: Payload::Array(array) } }
    }
}

/// Compares two byte strings.
fn bytes_eq(a: &[u8], b: &[u8]) -> (r: bool)
    ensures
        r == (a@ == b@),
{
    if a.len() != b.len() {
        return false;
    }
    let mut i: usize = 0;
    while i < a.len()
        invariant
            a@.len() == b@.len(),
            i <= a@.len(),
            forall|j: int| 0 <= j < i ==> a@[j] == b@[j],
        decreases a@.len() - i,
    {
        if a[i] != b[i] {
            return false;
        }
        i += 1;
    }
    assert(a@ =~= b@);
    true
}

impl DictNode {
    /// The position of a key, if the dictionary holds it.
    fn find(&self, key: &[u8]) -> (r: Option<usize>)
        ensures
            self.well_formed(),
            r matches Some(i) ==> i < self.keys@.len() && self.keys@[i as int]@ == key@
                && dict_position(self@, key@) == i,
            r is Some <==> dict_has(self@, key@),
    {
        proof {
            use_type_invariant(self);
            self.lemma_view();
        }
        let mut i: usize = 0;
        while i < self.keys.len()
            invariant
                self.well_formed(),
                i <= self.keys@.len(),
                forall|j: int| 0 <= j < i ==> self.keys@[j]@ != key@,
            decreases self.keys@.len() - i,
        {
            if bytes_eq(self.keys[i].as_slice(), key) {
                proof {
                    self.lemma_view();
                    lemma_dict_entry(self@, i as int);
                }
                return Some(i);
            }
            i += 1;
        }
        proof {
            if dict_has(self@, key@) {
                lemma_dict_position(self@, key@);
            }
        }
        None
    }

    /// Length of the dictionary. Its keys are pairwise distinct.
    pub fn len(&self) -> (r: usize)
        ensures
            r == self@.len(),
            self.keys().no_duplicates(),
    {
        proof {
            use_type_invariant(self);
            self.lemma_view();
        }
        self.keys.len()
    }

    /// Checks if the dictionary is empty.
    pub fn is_empty(&self) -> (r: bool)
        ensures
            r == (self@.len() == 0),
    {
        self.len() == 0
    }

    /// Obtains the node associated with the specified key. Returns `None` if the entry does
    /// not exist.
    pub fn get(&self, key: &[u8]) -> (r: Option<&Node>)
        ensures
            dict_has(self@, key@) ==> r is Some && r.unwrap()@ == dict_get(self@, key@),
            !dict_has(self@, key@) ==> r is None,
    {
        match self.find(key) {
            Some(i) => {
                proof {
                    self.lemma_view();
                }
                Some(&self.values[i])
            },
            None => None,
        }
    }

    /// Obtains a mutable node associated with the specified key. Returns `None` if the entry
    /// does not exist. What is done to the node is done to the dictionary.
    pub fn get_mut(&mut self, key: &[u8]) -> (r: Option<&mut Node>)
        ensures
            dict_has(old(self)@, key@) <==> r is Some,
            r matches Some(n) ==> n@ == dict_get(old(self)@, key@) && final(self)@ == dict_insert(
                old(self)@,
                key@,
                final(n)@,
            ),
            r is None ==> final(self)@ == old(self)@,
    {
        match self.find(key) {
            Some(i) => {
                proof {
                    self.lemma_view();
                }
                let ghost after = *final(self);
                let n = &mut self.values[i];
                proof {
                    assert(after.keys == old(self).keys);
                    assert(after.values@ == old(self).values@.update(i as int, *final(n)));
                    after.lemma_view();
                    assert(after@ =~= old(self)@.update(i as int, (key@, final(n)@)));
                }
                Some(n)
            },
            None => None,
        }
    }

    /// Takes the keys and the values out and leaves the dictionary empty.
    fn take_entries(&mut self) -> (r: (Vec<Vec<u8>>, Vec<Node>))
        ensures
            r.0 == old(self).keys,
            r.1 == old(self).values,
            r.0@.len() == r.1@.len(),
            key_views(r.0@).no_duplicates(),
    {
        proof {
            use_type_invariant(&*self);
        }
        let mut taken = DictNode { keys: Vec::new(), values: Vec::new() };
        core::mem::swap(self, &mut taken);
        let DictNode { keys, values } = taken;
        (keys, values)
    }

    /// Associates a child with the specified key in this dictionary. If the key was there,
    /// its old value is destroyed and the key keeps its place; if not, it becomes the last.
    pub fn insert(&mut self, key: &[u8], value: OwnedNode)
        ensures
            final(self)@ == dict_insert(old(self)@, key@, value@),
            dict_has(final(self)@, key@),
            dict_get(final(self)@, key@) == value@,
    {
        proof {
            use_type_invariant(&*self);
            self.lemma_view();
            lemma_dict_insert(self@, key@, value@);
        }
        match self.find(key) {
            Some(i) => {
                self.values[i] = value.root;
                proof {
                    old(self).lemma_view();
                    self.lemma_view();
                    assert(self@ =~= old(self)@.update(i as int, (key@, value@)));
                }
            },
            None => {
                let (mut keys, mut values) = self.take_entries();
                keys.push(vstd::slice::slice_to_vec(key));
                values.push(value.root);
                proof {
                    old(self).lemma_view();
                    lemma_dict_insert(old(self)@, key@, value@);
                    assert(key_views(keys@) =~= dict_keys(dict_insert(old(self)@, key@, value@)));
                }
                *self = DictNode { keys, values };
                proof {
                    self.lemma_view();
                    assert(self@ =~= old(self)@.push((key@, value@)));
                }
            },
        }
    }

    /// Removes and destroys the child associated with the specified key, which the dictionary
    /// must hold. The other entries keep their order.
    pub fn remove(&mut self, key: &[u8])
        requires
            dict_has(old(self)@, key@),
        ensures
            final(self)@ == dict_remove(old(self)@, key@),
            !dict_has(final(self)@, key@),
    {
        proof {
            use_type_invariant(&*self);
            self.lemma_view();
            lemma_dict_remove(self@, key@);
        }
        let i = self.find(key).unwrap();
        let (mut keys, mut values) = self.take_entries();
        let _ = keys.remove(i);
        let _ = values.remove(i);
        proof {
            old(self).lemma_view();
            assert(key_views(keys@) =~= key_views(old(self).keys@).remove(i as int));
        }
        *self = DictNode { keys, values };
        proof {
            self.lemma_view();
            assert(self@ =~= old(self)@.remove(i as int));
        }
    }
}

impl<'a> core::ops::Index<&'a [u8]> for DictNode {
    type Output = Node;

    /// Obtains the node associated with the specified key, which the dictionary must hold.
    fn index(&self, key: &'a [u8]) -> (r: &Node)
        ensures
            r@ == dict_get(self@, key@),
    {
        self.get(key).unwrap()
    }
}

impl<'a> vstd::std_specs::core::IndexSpecImpl<&'a [u8]> for DictNode {
    open spec fn index_req(&self, key: &&'a [u8]) -> bool {
        dict_has(self@, key@)
    }
}

/// The keys and values of a sequence of entries.
pub open spec fn entries_of(entries: Seq<(Vec<u8>, OwnedNode)>) -> Seq<(Seq<u8>, Value)> {
    entries.map_values(|e: (Vec<u8>, OwnedNode)| (e.0@, e.1@))
}

impl DictNode {
    /// Inserts the given entries one after another.
    pub fn extend(&mut self, entries: Vec<(Vec<u8>, OwnedNode)>)
        ensures
            final(self)@ == insert_all(old(self)@, entries_of(entries@)),
    {
        let ghost all = entries@;
        for entry in it: entries
            invariant
                it.seq() == all,
                self@ == insert_all(old(self)@, entries_of(all.take(it.index() as int))),
        {
            let ghost before = entries_of(all.take(it.index() as int));
            let ghost after = entries_of(all.take(it.index() + 1));
            proof {
                assert(after.drop_last() =~= before);
                assert(after.last() == (entry.0@, entry.1@));
            }
            let (key, value) = entry;
            self.insert(key.as_slice(), value);
        }
        assert(all.take(all.len() as int) =~= all);
    }
}

impl OwnedNode {
    /// Creates a dictionary of the given entries, inserted one after another.
    pub fn from_entries(entries: Vec<(Vec<u8>, OwnedNode)>) -> (r: OwnedNode)
        ensures
            r@ == Value::Dict(insert_all(Seq::empty(), entries_of(entries@))),
    {
        let mut dict = DictNode { keys: Vec::new(), values: Vec::new() };
        proof {
            dict.lemma_view();
            assert(dict@ =~= Seq::empty());
        }
        dict.extend(entries);
        OwnedNode { root: Node { payload: Payload::Dict(dict) } }
    }
}

impl ArrayNode {
    /// Makes a deep copy of the array.
    fn duplicate(&self) -> (r: ArrayNode)
        ensures
            r@ == self@,
        decreases self,
    {
        let mut items: Vec<Node> = Vec::new();
        let mut i: usize = 0;
        while i < self.items.len()
            invariant
                i <= self.items@.len(),
                items@.len() == i,
                forall|j: int| 0 <= j < i ==> items@[j]@ == self.items@[j]@,
            decreases self.items@.len() - i,
        {
            let child = self.items[i].duplicate();
            items.push(child);
            i += 1;
        }
        let r = ArrayNode { items };
        assert(r@ =~= self@);
        r
    }

    /// Compares two arrays item by item.
    fn same(&self, other: &ArrayNode) -> (r: bool)
        ensures
            r == Value::Array(self@).same(Value::Array(other@)),
        decreases self,
    {
        if self.items.len() != other.items.len() {
            assert(self@.len() != other@.len());
            return false;
        }
        let mut i: usize = 0;
        while i < self.items.len()
            invariant
                self.items@.len() == other.items@.len(),
                i <= self.items@.len(),
                forall|j: int| 0 <= j < i ==> self.items@[j]@.same(other.items@[j]@),
            decreases self.items@.len() - i,
        {
            if !self.items[i].same(&other.items[i]) {
                assert(!(#[trigger] self@[i as int]).same(other@[i as int]));
                return false;
            }
            i += 1;
        }
        assert forall|j: int| 0 <= j < self@.len() implies (#[trigger] self@[j]).same(other@[j]) by {
            assert(self.items@[j]@.same(other.items@[j]@));
        }
        true
    }
}

impl DictNode {
    /// Makes a deep copy of the dictionary, with the entries in the same order.
    fn duplicate(&self) -> (r: DictNode)
        ensures
            r@ == self@,
        decreases self,
    {
        proof {
            use_type_invariant(self);
        }
        let mut keys: Vec<Vec<u8>> = Vec::new();
        let mut values: Vec<Node> = Vec::new();
        let mut i: usize = 0;
        while i < self.keys.len()
            invariant
                self.well_formed(),
                i <= self.keys@.len(),
                keys@.len() == i,
                values@.len() == i,
                forall|j: int| 0 <= j < i ==> keys@[j]@ == self.keys@[j]@,
                forall|j: int| 0 <= j < i ==> values@[j]@ == self.values@[j]@,
            decreases self.keys@.len() - i,
        {
            keys.push(vstd::slice::slice_to_vec(self.keys[i].as_slice()));
            let child = self.values[i].duplicate();
            values.push(child);
            i += 1;
        }
        proof {
            assert(key_views(keys@) =~= key_views(self.keys@));
        }
        let r = DictNode { keys, values };
        proof {
            self.lemma_view();
            r.lemma_view();
            assert(r@ =~= self@);
        }
        r
    }

    /// Compares two dictionaries: the same keys, and under each key the same value.
    fn same(&self, other: &DictNode) -> (r: bool)
        ensures
            r == Value::Dict(self@).same(Value::Dict(other@)),
        decreases self,
    {
        proof {
            use_type_invariant(self);
            use_type_invariant(other);
            self.lemma_view();
            other.lemma_view();
            vstd::seq_lib::seq_to_set_is_finite(self.keys());
            vstd::seq_lib::seq_to_set_is_finite(other.keys());
            self.keys().unique_seq_to_set();
            other.keys().unique_seq_to_set();
        }
        if self.keys.len() != other.keys.len() {
            return false;
        }
        let mut i: usize = 0;
        while i < self.keys.len()
            invariant
                self.well_formed(),
                other.well_formed(),
                i <= self.keys@.len(),
                forall|j: int|
                    0 <= j < i ==> dict_has(other@, (#[trigger] self@[j]).0) && self@[j].1.same(
                        dict_get(other@, self@[j].0),
                    ),
            decreases self.keys@.len() - i,
        {
            proof {
                self.lemma_view();
                other.lemma_view();
            }
            match other.find(self.keys[i].as_slice()) {
                None => {
                    proof {
                        let k = self@[i as int].0;
                        assert(self.keys()[i as int] == k);
                        assert(self.keys().to_set().contains(k));
                        assert(!other.keys().to_set().contains(k));
                    }
                    return false;
                },
                Some(j) => {
                    if !self.values[i].same(&other.values[j]) {
                        assert(!(#[trigger] self@[i as int]).1.same(
                            dict_get(other@, self@[i as int].0),
                        ));
                        return false;
                    }
                },
            }
            i += 1;
        }
        proof {
            self.lemma_view();
            assert forall|k: Seq<u8>| self.keys().to_set().contains(k) implies other.keys().to_set().contains(
                k,
            ) by {
                let j = self.keys().index_of(k);
                assert(self@[j].0 == k);
            }
            vstd::set_lib::lemma_subset_equality(self.keys().to_set(), other.keys().to_set());
        }
        true
    }
}

impl Node {
    /// Makes a deep copy of the tree below this node.
    fn duplicate(&self) -> (r: Node)
        ensures
            r@ == self@,
        decreases self,
    {
        let payload = match &self.payload {
            Payload::Boolean(b) => Payload::Boolean(*b),
            Payload::UInt(n) => Payload::UInt(*n),
            Payload::Real(bits) => Payload::Real(*bits),
            Payload::String(s) => Payload::String(vstd::slice::slice_to_vec(s.as_slice())),
            Payload::Array(a) => Payload::Array(a.duplicate()),
            Payload::Dict(d) => Payload::Dict(d.duplicate()),
            Payload::Date(sec, usec) => Payload::Date(*sec, *usec),
            Payload::Data(d) => Payload::Data(vstd::slice::slice_to_vec(d.as_slice())),
            Payload::Uid(n) => Payload::Uid(*n),
        };
        Node { payload }
    }

    /// Compares the trees below two nodes.
    fn same(&self, other: &Node) -> (r: bool)
        ensures
            r == self@.same(other@),
        decreases self,
    {
        match (&self.payload, &other.payload) {
            (Payload::Boolean(a), Payload::Boolean(b)) => *a == *b,
            (Payload::UInt(a), Payload::UInt(b)) => *a == *b,
            (Payload::Real(a), Payload::Real(b)) => *a == *b,
            (Payload::String(a), Payload::String(b)) => bytes_eq(a.as_slice(), b.as_slice()),
            (Payload::Array(a), Payload::Array(b)) => a.same(b),
            (Payload::Dict(a), Payload::Dict(b)) => a.same(b),
            (Payload::Date(s1, u1), Payload::Date(s2, u2)) => *s1 == *s2 && *u1 == *u2,
            (Payload::Data(a), Payload::Data(b)) => bytes_eq(a.as_slice(), b.as_slice()),
            (Payload::Uid(a), Payload::Uid(b)) => *a == *b,
            _ => false,
        }
    }

    /// Makes a deep copy of the tree below this node and hands it to a new owner.
    pub fn to_owned(&self) -> (r: OwnedNode)
        ensures
            r@ == self@,
    {
        OwnedNode { root: self.duplicate() }
    }
}

impl PartialEq for Node {
    /// Structural equality: scalars by value, arrays item by item in order, dictionaries by
    /// their keys and the value under each key, whatever the order of the keys.
    fn eq(&self, other: &Node) -> (r: bool) {
        self.same(other)
    }
}

impl PartialEqSpecImpl for Node {
    open spec fn obeys_eq_spec() -> bool {
        true
    }

    open spec fn eq_spec(&self, other: &Node) -> bool {
        self@.same(other@)
    }
}

impl PartialEq for OwnedNode {
    /// Structural equality of the two trees.
    fn eq(&self, other: &OwnedNode) -> (r: bool) {
        self.root.same(&other.root)
    }
}

impl PartialEqSpecImpl for OwnedNode {
    open spec fn obeys_eq_spec() -> bool {
        true
    }

    open spec fn eq_spec(&self, other: &OwnedNode) -> bool {
        self@.same(other@)
    }
}

impl Clone for OwnedNode {
    /// Copying a handle makes a deep copy of its tree: ownership is never shared.
    fn clone(&self) -> (r: OwnedNode)
        ensures
            r@ == self@,
    {
        self.root.to_owned()
    }
}

/// An iterator of `ArrayNode`: it walks the children from index 0 to the end.
pub struct ArrayIter<'a> {
    node: &'a ArrayNode,
    index: usize,
}

impl<'a> ArrayIter<'a> {
    /// The values of the children that are still to come, in order.
    pub closed spec fn remaining(&self) -> Seq<Value> {
        if self.index <= self.node@.len() {
            self.node@.skip(self.index as int)
        } else {
            Seq::empty()
        }
    }

    /// Hands out the next child, or `None` when all have been handed out.
    pub fn next(&mut self) -> (r: Option<&'a Node>)
        ensures
            old(self).remaining().len() > 0 ==> r is Some && r.unwrap()@ == old(self).remaining()[0] && final(self).remaining() == old(self).remaining().skip(1),
            old(self).remaining().len() == 0 ==> r is None && final(self).remaining() == old(self).remaining(),
    {
        let node: &'a ArrayNode = self.node;
        if self.index < node.len() {
            let result = &node[self.index];
            self.index += 1;
            assert(self.remaining() =~= old(self).remaining().skip(1));
            Some(result)
        } else {
            None
        }
    }

    /// The number of children that are still to come, as the lower and the upper bound.
    pub fn size_hint(&self) -> (r: (usize, Option<usize>))
        ensures
            r.0 == self.remaining().len(),
            r.1 == Some(r.0),
    {
        let len = self.node.len();
        let remaining: usize = if self.index <= len {
            len - self.index
        } else {
            0
        };
        (remaining, Some(remaining))
    }
}

impl ArrayNode {
    /// Iterates the child nodes of this array.
    pub fn iter(&self) -> (r: ArrayIter<'_>)
        ensures
            r.remaining() == self@,
    {
        let r = ArrayIter { node: self, index: 0 };
        assert(r.remaining() =~= self@);
        r
    }
}

/// An iterator of `DictNode`: it walks the entries in their order. It borrows the dictionary,
/// so the dictionary cannot change while it is walked.
pub struct DictIter<'a> {
    node: &'a DictNode,
    index: usize,
}

impl<'a> DictIter<'a> {
    /// The entries that are still to come, in order.
    pub closed spec fn remaining(&self) -> Seq<(Seq<u8>, Value)> {
        if self.index <= self.node@.len() {
            self.node@.skip(self.index as int)
        } else {
            Seq::empty()
        }
    }

    /// Hands out the next entry, the key as a copy, or `None` when all have been handed out.
    pub fn next(&mut self) -> (r: Option<(Vec<u8>, &'a Node)>)
        ensures
            old(self).remaining().len() > 0 ==> r is Some && (r.unwrap().0@, r.unwrap().1@) == old(self).remaining()[0] && final(self).remaining() == old(self).remaining().skip(1),
            old(self).remaining().len() == 0 ==> r is None && final(self).remaining() == old(self).remaining(),
    {
        let node: &'a DictNode = self.node;
        proof {
            use_type_invariant(node);
            node.lemma_view();
        }
        if self.index < node.keys.len() {
            let i = self.index;
            let key = vstd::slice::slice_to_vec(node.keys[i].as_slice());
            let value: &'a Node = &node.values[i];
            self.index += 1;
            assert(self.remaining() =~= old(self).remaining().skip(1));
            Some((key, value))
        } else {
            None
        }
    }
}

impl DictNode {
    /// Iterates the entries of this dictionary.
    pub fn iter(&self) -> (r: DictIter<'_>)
        ensures
            r.remaining() == self@,
    {
        let r = DictIter { node: self, index: 0 };
        assert(r.remaining() =~= self@);
        r
    }
}

/// A mutable iterator of `DictNode`: the dictionary and the number of entries that have been
/// handed out. It walks the entries in their order and lends out each value for mutation, and
/// it holds the exclusive borrow of the dictionary while it lives.
pub struct DictMutIter<'a> {
    /// The dictionary that is walked.
    pub dict: &'a mut DictNode,
    /// The number of entries that have been handed out.
    pub index: usize,
}

impl<'a> DictMutIter<'a> {
    /// Hands out the next entry, the key as a copy and the value for mutation, or `None` when
    /// all have been handed out. What is done to the value is done to the dictionary.
    pub fn next(&mut self) -> (r: Option<(Vec<u8>, &mut Node)>)
        ensures
            old(self).index < old(self).dict@.len() ==> r is Some,
            old(self).index >= old(self).dict@.len() ==> r is None,
            r matches Some(e) ==> (e.0@, e.1@) == old(self).dict@[old(self).index as int]
                && final(self).index == old(self).index + 1 && final(self).dict@ == old(self).dict@.update(old(self).index as int, (e.0@, final(e.1)@)),
            r is None ==> final(self).dict@ == old(self).dict@ && final(self).index == old(self).index,
            *final(final(self).dict) == *final(old(self).dict),
    {
        proof {
            use_type_invariant(&*self.dict);
            self.dict.lemma_view();
        }
        if self.index < self.dict.keys.len() {
            let i = self.index;
            let key = vstd::slice::slice_to_vec(self.dict.keys[i].as_slice());
            self.index += 1;
            let ghost after = *final(self).dict;
            let value = &mut self.dict.values[i];
            proof {
                assert(after.keys == old(self).dict.keys);
                assert(after.values@ == old(self).dict.values@.update(i as int, *final(value)));
                after.lemma_view();
                assert(after@ =~= old(self).dict@.update(i as int, (key@, final(value)@)));
            }
            Some((key, value))
        } else {
            None
        }
    }
}

impl DictNode {
    /// Iterates the entries of this dictionary for mutation. When the iterator is gone, the
    /// dictionary is what the iterator has made of it.
    pub fn iter_mut(&mut self) -> (r: DictMutIter<'_>)
        ensures
            r.dict@ == old(self)@,
            r.index == 0,
            final(self)@ == final(r.dict)@,
    {
        DictMutIter { dict: self, index: 0 }
    }
}

} // verus!
