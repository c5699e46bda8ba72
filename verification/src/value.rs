//! The mathematical content of a property-list tree.

use vstd::prelude::*;
use crate::plist_sys::plist_type;

verus! {

/// What a tree holds, apart from where it is stored.
pub enum Value {
    Boolean(bool),
    UInt(u64),
    /// A double, held as its IEEE 754 bit pattern.
    Real(u64),
    /// The bytes of a string; they need not be UTF-8.
    String(Seq<u8>),
    /// The items of an array, in order.
    Array(Seq<Value>),
    /// The entries of a dictionary, each a key and its value, in the order in which the
    /// dictionary is walked: the order in which the keys were first inserted.
    Dict(Seq<(Seq<u8>, Value)>),
    /// Seconds and microseconds counted from 2001-01-01T00:00:00Z.
    Date { sec: i32, usec: i32 },
    Data(Seq<u8>),
    Uid(u64),
}

/// The keys of the entries of a dictionary, in order.
pub open spec fn dict_keys(entries: Seq<(Seq<u8>, Value)>) -> Seq<Seq<u8>> {
    entries.map_values(|e: (Seq<u8>, Value)| e.0)
}

/// The dictionary has an entry for the key.
pub open spec fn dict_has(entries: Seq<(Seq<u8>, Value)>, key: Seq<u8>) -> bool {
    dict_keys(entries).contains(key)
}

/// The place of the entry for a key that the dictionary has.
pub open spec fn dict_position(entries: Seq<(Seq<u8>, Value)>, key: Seq<u8>) -> int {
    dict_keys(entries).index_of(key)
}

/// The value under a key that the dictionary has.
pub open spec fn dict_get(entries: Seq<(Seq<u8>, Value)>, key: Seq<u8>) -> Value {
    entries[dict_position(entries, key)].1
}

/// The entries after a value has been put under a key: where the key was there, its entry
/// has the new value and keeps its place; where it was not, the new entry is the last.
pub open spec fn dict_insert(entries: Seq<(Seq<u8>, Value)>, key: Seq<u8>, value: Value) -> Seq<
    (Seq<u8>, Value),
> {
    if dict_has(entries, key) {
        entries.update(dict_position(entries, key), (key, value))
    } else {
        entries.push((key, value))
    }
}

/// The entries after the entry for a key has been removed: the others keep their order.
pub open spec fn dict_remove(entries: Seq<(Seq<u8>, Value)>, key: Seq<u8>) -> Seq<
    (Seq<u8>, Value),
> {
    entries.remove(dict_position(entries, key))
}

/// The entries after the given entries have been inserted one after another.
pub open spec fn insert_all(entries: Seq<(Seq<u8>, Value)>, more: Seq<(Seq<u8>, Value)>) -> Seq<
    (Seq<u8>, Value),
>
    decreases more.len(),
{
    if more.len() == 0 {
        entries
    } else {
        dict_insert(insert_all(entries, more.drop_last()), more.last().0, more.last().1)
    }
}

/// The entries without those whose key has occurred before.
pub open spec fn first_entries(entries: Seq<(Seq<u8>, Value)>) -> Seq<(Seq<u8>, Value)>
    decreases entries.len(),
{
    if entries.len() == 0 {
        entries
    } else {
        let front = first_entries(entries.drop_last());
        if dict_has(front, entries.last().0) {
            front
        } else {
            front.push(entries.last())
        }
    }
}

impl Value {
    /// The type of the node that holds this value.
    pub open spec fn tag(self) -> plist_type {
        match self {
            Value::Boolean(_) => plist_type::Boolean,
            Value::UInt(_) => plist_type::UInt,
            Value::Real(_) => plist_type::Real,
            Value::String(_) => plist_type::String,
            Value::Array(_) => plist_type::Array,
            Value::Dict(_) => plist_type::Dict,
            Value::Date { .. } => plist_type::Date,
            Value::Data(_) => plist_type::Data,
            Value::Uid(_) => plist_type::Uid,
        }
    }

    /// No dictionary in the tree has a key twice. The value of every node is well formed.
    pub open spec fn wf(self) -> bool
        decreases self,
    {
        match self {
            Value::Array(items) => forall|i: int|
                0 <= i < items.len() ==> (#[trigger] items[i]).wf(),
            Value::Dict(entries) => dict_keys(entries).no_duplicates() && forall|i: int|
                0 <= i < entries.len() ==> (#[trigger] entries[i]).1.wf(),
            _ => true,
        }
    }

    /// Structural equality. Scalars are the same if they are equal. Arrays are the same if
    /// they have the same items in the same order. Dictionaries are the same if they have the
    /// same set of keys and under each key the same value, whatever the order of the entries.
    pub open spec fn same(self, other: Value) -> bool
        decreases self,
    {
        match self {
            Value::Array(a) => other matches Value::Array(b) && a.len() == b.len() && forall|
                i: int,
            |
                0 <= i < a.len() ==> (#[trigger] a[i]).same(b[i]),
            Value::Dict(a) => other matches Value::Dict(b) && dict_keys(a).to_set() == dict_keys(
                b,
            ).to_set() && forall|i: int|
                0 <= i < a.len() ==> (#[trigger] a[i]).1.same(dict_get(b, a[i].0)),
            _ => self == other,
        }
    }
}

/// In a sequence of entries without a key twice, the entry at a place is the one for its
/// key.
pub proof fn lemma_dict_entry(entries: Seq<(Seq<u8>, Value)>, i: int)
    requires
        dict_keys(entries).no_duplicates(),
        0 <= i < entries.len(),
    ensures
        dict_has(entries, entries[i].0),
        dict_position(entries, entries[i].0) == i,
        dict_get(entries, entries[i].0) == entries[i].1,
{
    let keys = dict_keys(entries);
    assert(keys[i] == entries[i].0);
    let j = keys.index_of(entries[i].0);
    assert(keys[j] == keys[i]);
}

/// The place of a key that a dictionary has is the place of an entry with that key.
pub proof fn lemma_dict_position(entries: Seq<(Seq<u8>, Value)>, key: Seq<u8>)
    requires
        dict_has(entries, key),
    ensures
        0 <= dict_position(entries, key) < entries.len(),
        entries[dict_position(entries, key)].0 == key,
{
    let keys = dict_keys(entries);
    let j = keys.index_of(key);
    assert(keys[j] == key);
}

/// Putting a value under a key leaves no key twice, has the key, and has every other key as
/// before.
pub proof fn lemma_dict_insert(entries: Seq<(Seq<u8>, Value)>, key: Seq<u8>, value: Value)
    requires
        dict_keys(entries).no_duplicates(),
    ensures
        dict_keys(dict_insert(entries, key, value)).no_duplicates(),
        dict_has(dict_insert(entries, key, value), key),
        dict_get(dict_insert(entries, key, value), key) == value,
        forall|k: Seq<u8>|
            k != key ==> dict_has(dict_insert(entries, key, value), k) == dict_has(entries, k),
        forall|k: Seq<u8>|
            k != key && dict_has(entries, k) ==> dict_get(dict_insert(entries, key, value), k)
                == dict_get(entries, k),
{
    let after = dict_insert(entries, key, value);
    let keys = dict_keys(entries);
    let keys_after = dict_keys(after);
    if dict_has(entries, key) {
        lemma_dict_position(entries, key);
        let p = dict_position(entries, key);
        assert(keys_after =~= keys);
        lemma_dict_entry(after, p);
        assert forall|k: Seq<u8>| k != key && dict_has(entries, k) implies dict_get(after, k)
            == dict_get(entries, k) by {
            lemma_dict_position(entries, k);
        }
    } else {
        assert(keys_after =~= keys.push(key));
        assert forall|i: int, j: int|
            0 <= i < keys_after.len() && 0 <= j < keys_after.len() && i != j implies keys_after[i]
            != keys_after[j] by {
            if i == keys.len() {
                assert(keys[j] == keys_after[j]);
            } else if j == keys.len() {
                assert(keys[i] == keys_after[i]);
            }
        }
        lemma_dict_entry(after, entries.len() as int);
        assert forall|k: Seq<u8>| k != key implies dict_has(after, k) == dict_has(entries, k) by {
            if dict_has(entries, k) {
                lemma_dict_position(entries, k);
                assert(keys_after[dict_position(entries, k)] == k);
            }
            if dict_has(after, k) {
                lemma_dict_position(after, k);
                assert(keys[dict_position(after, k)] == k);
            }
        }
        assert forall|k: Seq<u8>| k != key && dict_has(entries, k) implies dict_get(after, k)
            == dict_get(entries, k) by {
            lemma_dict_position(entries, k);
            lemma_dict_entry(after, dict_position(entries, k));
        }
    }
}

/// Entries without a key twice are their own first entries.
pub proof fn lemma_first_entries_same(entries: Seq<(Seq<u8>, Value)>)
    requires
        dict_keys(entries).no_duplicates(),
    ensures
        first_entries(entries) == entries,
    decreases entries.len(),
{
    if entries.len() > 0 {
        let front = entries.drop_last();
        assert(dict_keys(front) =~= dict_keys(entries).drop_last());
        lemma_first_entries_same(front);
        if dict_has(front, entries.last().0) {
            lemma_dict_position(front, entries.last().0);
            let p = dict_position(front, entries.last().0);
            assert(dict_keys(entries)[p] == dict_keys(entries)[entries.len() - 1]);
        }
        assert(front.push(entries.last()) =~= entries);
    }
}

/// The first entries have no key twice, and each of them is one of the entries.
pub proof fn lemma_first_entries(entries: Seq<(Seq<u8>, Value)>)
    ensures
        dict_keys(first_entries(entries)).no_duplicates(),
        forall|i: int|
            0 <= i < first_entries(entries).len() ==> entries.contains(
                #[trigger] first_entries(entries)[i],
            ),
    decreases entries.len(),
{
    if entries.len() > 0 {
        let front = entries.drop_last();
        lemma_first_entries(front);
        let first = first_entries(front);
        let all = first_entries(entries);
        assert forall|i: int| 0 <= i < all.len() implies entries.contains(#[trigger] all[i]) by {
            if i < first.len() {
                let j = choose|j: int| 0 <= j < front.len() && front[j] == first[i];
                assert(entries[j] == all[i]);
            } else {
                assert(entries[entries.len() - 1] == all[i]);
            }
        }
        if !dict_has(first, entries.last().0) {
            let keys = dict_keys(all);
            assert(keys =~= dict_keys(first).push(entries.last().0));
            assert forall|i: int, j: int|
                0 <= i < keys.len() && 0 <= j < keys.len() && i != j implies keys[i] != keys[j] by {
                if i == first.len() {
                    assert(dict_keys(first)[j] == keys[j]);
                } else if j == first.len() {
                    assert(dict_keys(first)[i] == keys[i]);
                }
            }
        }
    }
}

/// Inserting entries without a key twice into the empty dictionary gives those entries.
pub proof fn lemma_insert_all_distinct(entries: Seq<(Seq<u8>, Value)>)
    requires
        dict_keys(entries).no_duplicates(),
    ensures
        insert_all(Seq::empty(), entries) == entries,
    decreases entries.len(),
{
    if entries.len() > 0 {
        let front = entries.drop_last();
        assert(dict_keys(front) =~= dict_keys(entries).drop_last());
        lemma_insert_all_distinct(front);
        if dict_has(front, entries.last().0) {
            lemma_dict_position(front, entries.last().0);
            let p = dict_position(front, entries.last().0);
            assert(dict_keys(entries)[p] == dict_keys(entries)[entries.len() - 1]);
        }
        assert(front.push(entries.last()) =~= entries);
    } else {
        assert(entries =~= Seq::empty());
    }
}

/// Removing the entry for a key leaves no key twice, has the key no more, and has every
/// other key as before.
pub proof fn lemma_dict_remove(entries: Seq<(Seq<u8>, Value)>, key: Seq<u8>)
    requires
        dict_keys(entries).no_duplicates(),
        dict_has(entries, key),
    ensures
        dict_keys(dict_remove(entries, key)).no_duplicates(),
        dict_remove(entries, key).len() == entries.len() - 1,
        !dict_has(dict_remove(entries, key), key),
        forall|k: Seq<u8>|
            k != key ==> dict_has(dict_remove(entries, key), k) == dict_has(entries, k),
        forall|k: Seq<u8>|
            k != key && dict_has(entries, k) ==> dict_get(dict_remove(entries, key), k)
                == dict_get(entries, k),
{
    let after = dict_remove(entries, key);
    let keys = dict_keys(entries);
    let keys_after = dict_keys(after);
    lemma_dict_position(entries, key);
    let p = dict_position(entries, key);
    assert(keys_after =~= keys.remove(p));
    assert forall|i: int, j: int|
        0 <= i < keys_after.len() && 0 <= j < keys_after.len() && i != j implies keys_after[i]
        != keys_after[j] by {
        let a = if i < p { i } else { i + 1 };
        let b = if j < p { j } else { j + 1 };
        assert(keys_after[i] == keys[a]);
        assert(keys_after[j] == keys[b]);
    }
    if dict_has(after, key) {
        lemma_dict_position(after, key);
        let q = dict_position(after, key);
        let a = if q < p { q } else { q + 1 };
        assert(keys[a] == keys[p]);
    }
    assert forall|k: Seq<u8>| k != key implies dict_has(after, k) == dict_has(entries, k) by {
        if dict_has(entries, k) {
            lemma_dict_position(entries, k);
            let q = dict_position(entries, k);
            let a = if q < p { q } else { q - 1 };
            assert(keys_after[a] == k);
        }
        if dict_has(after, k) {
            lemma_dict_position(after, k);
            let q = dict_position(after, k);
            let a = if q < p { q } else { q + 1 };
            assert(keys[a] == k);
        }
    }
    assert forall|k: Seq<u8>| k != key && dict_has(entries, k) implies dict_get(after, k)
        == dict_get(entries, k) by {
        lemma_dict_position(entries, k);
        let q = dict_position(entries, k);
        let a = if q < p { q } else { q - 1 };
        assert(keys_after[a] == k);
        lemma_dict_entry(after, a);
    }
}

/// One step from a composite to one of its children: the index in an array, or the key in a
/// dictionary.
pub enum Hop {
    Index(int),
    Key(Seq<u8>),
}

impl Value {
    /// The child that a step leads to, if the value is of the matching composite type and
    /// has such a child.
    pub open spec fn child(self, hop: Hop) -> Option<Value> {
        match (self, hop) {
            (Value::Array(items), Hop::Index(i)) => if 0 <= i < items.len() {
                Some(items[i])
            } else {
                None
            },
            (Value::Dict(entries), Hop::Key(k)) => if dict_has(entries, k) {
                Some(dict_get(entries, k))
            } else {
                None
            },
            _ => None,
        }
    }

    /// The value that a path of steps leads to, if every step can be taken. The empty path
    /// leads to the value itself.
    pub open spec fn descendant(self, path: Seq<Hop>) -> Option<Value>
        decreases path.len(),
    {
        if path.len() == 0 {
            Some(self)
        } else {
            match self.descendant(path.drop_last()) {
                Some(parent) => parent.child(path.last()),
                None => None,
            }
        }
    }

    /// The parent of the value that a path leads to: the value one step before the end. The
    /// value itself has no parent, and neither has what no path leads to.
    pub open spec fn parent_of(self, path: Seq<Hop>) -> Option<Value> {
        if path.len() > 0 && self.descendant(path) is Some {
            self.descendant(path.drop_last())
        } else {
            None
        }
    }

    /// The index of the value that a path leads to, if its parent is an array.
    pub open spec fn index_in_array(self, path: Seq<Hop>) -> Option<int> {
        if path.len() > 0 && self.descendant(path) is Some && path.last() is Index {
            Some(path.last()->Index_0)
        } else {
            None
        }
    }

    /// The key of the value that a path leads to, if its parent is a dictionary.
    pub open spec fn key_in_dict(self, path: Seq<Hop>) -> Option<Seq<u8>> {
        if path.len() > 0 && self.descendant(path) is Some && path.last() is Key {
            Some(path.last()->Key_0)
        } else {
            None
        }
    }
}

/// Every node but the root has exactly one parent: where a path of at least one step leads
/// to a value, it leads through a parent, the parent is an array or a dictionary, and the
/// last step leads from the parent to the value.
pub proof fn lemma_parent(v: Value, path: Seq<Hop>)
    requires
        path.len() > 0,
        v.descendant(path) is Some,
    ensures
        v.parent_of(path) matches Some(parent) && parent.child(path.last()) == v.descendant(path)
            && (parent is Array || parent is Dict),
{
}

/// The index in the parent is known exactly where the parent is an array, and the key in the
/// parent exactly where the parent is a dictionary.
pub proof fn lemma_place_in_parent(v: Value, path: Seq<Hop>)
    ensures
        v.index_in_array(path) is Some <==> (v.parent_of(path) matches Some(parent)
            && parent is Array),
        v.key_in_dict(path) is Some <==> (v.parent_of(path) matches Some(parent)
            && parent is Dict),
        v.index_in_array(path) matches Some(i) ==> v.parent_of(path)->Some_0.child(
            Hop::Index(i),
        ) == v.descendant(path),
        v.key_in_dict(path) matches Some(k) ==> v.parent_of(path)->Some_0.child(Hop::Key(k))
            == v.descendant(path),
{
}

} // verus!
