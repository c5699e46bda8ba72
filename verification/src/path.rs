//! Where a node stands in its tree.
//!
//! A node below the root is addressed by the path of steps that leads to it from the root:
//! at each array the index of the child, at each dictionary its key. Every node but the root
//! has exactly one parent, the node one step before the end of its path.

use vstd::prelude::*;
use crate::node::Node;
use crate::value::{Hop, Value};

verus! {

/// One step from a composite node to one of its children.
#[derive(Debug)]
pub enum Step {
    /// The child of an array at the given index.
    Index(usize),
    /// The child of a dictionary under the given key.
    Key(Vec<u8>),
}

impl Step {
    /// The step as contracts speak of it.
    pub open spec fn view(&self) -> Hop {
        match self {
            Step::Index(i) => Hop::Index(*i as int),
            Step::Key(k) => Hop::Key(k@),
        }
    }
}

/// The steps of a path.
pub open spec fn hops(path: Seq<Step>) -> Seq<Hop> {
    path.map_values(|s: Step| s@)
}

impl Node {
    /// Obtains the child that a step leads to, if the node is of the matching composite type
    /// and has such a child.
    pub fn child(&self, step: &Step) -> (r: Option<&Node>)
        ensures
            self@.child(step@) matches Some(v) ==> r is Some && r.unwrap()@ == v,
            self@.child(step@) is None ==> r is None,
    {
        match step {
            Step::Index(i) => match self.array() {
                Ok(array) => array.get(*i),
                Err(_) => None,
            },
            Step::Key(k) => match self.dict() {
                Ok(dict) => dict.get(k.as_slice()),
                Err(_) => None,
            },
        }
    }

    /// Obtains the node that a path leads to from this node, if every step can be taken.
    pub fn descendant(&self, path: &[Step]) -> (r: Option<&Node>)
        ensures
            self@.descendant(hops(path@)) matches Some(v) ==> r is Some && r.unwrap()@ == v,
            self@.descendant(hops(path@)) is None ==> r is None,
    {
        let mut current: &Node = self;
        let mut i: usize = 0;
        while i < path.len()
            invariant
                i <= path@.len(),
                self@.descendant(hops(path@.take(i as int))) == Some(current@),
            decreases path@.len() - i,
        {
            proof {
                let longer = hops(path@.take(i + 1));
                assert(longer.drop_last() =~= hops(path@.take(i as int)));
                assert(longer.last() == path@[i as int]@);
                assert(hops(path@).take(i + 1) =~= longer);
                lemma_unreachable(self@, hops(path@), i + 1);
            }
            match current.child(&path[i]) {
                Some(next) => {
                    current = next;
                },
                None => {
                    return None;
                },
            }
            i += 1;
        }
        assert(path@.take(path@.len() as int) =~= path@);
        Some(current)
    }

    /// Obtains the parent of the node that a path leads to from this node. There is none for
    /// the empty path, which leads to this node itself, and none where the path leads nowhere.
    pub fn parent(&self, path: &[Step]) -> (r: Option<&Node>)
        ensures
            self@.parent_of(hops(path@)) matches Some(v) ==> r is Some && r.unwrap()@ == v,
            self@.parent_of(hops(path@)) is None ==> r is None,
    {
        let n = path.len();
        if n == 0 {
            return None;
        }
        let front = vstd::slice::slice_subrange(path, 0, n - 1);
        proof {
            assert(hops(front@) =~= hops(path@).drop_last());
            assert(hops(path@).last() == path@[n - 1]@);
        }
        match self.descendant(front) {
            Some(parent) => match parent.child(&path[n - 1]) {
                Some(_) => Some(parent),
                None => None,
            },
            None => None,
        }
    }

    /// If the node that a path leads to is attached to an array, returns its index in that
    /// array. Otherwise, returns `None`.
    pub fn get_index_in_array(&self, path: &[Step]) -> (r: Option<usize>)
        ensures
            self@.index_in_array(hops(path@)) matches Some(i) ==> r is Some && r.unwrap() == i,
            self@.index_in_array(hops(path@)) is None ==> r is None,
    {
        let n = path.len();
        if n == 0 {
            return None;
        }
        proof {
            assert(hops(path@).last() == path@[n - 1]@);
        }
        match &path[n - 1] {
            Step::Index(i) => match self.descendant(path) {
                Some(_) => Some(*i),
                None => None,
            },
            Step::Key(_) => None,
        }
    }

    /// If the node that a path leads to is attached to a dictionary, returns its key in that
    /// dictionary. Otherwise, returns `None`.
    pub fn get_key_in_dict(&self, path: &[Step]) -> (r: Option<Vec<u8>>)
        ensures
            self@.key_in_dict(hops(path@)) matches Some(k) ==> r is Some && r.unwrap()@ == k,
            self@.key_in_dict(hops(path@)) is None ==> r is None,
    {
        let n = path.len();
        if n == 0 {
            return None;
        }
        proof {
            assert(hops(path@).last() == path@[n - 1]@);
        }
        match &path[n - 1] {
            Step::Key(k) => match self.descendant(path) {
                Some(_) => Some(vstd::slice::slice_to_vec(k.as_slice())),
                None => None,
            },
            Step::Index(_) => None,
        }
    }
}

/// Where a front part of a path leads nowhere, the path leads nowhere.
pub proof fn lemma_unreachable(v: Value, path: Seq<Hop>, n: int)
    requires
        0 <= n <= path.len(),
    ensures
        v.descendant(path.take(n)) is None ==> v.descendant(path) is None,
    decreases path.len(),
{
    if n < path.len() {
        assert(path.drop_last().take(n) =~= path.take(n));
        lemma_unreachable(v, path.drop_last(), n);
    } else {
        assert(path.take(n) =~= path);
    }
}

} // verus!
