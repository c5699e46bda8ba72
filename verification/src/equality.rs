//! The laws of structural equality.
//!
//! `==` on nodes and trees computes [`Value::same`]. It is an equivalence on the values of
//! trees. Arrays are compared place by place, so the order of their items counts;
//! dictionaries are compared key by key, so the order of their entries does not.

use vstd::prelude::*;
use crate::value::{dict_get, dict_has, dict_keys, dict_position, lemma_dict_entry, lemma_dict_position, Value};

verus! {

/// Every value is the same as itself.
pub proof fn lemma_same_reflexive(v: Value)
    requires
        v.wf(),
    ensures
        v.same(v),
    decreases v,
{
    match v {
        Value::Array(a) => {
            assert forall|i: int| 0 <= i < a.len() implies (#[trigger] a[i]).same(a[i]) by {
                lemma_same_reflexive(a[i]);
            }
        },
        Value::Dict(a) => {
            assert forall|i: int| 0 <= i < a.len() implies (#[trigger] a[i]).1.same(
                dict_get(a, a[i].0),
            ) by {
                lemma_dict_entry(a, i);
                lemma_same_reflexive(a[i].1);
            }
        },
        _ => {},
    }
}

/// If one value is the same as another, the other is the same as the one.
pub proof fn lemma_same_symmetric(a: Value, b: Value)
    requires
        a.wf(),
        b.wf(),
        a.same(b),
    ensures
        b.same(a),
    decreases a,
{
    match a {
        Value::Array(x) => {
            let y = b->Array_0;
            assert forall|i: int| 0 <= i < y.len() implies (#[trigger] y[i]).same(x[i]) by {
                assert(x[i].same(y[i]));
                lemma_same_symmetric(x[i], y[i]);
            }
        },
        Value::Dict(x) => {
            let y = b->Dict_0;
            assert forall|j: int| 0 <= j < y.len() implies (#[trigger] y[j]).1.same(
                dict_get(x, y[j].0),
            ) by {
                let k = y[j].0;
                lemma_dict_entry(y, j);
                assert(dict_keys(y).to_set().contains(k));
                assert(dict_keys(x).to_set().contains(k));
                lemma_dict_position(x, k);
                let i = dict_position(x, k);
                assert(x[i].1.same(dict_get(y, x[i].0)));
                lemma_same_symmetric(x[i].1, y[j].1);
            }
        },
        _ => {},
    }
}

/// If one value is the same as a second and the second the same as a third, the first is
/// the same as the third.
pub proof fn lemma_same_transitive(a: Value, b: Value, c: Value)
    requires
        a.wf(),
        b.wf(),
        c.wf(),
        a.same(b),
        b.same(c),
    ensures
        a.same(c),
    decreases a,
{
    match a {
        Value::Array(x) => {
            let y = b->Array_0;
            let z = c->Array_0;
            assert forall|i: int| 0 <= i < x.len() implies (#[trigger] x[i]).same(z[i]) by {
                assert(x[i].same(y[i]));
                assert(y[i].same(z[i]));
                lemma_same_transitive(x[i], y[i], z[i]);
            }
        },
        Value::Dict(x) => {
            let y = b->Dict_0;
            let z = c->Dict_0;
            assert forall|i: int| 0 <= i < x.len() implies (#[trigger] x[i]).1.same(
                dict_get(z, x[i].0),
            ) by {
                let k = x[i].0;
                lemma_dict_entry(x, i);
                assert(dict_keys(x).to_set().contains(k));
                assert(dict_keys(y).to_set().contains(k));
                assert(dict_keys(z).to_set().contains(k));
                lemma_dict_position(y, k);
                lemma_dict_position(z, k);
                let j = dict_position(y, k);
                assert(y[j].1.same(dict_get(z, y[j].0)));
                lemma_same_transitive(x[i].1, y[j].1, dict_get(z, k));
            }
        },
        _ => {},
    }
}

/// Arrays are compared in order: two arrays are the same exactly if they are equally long
/// and have the same item at each place.
pub proof fn lemma_same_arrays(a: Seq<Value>, b: Seq<Value>)
    ensures
        Value::Array(a).same(Value::Array(b)) <==> (a.len() == b.len() && forall|i: int|
            0 <= i < a.len() ==> (#[trigger] a[i]).same(b[i])),
{
}

/// Dictionaries are compared by key: two dictionaries are the same exactly if they have the
/// same keys and under each key the same value.
pub proof fn lemma_same_dicts(a: Seq<(Seq<u8>, Value)>, b: Seq<(Seq<u8>, Value)>)
    requires
        Value::Dict(a).wf(),
        Value::Dict(b).wf(),
    ensures
        Value::Dict(a).same(Value::Dict(b)) <==> ((forall|k: Seq<u8>|
            dict_has(a, k) <==> dict_has(b, k)) && (forall|k: Seq<u8>| #[trigger]
            dict_has(a, k) ==> dict_get(a, k).same(dict_get(b, k)))),
{
    if Value::Dict(a).same(Value::Dict(b)) {
        assert forall|k: Seq<u8>| dict_has(a, k) <==> dict_has(b, k) by {
            assert(dict_keys(a).to_set().contains(k) == dict_keys(b).to_set().contains(k));
        }
        assert forall|k: Seq<u8>| #[trigger] dict_has(a, k) implies dict_get(a, k).same(
            dict_get(b, k),
        ) by {
            lemma_dict_position(a, k);
            let i = dict_position(a, k);
            assert(a[i].1.same(dict_get(b, a[i].0)));
        }
    }
    if (forall|k: Seq<u8>| dict_has(a, k) <==> dict_has(b, k)) && (forall|k: Seq<u8>| #[trigger]
        dict_has(a, k) ==> dict_get(a, k).same(dict_get(b, k))) {
        assert(dict_keys(a).to_set() =~= dict_keys(b).to_set()) by {
            assert forall|k: Seq<u8>| dict_keys(a).to_set().contains(k) == dict_keys(
                b,
            ).to_set().contains(k) by {
                assert(dict_has(a, k) <==> dict_has(b, k));
            }
        }
        assert forall|i: int| 0 <= i < a.len() implies (#[trigger] a[i]).1.same(
            dict_get(b, a[i].0),
        ) by {
            lemma_dict_entry(a, i);
        }
    }
}

/// The order of the entries of a dictionary does not count: a dictionary is the same as any
/// dictionary with the same entries in another order.
pub proof fn lemma_same_rearranged(a: Seq<(Seq<u8>, Value)>, b: Seq<(Seq<u8>, Value)>)
    requires
        Value::Dict(a).wf(),
        Value::Dict(b).wf(),
        a.to_set() == b.to_set(),
    ensures
        Value::Dict(a).same(Value::Dict(b)),
{
    assert(dict_keys(a).to_set() =~= dict_keys(b).to_set()) by {
        assert forall|k: Seq<u8>| dict_keys(a).to_set().contains(k) implies dict_keys(
            b,
        ).to_set().contains(k) by {
            lemma_dict_position(a, k);
            let e = a[dict_position(a, k)];
            assert(a.to_set().contains(e));
            assert(b.contains(e));
            let j = choose|j: int| 0 <= j < b.len() && b[j] == e;
            assert(dict_keys(b)[j] == k);
        }
        assert forall|k: Seq<u8>| dict_keys(b).to_set().contains(k) implies dict_keys(
            a,
        ).to_set().contains(k) by {
            lemma_dict_position(b, k);
            let e = b[dict_position(b, k)];
            assert(b.to_set().contains(e));
            assert(a.contains(e));
            let j = choose|j: int| 0 <= j < a.len() && a[j] == e;
            assert(dict_keys(a)[j] == k);
        }
    }
    assert forall|i: int| 0 <= i < a.len() implies (#[trigger] a[i]).1.same(
        dict_get(b, a[i].0),
    ) by {
        assert(a.to_set().contains(a[i]));
        assert(b.contains(a[i]));
        let j = choose|j: int| 0 <= j < b.len() && b[j] == a[i];
        lemma_dict_entry(b, j);
        lemma_same_reflexive(a[i].1);
    }
}

} // verus!
