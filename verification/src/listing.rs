//! The flat listing: the parameters of a tree in the order hosts see them.
//!
//! A listing is a sequence of descriptions. A parameter's place in it is its
//! automation index; its key tells where that is.

use vstd::prelude::*;
use crate::parameter::DescriptorView;

verus! {

/// The index of the first entry of `flat` that carries `key`, or the length
/// of `flat` if none does.
pub open spec fn position(flat: Seq<DescriptorView>, key: Seq<char>) -> int
    decreases flat.len(),
{
    if flat.len() == 0 {
        0
    } else if flat[0].key == key {
        0
    } else {
        1 + position(flat.drop_first(), key)
    }
}

/// Whether some entry of `flat` carries `key`.
pub open spec fn declares(flat: Seq<DescriptorView>, key: Seq<char>) -> bool {
    position(flat, key) < flat.len()
}

/// How many entries of `flat` carry `key`.
pub open spec fn occurrences(flat: Seq<DescriptorView>, key: Seq<char>) -> nat
    decreases flat.len(),
{
    if flat.len() == 0 {
        0
    } else {
        occurrences(flat.drop_last(), key) + if flat.last().key == key {
            1nat
        } else {
            0nat
        }
    }
}

/// No two entries of `flat` carry the same key.
pub open spec fn keys_distinct(flat: Seq<DescriptorView>) -> bool {
    forall|i: int, j: int| 0 <= i < j < flat.len() ==> flat[i].key != flat[j].key
}

/// Every entry of `flat` is well formed.
pub open spec fn all_wf(flat: Seq<DescriptorView>) -> bool {
    forall|i: int| 0 <= i < flat.len() ==> (#[trigger] flat[i]).wf()
}

/// `after` lists the same parameters as `before`, in the same order;
/// only values may differ.
pub open spec fn same_declarations(before: Seq<DescriptorView>, after: Seq<DescriptorView>) -> bool {
    &&& before.len() == after.len()
    &&& forall|i: int| 0 <= i < before.len() ==> (#[trigger] after[i]).same_declaration(before[i])
}

/// `position` is the least index that carries the key: no entry before it
/// does, and unless it is the length of the listing, the entry there does.
pub proof fn lemma_position_is_first(flat: Seq<DescriptorView>, key: Seq<char>)
    ensures
        0 <= position(flat, key) <= flat.len(),
        forall|j: int| 0 <= j < position(flat, key) ==> (#[trigger] flat[j]).key != key,
        declares(flat, key) ==> flat[position(flat, key)].key == key,
    decreases flat.len(),
{
    if flat.len() > 0 && flat[0].key != key {
        let rest = flat.drop_first();
        lemma_position_is_first(rest, key);
        assert forall|j: int| 0 <= j < position(flat, key) implies (#[trigger] flat[j]).key
            != key by {
            if j > 0 {
                assert(rest[j - 1] == flat[j]);
            }
        }
    }
}

/// An index that carries the key, with no entry before it that does, is the
/// key's position; so is the length of a listing in which no entry does.
pub proof fn lemma_first_is_position(flat: Seq<DescriptorView>, key: Seq<char>, i: int)
    requires
        0 <= i <= flat.len(),
        forall|j: int| 0 <= j < i ==> (#[trigger] flat[j]).key != key,
        i < flat.len() ==> flat[i].key == key,
    ensures
        position(flat, key) == i,
{
    lemma_position_is_first(flat, key);
}

/// A listing declares a key exactly when one of its entries carries it.
pub proof fn lemma_declares_iff_some_entry(flat: Seq<DescriptorView>, key: Seq<char>)
    ensures
        declares(flat, key) <==> exists|i: int| 0 <= i < flat.len() && (#[trigger] flat[i]).key == key,
{
    lemma_position_is_first(flat, key);
}

/// In two listings laid end to end, a key is found in the first if the first
/// declares it, and otherwise where the second has it, shifted by the length
/// of the first.
pub proof fn lemma_position_concat(a: Seq<DescriptorView>, b: Seq<DescriptorView>, key: Seq<char>)
    ensures
        declares(a + b, key) <==> declares(a, key) || declares(b, key),
        position(a + b, key) == if declares(a, key) {
            position(a, key)
        } else {
            a.len() + position(b, key)
        },
{
    lemma_position_is_first(a, key);
    lemma_position_is_first(b, key);
    let at: int = if declares(a, key) {
        position(a, key)
    } else {
        a.len() + position(b, key)
    };
    lemma_first_is_position(a + b, key, at);
}

/// The occurrences of a key in two listings laid end to end are those in the
/// first plus those in the second.
pub proof fn lemma_occurrences_concat(a: Seq<DescriptorView>, b: Seq<DescriptorView>, key: Seq<char>)
    ensures
        occurrences(a + b, key) == occurrences(a, key) + occurrences(b, key),
    decreases b.len(),
{
    if b.len() > 0 {
        assert((a + b).drop_last() =~= a + b.drop_last());
        lemma_occurrences_concat(a, b.drop_last(), key);
    }
}

/// A key occurs in a listing exactly when the listing declares it.
pub proof fn lemma_occurs_iff_declared(flat: Seq<DescriptorView>, key: Seq<char>)
    ensures
        occurrences(flat, key) > 0 <==> declares(flat, key),
    decreases flat.len(),
{
    lemma_declares_iff_some_entry(flat, key);
    if flat.len() > 0 {
        let front = flat.drop_last();
        lemma_occurs_iff_declared(front, key);
        lemma_declares_iff_some_entry(front, key);
        if declares(flat, key) {
            let i: int = choose|i: int| 0 <= i < flat.len() && (#[trigger] flat[i]).key == key;
            if i < front.len() {
                assert(front[i].key == key);
            }
        }
    }
}

/// In a listing with distinct keys, every declared key occurs exactly once,
/// and only at its position.
pub proof fn lemma_distinct_keys_occur_once(flat: Seq<DescriptorView>, key: Seq<char>)
    requires
        keys_distinct(flat),
    ensures
        occurrences(flat, key) == if declares(flat, key) {
            1nat
        } else {
            0nat
        },
        forall|i: int| 0 <= i < flat.len() && (#[trigger] flat[i]).key == key ==> i == position(flat, key),
    decreases flat.len(),
{
    lemma_position_is_first(flat, key);
    lemma_occurs_iff_declared(flat, key);
    if flat.len() > 0 {
        let front = flat.drop_last();
        assert(keys_distinct(front)) by {
            assert forall|i: int, j: int| 0 <= i < j < front.len() implies front[i].key
                != front[j].key by {
                assert(front[i] == flat[i] && front[j] == flat[j]);
            }
        }
        lemma_distinct_keys_occur_once(front, key);
        lemma_declares_iff_some_entry(front, key);
    }
}

} // verus!
