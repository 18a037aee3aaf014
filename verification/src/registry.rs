//! The registry: the one owner of a plugin's parameter tree.
//!
//! A registry is a tree whose keys are all different. It lists the
//! parameters in host order, finds one by its key, and assigns values;
//! after construction nothing but values ever changes.

use vstd::prelude::*;
use crate::error::PluginError;
use crate::group::{lemma_flatten_lists_every_declaration, listing_of, ParameterGroup};
use crate::key::same_key;
use crate::listing::{all_wf, declares, keys_distinct, occurrences, position, same_declarations};
use crate::listing::{lemma_distinct_keys_occur_once, lemma_first_is_position};
use crate::listing::lemma_position_is_first;
use crate::parameter::{DescriptorView, ParameterDescriptor};

verus! {

/// A plugin's parameters, owned in one place.
///
/// Everything a registry hands out is borrowed from it, so nothing outlives
/// it and no parameter exists twice.
#[derive(Debug)]
pub struct ParameterRegistry {
    root: ParameterGroup,
    count: usize,
}

impl View for ParameterRegistry {
    type V = Seq<DescriptorView>;

    /// The parameters in host order.
    open spec fn view(&self) -> Seq<DescriptorView> {
        self.root().flat()
    }
}

impl ParameterRegistry {
    /// The tree that the registry owns.
    pub closed spec fn root(self) -> ParameterGroup {
        self.root
    }

    /// A registry is well formed when no key occurs twice in it and every
    /// parameter is well formed.
    pub open spec fn wf(self) -> bool {
        &&& keys_distinct(self@)
        &&& all_wf(self@)
    }

    /// The number of parameters that the registry keeps at hand.
    pub closed spec fn counted(self) -> nat {
        self.count as nat
    }

    /// Holds of every registry there is: it is well formed, and it knows how
    /// many parameters it has.
    #[verifier::type_invariant]
    pub open spec fn well_formed(self) -> bool {
        &&& self.wf()
        &&& self.counted() == self@.len()
    }

    /// Takes ownership of `root` as the plugin's parameter tree.
    ///
    /// Fails with [`PluginError::DuplicateParameterKey`] when two parameters
    /// of the tree, at any depth, carry the same key.
    pub fn new(root: ParameterGroup) -> (outcome: Result<ParameterRegistry, PluginError>)
        ensures
            keys_distinct(root.flat()) ==> outcome is Ok && outcome->Ok_0.root() == root
                && outcome->Ok_0.wf(),
            !keys_distinct(root.flat()) ==> outcome is Err && outcome->Err_0
                == PluginError::DuplicateParameterKey,
    {
        let list = root.flatten();
        let count: usize = list.len();
        let distinct = keys_are_distinct(&list);
        if distinct {
            Ok(ParameterRegistry { root, count })
        } else {
            Err(PluginError::DuplicateParameterKey)
        }
    }

    /// How many parameters there are.
    pub fn len(&self) -> (count: usize)
        ensures
            count == self@.len(),
            self.wf(),
    {
        proof {
            use_type_invariant(self);
        }
        self.count
    }

    /// The parameters in host order. This order is the automation index
    /// order, whatever the nesting of groups; every call gives the same
    /// list.
    pub fn flattened_parameters(&self) -> (list: Vec<&ParameterDescriptor>)
        ensures
            listing_of(list@) == self@,
            self.wf(),
    {
        proof {
            use_type_invariant(self);
        }
        self.root.flatten()
    }

    /// The parameter that carries `key`.
    ///
    /// Fails with [`PluginError::ParameterNotFound`] when there is none.
    pub fn lookup(&self, key: &str) -> (outcome: Result<&ParameterDescriptor, PluginError>)
        ensures
            declares(self@, key@) ==> outcome is Ok && outcome->Ok_0@ == self@[position(
                self@,
                key@,
            )],
            !declares(self@, key@) ==> outcome is Err && outcome->Err_0
                == PluginError::ParameterNotFound,
    {
        match self.root.find(key) {
            Some(d) => Ok(d),
            None => Err(PluginError::ParameterNotFound),
        }
    }

    /// The automation index of the parameter that carries `key`.
    ///
    /// Fails with [`PluginError::ParameterNotFound`] when there is none.
    pub fn index_of(&self, key: &str) -> (outcome: Result<usize, PluginError>)
        ensures
            declares(self@, key@) ==> outcome is Ok && outcome->Ok_0 == position(self@, key@),
            !declares(self@, key@) ==> outcome is Err && outcome->Err_0
                == PluginError::ParameterNotFound,
    {
        let list = self.root.flatten();
        let mut i: usize = 0;
        while i < list.len()
            invariant
                i <= list.len(),
                listing_of(list@) == self@,
                forall|j: int| 0 <= j < i ==> (#[trigger] self@[j]).key != key@,
            decreases list.len() - i,
        {
            if same_key(list[i].key(), key) {
                proof {
                    lemma_first_is_position(self@, key@, i as int);
                }
                return Ok(i);
            }
            i += 1;
        }
        proof {
            lemma_first_is_position(self@, key@, i as int);
        }
        Err(PluginError::ParameterNotFound)
    }

    /// The parameter at automation index `index`, if there are that many.
    pub fn parameter_at(&self, index: usize) -> (found: Option<&ParameterDescriptor>)
        ensures
            index < self@.len() ==> found is Some && found->Some_0@ == self@[index as int],
            index >= self@.len() ==> found is None,
    {
        let list = self.root.flatten();
        if index < list.len() {
            Some(list[index])
        } else {
            None
        }
    }

    /// The value of the parameter that carries `key`.
    ///
    /// Fails with [`PluginError::ParameterNotFound`] when there is none.
    pub fn value(&self, key: &str) -> (outcome: Result<i32, PluginError>)
        ensures
            declares(self@, key@) ==> outcome is Ok && outcome->Ok_0 == self@[position(
                self@,
                key@,
            )].value,
            !declares(self@, key@) ==> outcome is Err && outcome->Err_0
                == PluginError::ParameterNotFound,
    {
        match self.lookup(key) {
            Ok(d) => Ok(d.value()),
            Err(e) => Err(e),
        }
    }

    /// Assigns `value`, clamped to its range, to the parameter that carries
    /// `key`. Every other parameter keeps its value, and the tree keeps its
    /// structure.
    ///
    /// Fails with [`PluginError::ParameterNotFound`], and changes nothing,
    /// when no parameter carries `key`.
    pub fn set_value(&mut self, key: &str, value: i32) -> (outcome: Result<(), PluginError>)
        ensures
            declares(old(self)@, key@) ==> outcome is Ok && final(self)@ == old(self)@.update(
                position(old(self)@, key@),
                old(self)@[position(old(self)@, key@)].assigned(value),
            ),
            !declares(old(self)@, key@) ==> outcome is Err && outcome->Err_0
                == PluginError::ParameterNotFound && final(self)@ == old(self)@,
            old(self).root().same_structure(final(self).root()),
            same_declarations(old(self)@, final(self)@),
            final(self).wf(),
    {
        proof {
            use_type_invariant(&*self);
        }
        // The tree is written to outside the registry, so that the registry
        // is whole at every moment.
        let mut taken = ParameterRegistry { root: ParameterGroup::new(""), count: 0 };
        std::mem::swap(self, &mut taken);
        let ParameterRegistry { mut root, count } = taken;
        let found = root.assign(key, value);
        proof {
            if found {
                lemma_assignment_keeps_registry(old(self)@, key@, value);
            }
        }
        *self = ParameterRegistry { root, count };
        if found {
            Ok(())
        } else {
            Err(PluginError::ParameterNotFound)
        }
    }
}

/// Whether the keys of `list` are all different.
fn keys_are_distinct(list: &Vec<&ParameterDescriptor>) -> (distinct: bool)
    ensures
        distinct == keys_distinct(listing_of(list@)),
{
    let ghost flat = listing_of(list@);
    let mut j: usize = 0;
    while j < list.len()
        invariant
            j <= list.len(),
            flat == listing_of(list@),
            forall|a: int, b: int| 0 <= a < b < j ==> flat[a].key != flat[b].key,
        decreases list.len() - j,
    {
        let mut i: usize = 0;
        while i < j
            invariant
                i <= j < list.len(),
                flat == listing_of(list@),
                forall|a: int| 0 <= a < i ==> (#[trigger] flat[a]).key != flat[j as int].key,
            decreases j - i,
        {
            assert(flat[i as int] == list@[i as int]@);
            if same_key(list[i].key(), list[j].key()) {
                return false;
            }
            i += 1;
        }
        j += 1;
    }
    true
}

/// Assigning a value to the parameter under a key keeps a listing's keys
/// distinct and its parameters well formed, and leaves every declaration as
/// it was.
pub proof fn lemma_assignment_keeps_registry(flat: Seq<DescriptorView>, key: Seq<char>, value: i32)
    requires
        keys_distinct(flat),
        all_wf(flat),
        declares(flat, key),
    ensures
        keys_distinct(flat.update(position(flat, key), flat[position(flat, key)].assigned(value))),
        all_wf(flat.update(position(flat, key), flat[position(flat, key)].assigned(value))),
        same_declarations(
            flat,
            flat.update(position(flat, key), flat[position(flat, key)].assigned(value)),
        ),
{
    lemma_position_is_first(flat, key);
    let at: int = position(flat, key);
    let after = flat.update(at, flat[at].assigned(value));
    assert forall|i: int| 0 <= i < flat.len() implies (#[trigger] after[i]).same_declaration(
        flat[i],
    ) && after[i].wf() by {}
    assert forall|i: int, j: int| 0 <= i < j < after.len() implies after[i].key
        != after[j].key by {}
}

/// A well-formed registry lists every parameter of its tree, and every key
/// exactly once: a key that the tree declares is declared there once and
/// occurs in the listing once, and no other key occurs in it.
pub proof fn lemma_registry_lists_each_key_once(registry: ParameterRegistry, key: Seq<char>)
    requires
        registry.wf(),
    ensures
        registry@.len() == registry.root().count(),
        registry.root().declarations(key) <= 1,
        occurrences(registry@, key) == registry.root().declarations(key),
        declares(registry@, key) <==> registry.root().declarations(key) == 1,
{
    lemma_flatten_lists_every_declaration(registry.root(), key);
    lemma_distinct_keys_occur_once(registry@, key);
}

/// In a well-formed registry, the entry that the listing holds under a key
/// is the one that lookup finds: a key's position is the one index whose
/// entry carries it. A key that no entry carries is not declared.
pub proof fn lemma_lookup_agrees_with_listing(registry: ParameterRegistry, key: Seq<char>, i: int)
    requires
        registry.wf(),
        0 <= i < registry@.len(),
    ensures
        registry@[i].key == key ==> declares(registry@, key) && position(registry@, key) == i,
        declares(registry@, key) ==> registry@[position(registry@, key)].key == key,
        (forall|j: int| 0 <= j < registry@.len() ==> (#[trigger] registry@[j]).key != key)
            ==> !declares(registry@, key),
{
    lemma_position_is_first(registry@, key);
}

} // verus!
