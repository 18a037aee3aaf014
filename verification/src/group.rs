//! The parameter tree: groups that hold parameters and further groups.
//!
//! Groups exist for the plugin author's convenience. What a host sees is the
//! flattening of the tree: every parameter once, in the order of declaration,
//! with the members of a nested group standing together where the group was
//! declared.

use vstd::prelude::*;
use crate::key::same_key;
use crate::listing::{all_wf, declares, occurrences, position};
use crate::listing::{lemma_first_is_position, lemma_occurrences_concat, lemma_position_concat};
use crate::listing::lemma_position_is_first;
use crate::parameter::{DescriptorView, ParameterDescriptor};

verus! {

/// A child of a group.
#[derive(Debug)]
pub enum ParameterNode {
    /// A single parameter.
    Parameter(ParameterDescriptor),
    /// A nested group.
    Group(ParameterGroup),
}

/// An ordered collection of parameters and nested groups.
#[derive(Debug)]
pub struct ParameterGroup {
    name: String,
    children: Vec<ParameterNode>,
}

/// The flattening of `nodes[from..to]`: the flattenings of those nodes, one
/// after the other.
pub open spec fn flatten_range(nodes: Seq<ParameterNode>, from: int, to: int) -> Seq<DescriptorView>
    decreases nodes, to - from,
{
    if 0 <= from < to <= nodes.len() {
        flatten_range(nodes, from, to - 1) + nodes[to - 1].flat()
    } else {
        Seq::empty()
    }
}

/// How many parameters `nodes[from..to]` declare.
pub open spec fn count_range(nodes: Seq<ParameterNode>, from: int, to: int) -> nat
    decreases nodes, to - from,
{
    if 0 <= from < to <= nodes.len() {
        count_range(nodes, from, to - 1) + nodes[to - 1].count()
    } else {
        0
    }
}

/// How many parameters declared in `nodes[from..to]` carry `key`.
pub open spec fn declarations_in_range(
    nodes: Seq<ParameterNode>,
    from: int,
    to: int,
    key: Seq<char>,
) -> nat
    decreases nodes, to - from,
{
    if 0 <= from < to <= nodes.len() {
        declarations_in_range(nodes, from, to - 1, key) + nodes[to - 1].declarations(key)
    } else {
        0
    }
}

impl ParameterNode {
    /// The parameters of this node in host order.
    pub open spec fn flat(self) -> Seq<DescriptorView>
        decreases self, 0nat,
    {
        match self {
            ParameterNode::Parameter(d) => seq![d@],
            ParameterNode::Group(g) => g.flat(),
        }
    }

    /// How many parameters this node declares.
    pub open spec fn count(self) -> nat
        decreases self, 0nat,
    {
        match self {
            ParameterNode::Parameter(_) => 1,
            ParameterNode::Group(g) => g.count(),
        }
    }

    /// How many parameters declared in this node carry `key`.
    pub open spec fn declarations(self, key: Seq<char>) -> nat
        decreases self, 0nat,
    {
        match self {
            ParameterNode::Parameter(d) => if d@.key == key {
                1
            } else {
                0
            },
            ParameterNode::Group(g) => g.declarations(key),
        }
    }

    /// Whether `other` is the same tree but for the values of its
    /// parameters.
    pub open spec fn same_structure(self, other: ParameterNode) -> bool
        decreases self, 0nat,
    {
        match self {
            ParameterNode::Parameter(d) => other matches ParameterNode::Parameter(e)
                && d@.same_declaration(e@),
            ParameterNode::Group(g) => other matches ParameterNode::Group(h) && g.same_structure(h),
        }
    }
}

impl ParameterGroup {
    /// The group's name.
    pub closed spec fn label(self) -> Seq<char> {
        self.name@
    }

    /// The group's children in the order they were added.
    pub closed spec fn nodes(self) -> Seq<ParameterNode> {
        self.children@
    }

    /// The parameters of this group in host order.
    pub open spec fn flat(self) -> Seq<DescriptorView>
        decreases self, 1nat,
    {
        flatten_range(self.nodes(), 0, self.nodes().len() as int)
    }

    /// How many parameters this group declares, at any depth.
    pub open spec fn count(self) -> nat
        decreases self, 1nat,
    {
        count_range(self.nodes(), 0, self.nodes().len() as int)
    }

    /// How many parameters declared in this group, at any depth, carry
    /// `key`.
    pub open spec fn declarations(self, key: Seq<char>) -> nat
        decreases self, 1nat,
    {
        declarations_in_range(self.nodes(), 0, self.nodes().len() as int, key)
    }

    /// Whether `other` is the same tree but for the values of its
    /// parameters.
    pub open spec fn same_structure(self, other: ParameterGroup) -> bool
        decreases self, 1nat,
    {
        &&& self.label() == other.label()
        &&& self.nodes().len() == other.nodes().len()
        &&& forall|i: int|
            0 <= i < self.nodes().len() ==> (#[trigger] self.nodes()[i]).same_structure(
                other.nodes()[i],
            )
    }
}

/// The descriptions of the parameters that `refs` points to.
pub open spec fn listing_of(refs: Seq<&ParameterDescriptor>) -> Seq<DescriptorView> {
    Seq::new(refs.len(), |i: int| refs[i]@)
}

impl ParameterGroup {
    /// An empty group called `name`.
    pub fn new(name: &str) -> (group: ParameterGroup)
        ensures
            group.label() == name@,
            group.nodes() == Seq::<ParameterNode>::empty(),
            group.flat() == Seq::<DescriptorView>::empty(),
    {
        ParameterGroup { name: name.to_owned(), children: Vec::new() }
    }

    /// The group's name.
    pub fn name(&self) -> (name: &str)
        ensures
            name@ == self.label(),
    {
        self.name.as_str()
    }

    /// Adds `descriptor` after everything the group already holds.
    pub fn push_parameter(&mut self, descriptor: ParameterDescriptor)
        ensures
            final(self).label() == old(self).label(),
            final(self).nodes() == old(self).nodes().push(ParameterNode::Parameter(descriptor)),
            final(self).flat() == old(self).flat().push(descriptor@),
    {
        self.children.push(ParameterNode::Parameter(descriptor));
        proof {
            lemma_flatten_push(old(self).nodes(), ParameterNode::Parameter(descriptor));
        }
    }

    /// Adds `group`, with all it holds, after everything this group already
    /// holds.
    pub fn push_group(&mut self, group: ParameterGroup)
        ensures
            final(self).label() == old(self).label(),
            final(self).nodes() == old(self).nodes().push(ParameterNode::Group(group)),
            final(self).flat() == old(self).flat() + group.flat(),
    {
        self.children.push(ParameterNode::Group(group));
        proof {
            lemma_flatten_push(old(self).nodes(), ParameterNode::Group(group));
        }
    }

    /// The parameters of the tree in host order: depth first, children in the
    /// order they were added, each nested group in the place where it was
    /// added. The tree is only read, so every call gives the same list.
    pub fn flatten(&self) -> (list: Vec<&ParameterDescriptor>)
        ensures
            listing_of(list@) == self.flat(),
            list@.len() == self.count(),
            all_wf(self.flat()),
    {
        let mut list: Vec<&ParameterDescriptor> = Vec::new();
        self.collect_into(&mut list);
        proof {
            lemma_range_flat_len(self.nodes(), 0, self.nodes().len() as int);
        }
        list
    }

    fn collect_into<'a>(&'a self, list: &mut Vec<&'a ParameterDescriptor>)
        ensures
            listing_of(final(list)@) == listing_of(old(list)@) + self.flat(),
            all_wf(self.flat()),
        decreases self,
    {
        let mut i: usize = 0;
        while i < self.children.len()
            invariant
                i <= self.children.len(),
                listing_of(list@) == listing_of(old(list)@) + flatten_range(
                    self.children@,
                    0,
                    i as int,
                ),
                all_wf(flatten_range(self.children@, 0, i as int)),
            decreases self.children.len() - i,
        {
            let ghost done = flatten_range(self.children@, 0, i as int);
            match &self.children[i] {
                ParameterNode::Parameter(d) => {
                    list.push(d);
                    proof {
                        use_type_invariant(d);
                    }
                },
                ParameterNode::Group(g) => {
                    g.collect_into(list);
                },
            }
            proof {
                let child = self.children@[i as int].flat();
                assert((listing_of(old(list)@) + done) + child =~= listing_of(old(list)@) + (done
                    + child));
                assert forall|j: int| 0 <= j < (done + child).len() implies (#[trigger] (done
                    + child)[j]).wf() by {
                    if j < done.len() {
                        assert((done + child)[j] == done[j]);
                    } else {
                        assert((done + child)[j] == child[j - done.len()]);
                    }
                }
            }
            i += 1;
        }
    }

    /// Assigns `value`, clamped, to the first parameter in host order that
    /// carries `key`, and tells whether there was one. Only that value
    /// changes: the tree keeps its structure, and every other parameter
    /// keeps its value.
    pub fn assign(&mut self, key: &str, value: i32) -> (found: bool)
        ensures
            found == declares(old(self).flat(), key@),
            found ==> final(self).flat() == old(self).flat().update(
                position(old(self).flat(), key@),
                old(self).flat()[position(old(self).flat(), key@)].assigned(value),
            ),
            !found ==> final(self).flat() == old(self).flat(),
            old(self).same_structure(*final(self)),
        decreases *old(self),
    {
        let mut i: usize = 0;
        while i < self.children.len()
            invariant
                i <= self.children.len(),
                self.name@ == old(self).name@,
                self.children@.len() == old(self).children@.len(),
                forall|j: int|
                    i <= j < self.children@.len() ==> self.children@[j] == old(self).children@[j],
                forall|j: int|
                    0 <= j < i ==> (#[trigger] self.children@[j]).flat() == old(
                        self,
                    ).children@[j].flat(),
                forall|j: int|
                    0 <= j < i ==> (#[trigger] old(self).children@[j]).same_structure(
                        self.children@[j],
                    ),
                !declares(flatten_range(old(self).children@, 0, i as int), key@),
            decreases self.children.len() - i,
        {
            let ghost child = self.children@[i as int];
            let found = match &mut self.children[i] {
                ParameterNode::Parameter(d) => {
                    proof {
                        lemma_first_is_position(seq![d@], key@, if d@.key == key@ { 0 } else { 1 });
                    }
                    if same_key(d.key(), key) {
                        d.set_value(value);
                        true
                    } else {
                        false
                    }
                },
                ParameterNode::Group(g) => g.assign(key, value),
            };
            proof {
                lemma_position_in_child(old(self).children@, i as int, key@);
                if found {
                    let at: int = position(child.flat(), key@);
                    lemma_position_is_first(child.flat(), key@);
                    assert(self.children@[i as int].flat() =~= child.flat().update(
                        at,
                        child.flat()[at].assigned(value),
                    ));
                    lemma_flatten_update(
                        old(self).children@,
                        self.children@,
                        i as int,
                        at,
                        child.flat()[at].assigned(value),
                    );
                    assert forall|j: int| 0 <= j < self.children@.len() implies (#[trigger] old(
                        self,
                    ).children@[j]).same_structure(self.children@[j]) by {
                        if j > i {
                            lemma_same_structure_reflexive(self.children@[j]);
                        }
                    }
                }
            }
            if found {
                return true;
            }
            i += 1;
        }
        proof {
            lemma_flatten_range_agrees(
                self.children@,
                old(self).children@,
                0,
                self.children@.len() as int,
            );
        }
        false
    }

    /// The first parameter in host order that carries `key`, if there is one.
    pub fn find(&self, key: &str) -> (found: Option<&ParameterDescriptor>)
        ensures
            match found {
                Some(d) => declares(self.flat(), key@) && d@ == self.flat()[position(
                    self.flat(),
                    key@,
                )],
                None => !declares(self.flat(), key@),
            },
        decreases self,
    {
        let mut i: usize = 0;
        while i < self.children.len()
            invariant
                i <= self.children.len(),
                !declares(flatten_range(self.children@, 0, i as int), key@),
            decreases self.children.len() - i,
        {
            let hit = match &self.children[i] {
                ParameterNode::Parameter(d) => {
                    proof {
                        lemma_first_is_position(seq![d@], key@, if d@.key == key@ { 0 } else { 1 });
                    }
                    if same_key(d.key(), key) {
                        Some(d)
                    } else {
                        None
                    }
                },
                ParameterNode::Group(g) => g.find(key),
            };
            proof {
                lemma_position_in_child(self.children@, i as int, key@);
            }
            match hit {
                Some(d) => {
                    return Some(d);
                },
                None => {},
            }
            i += 1;
        }
        None
    }
}

/// Adding a node to the end of a sequence of nodes adds its flattening to
/// the end of theirs.
pub proof fn lemma_flatten_push(nodes: Seq<ParameterNode>, node: ParameterNode)
    ensures
        flatten_range(nodes.push(node), 0, nodes.len() as int + 1) == flatten_range(
            nodes,
            0,
            nodes.len() as int,
        ) + node.flat(),
{
    lemma_flatten_range_agrees(nodes.push(node), nodes, 0, nodes.len() as int);
}

/// Changing one entry in the flattening of child `i` changes that entry, at
/// its place in the whole, and nothing else.
pub proof fn lemma_flatten_update(
    before: Seq<ParameterNode>,
    after: Seq<ParameterNode>,
    i: int,
    at: int,
    entry: DescriptorView,
)
    requires
        before.len() == after.len(),
        0 <= i < before.len(),
        0 <= at < before[i].flat().len(),
        after[i].flat() == before[i].flat().update(at, entry),
        forall|j: int|
            0 <= j < before.len() && j != i ==> (#[trigger] after[j]).flat() == before[j].flat(),
    ensures
        flatten_range(after, 0, after.len() as int) == flatten_range(
            before,
            0,
            before.len() as int,
        ).update(flatten_range(before, 0, i).len() + at, entry),
{
    let n: int = before.len() as int;
    lemma_flatten_range_split(before, 0, i, n);
    lemma_flatten_range_split(before, i, i + 1, n);
    lemma_flatten_range_single(before, i);
    lemma_flatten_range_split(after, 0, i, n);
    lemma_flatten_range_split(after, i, i + 1, n);
    lemma_flatten_range_single(after, i);
    lemma_flatten_range_agrees(after, before, 0, i);
    lemma_flatten_range_agrees(after, before, i + 1, n);
}

/// Where a key is found in a group, given that none of the children before
/// child `i` declares it: inside child `i` if that child declares it, and
/// otherwise not among the first `i + 1` children at all.
pub proof fn lemma_position_in_child(nodes: Seq<ParameterNode>, i: int, key: Seq<char>)
    requires
        0 <= i < nodes.len(),
        !declares(flatten_range(nodes, 0, i), key),
    ensures
        declares(flatten_range(nodes, 0, i + 1), key) == declares(nodes[i].flat(), key),
        declares(nodes[i].flat(), key) ==> {
            let whole = flatten_range(nodes, 0, nodes.len() as int);
            let at: int = flatten_range(nodes, 0, i).len() + position(nodes[i].flat(), key);
            &&& declares(whole, key)
            &&& position(whole, key) == at
            &&& whole[at] == nodes[i].flat()[position(nodes[i].flat(), key)]
        },
{
    let before = flatten_range(nodes, 0, i);
    let child = nodes[i].flat();
    let after = flatten_range(nodes, i + 1, nodes.len() as int);
    lemma_flatten_range_split(nodes, 0, i + 1, nodes.len() as int);
    lemma_position_concat(before, child, key);
    lemma_position_concat(before + child, after, key);
    lemma_position_is_first(child, key);
}

/// A range splits at any point inside it.
pub proof fn lemma_flatten_range_split(nodes: Seq<ParameterNode>, from: int, mid: int, to: int)
    requires
        0 <= from <= mid <= to <= nodes.len(),
    ensures
        flatten_range(nodes, from, to) == flatten_range(nodes, from, mid) + flatten_range(
            nodes,
            mid,
            to,
        ),
    decreases to - mid,
{
    if mid < to {
        lemma_flatten_range_split(nodes, from, mid, to - 1);
    }
}

/// A range of one node is that node's flattening.
pub proof fn lemma_flatten_range_single(nodes: Seq<ParameterNode>, i: int)
    requires
        0 <= i < nodes.len(),
    ensures
        flatten_range(nodes, i, i + 1) == nodes[i].flat(),
{
    assert(flatten_range(nodes, i, i) =~= Seq::<DescriptorView>::empty());
}

/// Ranges over nodes with equal flattenings are equal.
pub proof fn lemma_flatten_range_agrees(
    a: Seq<ParameterNode>,
    b: Seq<ParameterNode>,
    from: int,
    to: int,
)
    requires
        0 <= from <= to <= a.len(),
        to <= b.len(),
        forall|j: int| from <= j < to ==> (#[trigger] a[j]).flat() == b[j].flat(),
    ensures
        flatten_range(a, from, to) == flatten_range(b, from, to),
    decreases to - from,
{
    if from < to {
        lemma_flatten_range_agrees(a, b, from, to - 1);
    }
}

/// The flattening of a node has as many entries as the node declares
/// parameters.
pub proof fn lemma_node_flat_len(node: ParameterNode)
    ensures
        node.flat().len() == node.count(),
    decreases node, 0nat,
{
    match node {
        ParameterNode::Parameter(_) => {},
        ParameterNode::Group(g) => {
            lemma_range_flat_len(g.nodes(), 0, g.nodes().len() as int);
        },
    }
}

/// The flattening of a range has as many entries as its nodes declare
/// parameters.
pub proof fn lemma_range_flat_len(nodes: Seq<ParameterNode>, from: int, to: int)
    requires
        0 <= from <= to <= nodes.len(),
    ensures
        flatten_range(nodes, from, to).len() == count_range(nodes, from, to),
    decreases nodes, to - from,
{
    if from < to {
        lemma_range_flat_len(nodes, from, to - 1);
        lemma_node_flat_len(nodes[to - 1]);
    }
}

/// A key occurs in the flattening of a node as often as the node declares
/// it.
pub proof fn lemma_node_keeps_declarations(node: ParameterNode, key: Seq<char>)
    ensures
        occurrences(node.flat(), key) == node.declarations(key),
    decreases node, 0nat,
{
    match node {
        ParameterNode::Parameter(d) => {
            assert(occurrences(seq![d@].drop_last(), key) == 0);
        },
        ParameterNode::Group(g) => {
            lemma_range_keeps_declarations(g.nodes(), 0, g.nodes().len() as int, key);
        },
    }
}

/// A key occurs in the flattening of a range as often as the nodes of the
/// range declare it.
pub proof fn lemma_range_keeps_declarations(
    nodes: Seq<ParameterNode>,
    from: int,
    to: int,
    key: Seq<char>,
)
    requires
        0 <= from <= to <= nodes.len(),
    ensures
        occurrences(flatten_range(nodes, from, to), key) == declarations_in_range(
            nodes,
            from,
            to,
            key,
        ),
    decreases nodes, to - from,
{
    if from < to {
        lemma_range_keeps_declarations(nodes, from, to - 1, key);
        lemma_node_keeps_declarations(nodes[to - 1], key);
        lemma_occurrences_concat(flatten_range(nodes, from, to - 1), nodes[to - 1].flat(), key);
    }
}

/// Flattening loses nothing and invents nothing: the listing of a group has
/// one entry for each parameter that the group declares at any depth, and
/// every key occurs in it as often as the group declares it.
pub proof fn lemma_flatten_lists_every_declaration(group: ParameterGroup, key: Seq<char>)
    ensures
        group.flat().len() == group.count(),
        occurrences(group.flat(), key) == group.declarations(key),
{
    lemma_range_flat_len(group.nodes(), 0, group.nodes().len() as int);
    lemma_range_keeps_declarations(group.nodes(), 0, group.nodes().len() as int, key);
}

/// Flattening keeps the order of declaration: the parameters of child `i`
/// stand together in the listing of the group, in the child's own order,
/// right after the parameters of all the children before it.
pub proof fn lemma_flatten_splices_children(group: ParameterGroup, i: int)
    requires
        0 <= i < group.nodes().len(),
    ensures
        count_range(group.nodes(), 0, i) + group.nodes()[i].count() == count_range(
            group.nodes(),
            0,
            i + 1,
        ),
        count_range(group.nodes(), 0, i + 1) <= group.flat().len(),
        group.flat().subrange(
            count_range(group.nodes(), 0, i) as int,
            count_range(group.nodes(), 0, i + 1) as int,
        ) == group.nodes()[i].flat(),
{
    let nodes = group.nodes();
    let n: int = nodes.len() as int;
    lemma_flatten_range_split(nodes, 0, i, n);
    lemma_flatten_range_split(nodes, i, i + 1, n);
    lemma_flatten_range_single(nodes, i);
    lemma_range_flat_len(nodes, 0, i + 1);
    lemma_node_flat_len(nodes[i]);
}

/// The flattening of all of `nodes`.
pub open spec fn flatten_all(nodes: Seq<ParameterNode>) -> Seq<DescriptorView> {
    flatten_range(nodes, 0, nodes.len() as int)
}

/// A range of a part of a sequence is the matching range of the whole.
pub proof fn lemma_flatten_subrange(
    nodes: Seq<ParameterNode>,
    start: int,
    end: int,
    from: int,
    to: int,
)
    requires
        0 <= start <= end <= nodes.len(),
        0 <= from <= to <= end - start,
    ensures
        flatten_range(nodes.subrange(start, end), from, to) == flatten_range(
            nodes,
            start + from,
            start + to,
        ),
    decreases to - from,
{
    if from < to {
        lemma_flatten_subrange(nodes, start, end, from, to - 1);
    }
}

/// The flattening of two sequences of nodes laid end to end is the
/// flattening of the first followed by that of the second.
pub proof fn lemma_flatten_concat(a: Seq<ParameterNode>, b: Seq<ParameterNode>)
    ensures
        flatten_all(a + b) == flatten_all(a) + flatten_all(b),
{
    let whole = a + b;
    lemma_flatten_range_split(whole, 0, a.len() as int, whole.len() as int);
    assert(whole.subrange(0, a.len() as int) =~= a);
    assert(whole.subrange(a.len() as int, whole.len() as int) =~= b);
    lemma_flatten_subrange(whole, 0, a.len() as int, 0, a.len() as int);
    lemma_flatten_subrange(whole, a.len() as int, whole.len() as int, 0, b.len() as int);
}

/// Grouping is invisible to hosts: putting the children `from..to` of a
/// sequence of nodes into a group of their own, in the place where they
/// stood, leaves the flattening as it was.
pub proof fn lemma_grouping_is_invisible(
    nodes: Seq<ParameterNode>,
    inner: ParameterGroup,
    from: int,
    to: int,
)
    requires
        0 <= from <= to <= nodes.len(),
        inner.nodes() == nodes.subrange(from, to),
    ensures
        flatten_all(
            nodes.subrange(0, from).push(ParameterNode::Group(inner)) + nodes.subrange(
                to,
                nodes.len() as int,
            ),
        ) == flatten_all(nodes),
{
    let n: int = nodes.len() as int;
    let head = nodes.subrange(0, from);
    let tail = nodes.subrange(to, n);
    lemma_flatten_concat(head.push(ParameterNode::Group(inner)), tail);
    lemma_flatten_push(head, ParameterNode::Group(inner));
    lemma_flatten_subrange(nodes, 0, from, 0, from);
    lemma_flatten_subrange(nodes, from, to, 0, to - from);
    lemma_flatten_subrange(nodes, to, n, 0, n - to);
    lemma_flatten_range_split(nodes, 0, from, n);
    lemma_flatten_range_split(nodes, from, to, n);
}

/// Every tree has the structure it has.
pub proof fn lemma_same_structure_reflexive(node: ParameterNode)
    ensures
        node.same_structure(node),
    decreases node,
{
    match node {
        ParameterNode::Parameter(_) => {},
        ParameterNode::Group(g) => {
            assert forall|i: int| 0 <= i < g.nodes().len() implies (#[trigger] g.nodes()[i]).same_structure(
                g.nodes()[i],
            ) by {
                lemma_same_structure_reflexive(g.nodes()[i]);
            }
        },
    }
}

} // verus!
