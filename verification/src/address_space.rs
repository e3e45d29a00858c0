use vstd::prelude::*;
use crate::node_id::{
    NodeId, NodeIdView, QualifiedName, QualifiedNameView, ns0_node, node_id_set, lemma_node_id_set_push,
    contains_node_id,
};
use crate::browse_path::{PathStep, PathStepView, reference_type_matches, reference_type_check};
use crate::status::StatusCode;
use crate::status::NodeClass;
use crate::reference_type::HAS_TYPE_DEFINITION;

verus! {

/// A node of the address space.
#[derive(Debug)]
pub struct Node {
    pub node_id: NodeId,
    pub node_class: NodeClass,
    pub browse_name: QualifiedName,
    /// The encoded attributes the node was created from (empty when none were given).
    pub attributes: Vec<u8>,
}

pub struct NodeView {
    pub node_id: NodeIdView,
    pub node_class: NodeClass,
    pub browse_name: QualifiedNameView,
    pub attributes: Seq<u8>,
}

impl View for Node {
    type V = NodeView;

    open spec fn view(&self) -> NodeView {
        NodeView {
            node_id: self.node_id@,
            node_class: self.node_class,
            browse_name: self.browse_name@,
            attributes: self.attributes@,
        }
    }
}

/// A directed, typed reference from a source node to a target node.
#[derive(Debug)]
pub struct Reference {
    pub source: NodeId,
    pub target: NodeId,
    pub reference_type: NodeId,
}

pub struct ReferenceView {
    pub source: NodeIdView,
    pub target: NodeIdView,
    pub reference_type: NodeIdView,
}

impl View for Reference {
    type V = ReferenceView;

    open spec fn view(&self) -> ReferenceView {
        ReferenceView {
            source: self.source@,
            target: self.target@,
            reference_type: self.reference_type@,
        }
    }
}

impl Reference {
    fn duplicate(&self) -> (r: Reference)
        ensures
            r@ == self@,
    {
        Reference {
            source: self.source.duplicate(),
            target: self.target.duplicate(),
            reference_type: self.reference_type.duplicate(),
        }
    }
}

/// The direction of a reference relative to the node being inserted.
#[derive(Debug, Clone, Copy, PartialEq, Eq, Structural)]
pub enum ReferenceDirection {
    Forward,
    Inverse,
}

/// A reference to create together with a new node: towards `node` when
/// `Forward`, from `node` when `Inverse`.
#[derive(Debug)]
pub struct NodeLink {
    pub node: NodeId,
    pub reference_type: NodeId,
    pub direction: ReferenceDirection,
}

pub struct NodeLinkView {
    pub node: NodeIdView,
    pub reference_type: NodeIdView,
    pub direction: ReferenceDirection,
}

impl View for NodeLink {
    type V = NodeLinkView;

    open spec fn view(&self) -> NodeLinkView {
        NodeLinkView { node: self.node@, reference_type: self.reference_type@, direction: self.direction }
    }
}

/// The reference that `link` denotes for the node `id`.
pub open spec fn link_reference(id: NodeIdView, link: NodeLinkView) -> ReferenceView {
    match link.direction {
        ReferenceDirection::Forward => ReferenceView {
            source: id,
            target: link.node,
            reference_type: link.reference_type,
        },
        ReferenceDirection::Inverse => ReferenceView {
            source: link.node,
            target: id,
            reference_type: link.reference_type,
        },
    }
}

/// The references that `links` denote for the node `id`.
pub open spec fn link_references(id: NodeIdView, links: Seq<NodeLink>) -> Set<ReferenceView> {
    Set::new(|r: ReferenceView| exists|i: int| 0 <= i < links.len() && link_reference(id, links[i]@) == r)
}

/// The address space: a set of nodes, each with a distinct node id, and a set of references.
pub struct AddressSpace {
    nodes: Vec<Node>,
    references: Vec<Reference>,
}

/// The mathematical value of an address space.
pub struct AddressSpaceView {
    pub nodes: Map<NodeIdView, NodeView>,
    pub references: Set<ReferenceView>,
}

pub closed spec fn has_id(s: Seq<Node>, id: NodeIdView) -> bool {
    exists|i: int| 0 <= i < s.len() && s[i]@.node_id == id
}

pub closed spec fn distinct_ids(s: Seq<Node>) -> bool {
    forall|i: int, j: int| 0 <= i < s.len() && 0 <= j < s.len() && i != j ==> s[i]@.node_id != s[j]@.node_id
}

pub closed spec fn nodes_map(s: Seq<Node>) -> Map<NodeIdView, NodeView> {
    Map::new(
        |id: NodeIdView| has_id(s, id),
        |id: NodeIdView| s[choose|i: int| 0 <= i < s.len() && s[i]@.node_id == id]@,
    )
}

pub closed spec fn refs_set(s: Seq<Reference>) -> Set<ReferenceView> {
    Set::new(|r: ReferenceView| exists|i: int| 0 <= i < s.len() && s[i]@ == r)
}

proof fn lemma_map_at(s: Seq<Node>, i: int)
    requires
        distinct_ids(s),
        0 <= i < s.len(),
    ensures
        nodes_map(s).dom().contains(s[i]@.node_id),
        nodes_map(s)[s[i]@.node_id] == s[i]@,
{
    let id = s[i]@.node_id;
    assert(has_id(s, id));
    let j = choose|j: int| 0 <= j < s.len() && s[j]@.node_id == id;
    assert(j == i);
}

proof fn lemma_map_push(s: Seq<Node>, n: Node)
    requires
        distinct_ids(s),
        !has_id(s, n@.node_id),
    ensures
        distinct_ids(s.push(n)),
        nodes_map(s.push(n)) == nodes_map(s).insert(n@.node_id, n@),
{
    let t = s.push(n);
    assert(distinct_ids(t)) by {
        assert forall|i: int, j: int|
            0 <= i < t.len() && 0 <= j < t.len() && i != j implies t[i]@.node_id != t[j]@.node_id by {
            if i == s.len() as int {
                assert(!(0 <= j < s.len() && s[j]@.node_id == n@.node_id));
            } else if j == s.len() as int {
                assert(!(0 <= i < s.len() && s[i]@.node_id == n@.node_id));
            }
        }
    }
    let m = nodes_map(s).insert(n@.node_id, n@);
    assert forall|id: NodeIdView| #[trigger] nodes_map(t).dom().contains(id) == m.dom().contains(id) by {
        if has_id(t, id) && id != n@.node_id {
            let k = choose|k: int| 0 <= k < t.len() && t[k]@.node_id == id;
            assert(s[k]@.node_id == id);
        }
        if has_id(s, id) {
            let k = choose|k: int| 0 <= k < s.len() && s[k]@.node_id == id;
            assert(t[k]@.node_id == id);
        }
        if id == n@.node_id {
            assert(t[s.len() as int]@.node_id == id);
        }
    }
    assert forall|id: NodeIdView| #[trigger] m.dom().contains(id) implies nodes_map(t)[id] == m[id] by {
        if id == n@.node_id {
            lemma_map_at(t, s.len() as int);
        } else {
            let k = choose|k: int| 0 <= k < s.len() && s[k]@.node_id == id;
            lemma_map_at(s, k);
            assert(t[k] == s[k]);
            lemma_map_at(t, k);
        }
    }
    assert(nodes_map(t) =~= m);
}

proof fn lemma_map_remove(s: Seq<Node>, k: int)
    requires
        distinct_ids(s),
        0 <= k < s.len(),
    ensures
        distinct_ids(s.remove(k)),
        nodes_map(s.remove(k)) == nodes_map(s).remove(s[k]@.node_id),
{
    let t = s.remove(k);
    let gone = s[k]@.node_id;
    assert forall|i: int| 0 <= i < t.len() implies #[trigger] t[i] == (if i < k { s[i] } else { s[i + 1] }) by {}
    assert(distinct_ids(t)) by {
        assert forall|i: int, j: int|
            0 <= i < t.len() && 0 <= j < t.len() && i != j implies t[i]@.node_id != t[j]@.node_id by {
            let ii = if i < k { i } else { i + 1 };
            let jj = if j < k { j } else { j + 1 };
            assert(t[i] == s[ii]);
            assert(t[j] == s[jj]);
        }
    }
    let m = nodes_map(s).remove(gone);
    assert forall|id: NodeIdView| #[trigger] nodes_map(t).dom().contains(id) == m.dom().contains(id) by {
        if has_id(t, id) {
            let i = choose|i: int| 0 <= i < t.len() && t[i]@.node_id == id;
            let ii = if i < k { i } else { i + 1 };
            assert(t[i] == s[ii]);
            assert(s[ii]@.node_id == id);
            assert(ii != k);
        }
        if has_id(s, id) && id != gone {
            let i = choose|i: int| 0 <= i < s.len() && s[i]@.node_id == id;
            assert(i != k);
            let ti = if i < k { i } else { i - 1 };
            assert(t[ti] == s[i]);
        }
    }
    assert forall|id: NodeIdView| #[trigger] m.dom().contains(id) implies nodes_map(t)[id] == m[id] by {
        let i = choose|i: int| 0 <= i < s.len() && s[i]@.node_id == id;
        assert(i != k);
        let ti = if i < k { i } else { i - 1 };
        assert(t[ti] == s[i]);
        lemma_map_at(s, i);
        lemma_map_at(t, ti);
    }
    assert(nodes_map(t) =~= m);
}

proof fn lemma_refs_push(s: Seq<Reference>, r: Reference)
    ensures
        refs_set(s.push(r)) == refs_set(s).insert(r@),
{
    let t = s.push(r);
    assert forall|x: ReferenceView| #[trigger] refs_set(t).contains(x) == refs_set(s).insert(r@).contains(x) by {
        if refs_set(t).contains(x) {
            let i = choose|i: int| 0 <= i < t.len() && t[i]@ == x;
            if i < s.len() {
                assert(s[i]@ == x);
            }
        }
        if refs_set(s).contains(x) {
            let i = choose|i: int| 0 <= i < s.len() && s[i]@ == x;
            assert(t[i]@ == x);
        }
        if x == r@ {
            assert(t[s.len() as int]@ == x);
        }
    }
    assert(refs_set(t) =~= refs_set(s).insert(r@));
}

proof fn lemma_refs_take_step(s: Seq<Reference>, i: int)
    requires
        0 <= i < s.len(),
    ensures
        refs_set(s.take(i + 1)) == refs_set(s.take(i)).insert(s[i]@),
{
    assert(s.take(i + 1) =~= s.take(i).push(s[i]));
    lemma_refs_push(s.take(i), s[i]);
}

impl View for AddressSpace {
    type V = AddressSpaceView;

    closed spec fn view(&self) -> AddressSpaceView {
        AddressSpaceView { nodes: nodes_map(self.nodes@), references: refs_set(self.references@) }
    }
}

impl AddressSpaceView {
    /// Whether `type_definition` is a valid type definition for a new node of class `class`:
    /// objects need an existing object type, variables an existing variable type, and
    /// the other classes must not give one (it must be null).
    pub open spec fn valid_type_definition(self, class: NodeClass, type_definition: NodeIdView) -> bool {
        match class {
            NodeClass::Object => !type_definition.is_null() && self.nodes.dom().contains(type_definition)
                && self.nodes[type_definition].node_class == NodeClass::ObjectType,
            NodeClass::Variable => !type_definition.is_null() && self.nodes.dom().contains(type_definition)
                && self.nodes[type_definition].node_class == NodeClass::VariableType,
            _ => type_definition.is_null(),
        }
    }

    /// The references that remain when the node `id` is deleted: those from it always go,
    /// those to it go when `delete_target_references` holds.
    pub open spec fn references_without(self, id: NodeIdView, delete_target_references: bool) -> Set<ReferenceView> {
        self.references.filter(|r: ReferenceView| r.source != id && (!delete_target_references || r.target != id))
    }
}

/// Whether following the reference `r` as the step `step` leads from `from` to `to`.
pub open spec fn reference_leads(r: ReferenceView, from: NodeIdView, to: NodeIdView, step: PathStepView) -> bool {
    &&& reference_type_matches(r.reference_type, step.reference_type, step.include_subtypes)
    &&& if step.is_inverse {
        r.source == to && r.target == from
    } else {
        r.source == from && r.target == to
    }
}

/// Whether the reference `x`, followed as `step` from a node of `from_set`, yields the
/// existing node `to` whose browse name is the step's target name.
pub open spec fn ref_yields(
    sv: AddressSpaceView,
    from_set: Set<NodeIdView>,
    x: ReferenceView,
    step: PathStepView,
    to: NodeIdView,
) -> bool {
    let from = if step.is_inverse { x.target } else { x.source };
    &&& from_set.contains(from)
    &&& reference_leads(x, from, to, step)
    &&& sv.nodes.dom().contains(to)
    &&& sv.nodes[to].browse_name == step.target_name
}

/// The views of a sequence of path steps.
pub open spec fn step_views(steps: Seq<PathStep>) -> Seq<PathStepView> {
    steps.map_values(|s: PathStep| s@)
}

impl AddressSpaceView {
    /// Whether the step `step` leads from node `from` to the existing node `to`, whose
    /// browse name is the step's target name.
    pub open spec fn step_reaches(self, from: NodeIdView, to: NodeIdView, step: PathStepView) -> bool {
        &&& self.nodes.dom().contains(to)
        &&& self.nodes[to].browse_name == step.target_name
        &&& exists|r: ReferenceView| #[trigger] self.references.contains(r) && reference_leads(r, from, to, step)
    }

    /// The nodes that the step leads to from any node of `from`.
    pub open spec fn step_targets(self, from: Set<NodeIdView>, step: PathStepView) -> Set<NodeIdView> {
        Set::new(|to: NodeIdView| exists|f: NodeIdView| from.contains(f) && self.step_reaches(f, to, step))
    }

    /// The nodes that the relative path `steps` leads to from `start`.
    pub open spec fn path_targets(self, start: NodeIdView, steps: Seq<PathStepView>) -> Set<NodeIdView>
        decreases steps.len(),
    {
        if steps.len() == 0 {
            set![start]
        } else {
            self.step_targets(self.path_targets(start, steps.drop_last()), steps.last())
        }
    }
}

impl AddressSpace {
    /// The well-formedness of an address space: no two nodes share a node id.
    #[verifier::type_invariant]
    spec fn wf(self) -> bool {
        distinct_ids(self.nodes@)
    }

    /// An empty address space.
    pub fn new() -> (r: AddressSpace)
        ensures
            r@.nodes == Map::<NodeIdView, NodeView>::empty(),
            r@.references == Set::<ReferenceView>::empty(),
    {
        let r = AddressSpace { nodes: Vec::new(), references: Vec::new() };
        assert(nodes_map(r.nodes@) =~= Map::<NodeIdView, NodeView>::empty());
        assert(refs_set(r.references@) =~= Set::<ReferenceView>::empty());
        r
    }

    fn index_of(&self, node_id: &NodeId) -> (r: Option<usize>)
        ensures
            match r {
                Some(i) => i < self.nodes@.len() && self.nodes@[i as int]@.node_id == node_id@,
                None => !has_id(self.nodes@, node_id@),
            },
    {
        let mut i: usize = 0;
        while i < self.nodes.len()
            invariant
                0 <= i <= self.nodes@.len(),
                forall|j: int| 0 <= j < i ==> self.nodes@[j]@.node_id != node_id@,
            decreases self.nodes@.len() - i,
        {
            if self.nodes[i].node_id.same_as(node_id) {
                return Some(i);
            }
            i += 1;
        }
        None
    }

    /// Whether a node with this node id exists.
    pub fn node_exists(&self, node_id: &NodeId) -> (r: bool)
        ensures
            r == self@.nodes.dom().contains(node_id@),
    {
        self.index_of(node_id).is_some()
    }

    /// The node with this node id, if there is one.
    pub fn find_node(&self, node_id: &NodeId) -> (r: Option<&Node>)
        ensures
            match r {
                Some(n) => self@.nodes.dom().contains(node_id@) && self@.nodes[node_id@] == n@,
                None => !self@.nodes.dom().contains(node_id@),
            },
    {
        proof {
            use_type_invariant(self);
        }
        match self.index_of(node_id) {
            Some(i) => {
                proof {
                    lemma_map_at(self.nodes@, i as int);
                }
                Some(&self.nodes[i])
            },
            None => None,
        }
    }

    /// Whether the reference from `source` to `target` of type `reference_type` exists.
    pub fn has_reference(&self, source: &NodeId, target: &NodeId, reference_type: &NodeId) -> (r: bool)
        ensures
            r == self@.references.contains(
                ReferenceView { source: source@, target: target@, reference_type: reference_type@ },
            ),
    {
        let ghost want = ReferenceView { source: source@, target: target@, reference_type: reference_type@ };
        let mut i: usize = 0;
        while i < self.references.len()
            invariant
                0 <= i <= self.references@.len(),
                want == (ReferenceView { source: source@, target: target@, reference_type: reference_type@ }),
                forall|j: int| 0 <= j < i ==> self.references@[j]@ != want,
            decreases self.references@.len() - i,
        {
            let x = &self.references[i];
            if x.source.same_as(source) && x.target.same_as(target) && x.reference_type.same_as(reference_type) {
                assert(self.references@[i as int]@ == want);
                return true;
            }
            i += 1;
        }
        proof {
            if refs_set(self.references@).contains(want) {
                let k = choose|k: int| 0 <= k < self.references@.len() && self.references@[k]@ == want;
                assert(self.references@[k]@ == want);
            }
        }
        false
    }

    /// Adds the reference from `source` to `target` of type `reference_type`, unless it is there.
    pub fn insert_reference(&mut self, source: &NodeId, target: &NodeId, reference_type: &NodeId)
        ensures
            final(self)@.nodes == old(self)@.nodes,
            final(self)@.references == old(self)@.references.insert(
                ReferenceView { source: source@, target: target@, reference_type: reference_type@ },
            ),
    {
        proof {
            use_type_invariant(&*self);
        }
        let ghost want = ReferenceView { source: source@, target: target@, reference_type: reference_type@ };
        if self.has_reference(source, target, reference_type) {
            assert(refs_set(self.references@).insert(want) =~= refs_set(self.references@));
        } else {
            let r = Reference {
                source: source.duplicate(),
                target: target.duplicate(),
                reference_type: reference_type.duplicate(),
            };
            proof {
                lemma_refs_push(self.references@, r);
            }
            let mut references = Vec::new();
            std::mem::swap(&mut references, &mut self.references);
            references.push(r);
            self.references = references;
        }
    }

    /// Removes the reference from `source` to `target` of type `reference_type`; tells
    /// whether it was there.
    pub fn delete_reference(&mut self, source: &NodeId, target: &NodeId, reference_type: &NodeId) -> (r: bool)
        ensures
            final(self)@.nodes == old(self)@.nodes,
            r == old(self)@.references.contains(
                ReferenceView { source: source@, target: target@, reference_type: reference_type@ },
            ),
            final(self)@.references == old(self)@.references.remove(
                ReferenceView { source: source@, target: target@, reference_type: reference_type@ },
            ),
    {
        proof {
            use_type_invariant(&*self);
        }
        let ghost want = ReferenceView { source: source@, target: target@, reference_type: reference_type@ };
        let ghost all = self.references@;
        let mut kept: Vec<Reference> = Vec::new();
        let mut found = false;
        let mut i: usize = 0;
        assert(all.take(0) =~= Seq::<Reference>::empty());
        assert(refs_set(kept@) =~= refs_set(all.take(0)).remove(want));
        assert(!refs_set(all.take(0)).contains(want));
        while i < self.references.len()
            invariant
                0 <= i <= all.len(),
                self.references@ == all,
                want == (ReferenceView { source: source@, target: target@, reference_type: reference_type@ }),
                refs_set(kept@) == refs_set(all.take(i as int)).remove(want),
                found == refs_set(all.take(i as int)).contains(want),
            decreases all.len() - i,
        {
            let x = &self.references[i];
            proof {
                lemma_refs_take_step(all, i as int);
            }
            if x.source.same_as(source) && x.target.same_as(target) && x.reference_type.same_as(reference_type) {
                found = true;
                assert(refs_set(all.take(i + 1)).remove(want) =~= refs_set(all.take(i as int)).remove(want));
            } else {
                let d = x.duplicate();
                proof {
                    lemma_refs_push(kept@, d);
                }
                kept.push(d);
                assert(refs_set(kept@) =~= refs_set(all.take(i + 1)).remove(want));
            }
            i += 1;
        }
        assert(all.take(all.len() as int) =~= all);
        self.references = kept;
        found
    }

    /// Deletes the node `node_id` and the references from it, and, when
    /// `delete_target_references` holds, the references to it; tells whether the node was there.
    pub fn delete_node(&mut self, node_id: &NodeId, delete_target_references: bool) -> (r: bool)
        ensures
            r == old(self)@.nodes.dom().contains(node_id@),
            final(self)@.nodes == old(self)@.nodes.remove(node_id@),
            final(self)@.references == old(self)@.references_without(node_id@, delete_target_references),
    {
        proof {
            use_type_invariant(&*self);
        }
        let found = match self.index_of(node_id) {
            Some(k) => {
                proof {
                    lemma_map_remove(self.nodes@, k as int);
                }
                let mut nodes = Vec::new();
                std::mem::swap(&mut nodes, &mut self.nodes);
                nodes.remove(k);
                self.nodes = nodes;
                true
            },
            None => {
                assert(nodes_map(self.nodes@).remove(node_id@) =~= nodes_map(self.nodes@));
                false
            },
        };
        let ghost all = self.references@;
        let ghost keep = |x: ReferenceView| x.source != node_id@ && (!delete_target_references || x.target != node_id@);
        let mut kept: Vec<Reference> = Vec::new();
        let mut i: usize = 0;
        assert(all.take(0) =~= Seq::<Reference>::empty());
        assert(refs_set(kept@) =~= refs_set(all.take(0)).filter(keep));
        while i < self.references.len()
            invariant
                0 <= i <= all.len(),
                self.references@ == all,
                keep == (|x: ReferenceView| x.source != node_id@ && (!delete_target_references || x.target != node_id@)),
                refs_set(kept@) == refs_set(all.take(i as int)).filter(keep),
            decreases all.len() - i,
        {
            let x = &self.references[i];
            proof {
                lemma_refs_take_step(all, i as int);
            }
            let drop = x.source.same_as(node_id) || (delete_target_references && x.target.same_as(node_id));
            if drop {
                assert(refs_set(all.take(i + 1)).filter(keep) =~= refs_set(all.take(i as int)).filter(keep));
            } else {
                let d = x.duplicate();
                proof {
                    lemma_refs_push(kept@, d);
                }
                kept.push(d);
                assert(refs_set(kept@) =~= refs_set(all.take(i + 1)).filter(keep));
            }
            i += 1;
        }
        assert(all.take(all.len() as int) =~= all);
        self.references = kept;
        found
    }

    /// Inserts `node` with the references that `links` denote, unless a node with its
    /// node id exists, in which case nothing changes; tells whether it was inserted.
    pub fn insert(&mut self, node: Node, links: &Vec<NodeLink>) -> (r: bool)
        ensures
            r == !old(self)@.nodes.dom().contains(node@.node_id),
            r ==> final(self)@.nodes == old(self)@.nodes.insert(node@.node_id, node@),
            r ==> final(self)@.references == old(self)@.references.union(link_references(node@.node_id, links@)),
            !r ==> final(self)@ == old(self)@,
    {
        if self.node_exists(&node.node_id) {
            return false;
        }
        let ghost id = node@.node_id;
        let ghost refs0 = self@.references;
        let node_id = node.node_id.duplicate();
        proof {
            use_type_invariant(&*self);
            lemma_map_push(self.nodes@, node);
        }
        let mut nodes = Vec::new();
        std::mem::swap(&mut nodes, &mut self.nodes);
        nodes.push(node);
        self.nodes = nodes;
        let mut i: usize = 0;
        assert(refs0.union(link_references(id, links@.take(0))) =~= refs0);
        while i < links.len()
            invariant
                0 <= i <= links@.len(),
                node_id@ == id,
                self@.references == refs0.union(link_references(id, links@.take(i as int))),
                self@.nodes == old(self)@.nodes.insert(id, node@),
            decreases links@.len() - i,
        {
            let link = &links[i];
            let ghost before = self@.references;
            match link.direction {
                ReferenceDirection::Forward => self.insert_reference(&node_id, &link.node, &link.reference_type),
                ReferenceDirection::Inverse => self.insert_reference(&link.node, &node_id, &link.reference_type),
            }
            assert(link_references(id, links@.take(i + 1)) =~= link_references(id, links@.take(i as int)).insert(
                link_reference(id, links@[i as int]@),
            )) by {
                let a = links@.take(i + 1);
                let b = links@.take(i as int);
                assert forall|x: ReferenceView| link_references(id, a).contains(x) implies
                    link_references(id, b).insert(link_reference(id, links@[i as int]@)).contains(x) by {
                    let k = choose|k: int| 0 <= k < a.len() && link_reference(id, a[k]@) == x;
                    if k < i {
                        assert(b[k] == a[k]);
                    }
                }
                assert forall|x: ReferenceView| link_references(id, b).contains(x) implies
                    link_references(id, a).contains(x) by {
                    let k = choose|k: int| 0 <= k < b.len() && link_reference(id, b[k]@) == x;
                    assert(a[k] == b[k]);
                }
                assert(a[i as int] == links@[i as int]);
            }
            assert(self@.references =~= refs0.union(link_references(id, links@.take(i + 1))));
            i += 1;
        }
        assert(links@.take(links@.len() as int) =~= links@);
        true
    }

    /// Gives the node `node_id` the type definition `type_id` (a `HasTypeDefinition` reference).
    pub fn set_node_type(&mut self, node_id: &NodeId, type_id: &NodeId)
        ensures
            final(self)@.nodes == old(self)@.nodes,
            final(self)@.references == old(self)@.references.insert(
                ReferenceView { source: node_id@, target: type_id@, reference_type: ns0_node(HAS_TYPE_DEFINITION) },
            ),
    {
        let rt = NodeId::numeric(0, HAS_TYPE_DEFINITION);
        self.insert_reference(node_id, type_id, &rt);
    }

    /// Whether `type_definition` is a valid type definition for a new node of class `node_class`.
    pub fn is_valid_type_definition(&self, node_class: NodeClass, type_definition: &NodeId) -> (r: bool)
        ensures
            r == self@.valid_type_definition(node_class, type_definition@),
    {
        match node_class {
            NodeClass::Object | NodeClass::Variable => {
                if type_definition.is_null() {
                    false
                } else {
                    let wanted = if let NodeClass::Object = node_class { NodeClass::ObjectType } else { NodeClass::VariableType };
                    match self.find_node(type_definition) {
                        Some(n) => n.node_class == wanted,
                        None => false,
                    }
                }
            },
            _ => type_definition.is_null(),
        }
    }

    /// The nodes that one step leads to from the nodes of `frontier`.
    fn follow_step(&self, frontier: &Vec<NodeId>, step: &PathStep) -> (r: Vec<NodeId>)
        ensures
            node_id_set(r@) == self@.step_targets(node_id_set(frontier@), step@),
    {
        let ghost fr = node_id_set(frontier@);
        let ghost refs = self.references@;
        let ghost sv = self@;
        let mut out: Vec<NodeId> = Vec::new();
        let mut i: usize = 0;
        assert(node_id_set(out@) =~= Set::new(
            |to: NodeIdView| exists|j: int| 0 <= j < 0 && #[trigger] ref_yields(sv, fr, refs[j]@, step@, to),
        ));
        while i < self.references.len()
            invariant
                0 <= i <= refs.len(),
                self.references@ == refs,
                sv == self@,
                fr == node_id_set(frontier@),
                node_id_set(out@) == Set::new(
                    |to: NodeIdView| exists|j: int| 0 <= j < i && #[trigger] ref_yields(sv, fr, refs[j]@, step@, to),
                ),
            decreases refs.len() - i,
        {
            let ghost before = Set::new(
                |to: NodeIdView| exists|j: int| 0 <= j < i && #[trigger] ref_yields(sv, fr, refs[j]@, step@, to),
            );
            let ghost after = Set::new(
                |to: NodeIdView| exists|j: int| 0 <= j < i + 1 && #[trigger] ref_yields(sv, fr, refs[j]@, step@, to),
            );
            let x = &self.references[i];
            let (from, to) = if step.is_inverse { (&x.target, &x.source) } else { (&x.source, &x.target) };
            let mut hit = false;
            if reference_type_check(&x.reference_type, &step.reference_type, step.include_subtypes) {
                if contains_node_id(frontier, from) {
                    match self.find_node(to) {
                        Some(n) => {
                            if n.browse_name.same_as(&step.target_name) {
                                hit = true;
                            }
                        },
                        None => {},
                    }
                }
            }
            assert(hit == ref_yields(sv, fr, refs[i as int]@, step@, to@));
            if hit && !contains_node_id(&out, to) {
                let d = to.duplicate();
                proof {
                    lemma_node_id_set_push(out@, d);
                }
                out.push(d);
            }
            assert(node_id_set(out@) =~= after) by {
                assert forall|t: NodeIdView| after.contains(t) implies node_id_set(out@).contains(t) by {
                    let j = choose|j: int| 0 <= j < i + 1 && #[trigger] ref_yields(sv, fr, refs[j]@, step@, t);
                    if j < i {
                        assert(before.contains(t));
                    }
                }
                assert forall|t: NodeIdView| node_id_set(out@).contains(t) implies after.contains(t) by {
                    if before.contains(t) {
                        let j = choose|j: int| 0 <= j < i && #[trigger] ref_yields(sv, fr, refs[j]@, step@, t);
                        assert(0 <= j < i + 1 && ref_yields(sv, fr, refs[j]@, step@, t));
                    } else {
                        assert(ref_yields(sv, fr, refs[i as int]@, step@, t));
                    }
                }
            }
            i += 1;
        }
        let ghost got = Set::new(
            |to: NodeIdView| exists|j: int| 0 <= j < refs.len() && #[trigger] ref_yields(sv, fr, refs[j]@, step@, to),
        );
        let ghost want = sv.step_targets(fr, step@);
        assert(got =~= want) by {
            assert forall|t: NodeIdView| got.contains(t) implies want.contains(t) by {
                let j = choose|j: int| 0 <= j < refs.len() && #[trigger] ref_yields(sv, fr, refs[j]@, step@, t);
                let x = refs[j]@;
                let f = if step@.is_inverse { x.target } else { x.source };
                assert(refs_set(refs).contains(x));
                assert(sv.references.contains(x) && reference_leads(x, f, t, step@));
                assert(sv.step_reaches(f, t, step@));
            }
            assert forall|t: NodeIdView| want.contains(t) implies got.contains(t) by {
                let f = choose|f: NodeIdView| fr.contains(f) && sv.step_reaches(f, t, step@);
                let x = choose|x: ReferenceView| #[trigger] sv.references.contains(x) && reference_leads(x, f, t, step@);
                let j = choose|j: int| 0 <= j < refs.len() && refs[j]@ == x;
                assert(ref_yields(sv, fr, refs[j]@, step@, t));
            }
        }
        out
    }

    /// The nodes that the relative path `steps` leads to from `start`; fails when
    /// `start` is not a node of the address space.
    pub fn find_nodes_relative_path(&self, start: &NodeId, steps: &Vec<PathStep>) -> (r: Result<Vec<NodeId>, StatusCode>)
        ensures
            match r {
                Ok(v) => self@.nodes.dom().contains(start@)
                    && node_id_set(v@) == self@.path_targets(start@, step_views(steps@)),
                Err(e) => !self@.nodes.dom().contains(start@) && e == StatusCode::BadNodeIdUnknown,
            },
    {
        if !self.node_exists(start) {
            return Err(StatusCode::BadNodeIdUnknown);
        }
        let ghost views = step_views(steps@);
        let mut frontier: Vec<NodeId> = Vec::new();
        let first = start.duplicate();
        proof {
            lemma_node_id_set_push(frontier@, first);
        }
        frontier.push(first);
        assert(node_id_set(frontier@) =~= set![start@]);
        assert(views.take(0) =~= Seq::<PathStepView>::empty());
        let mut k: usize = 0;
        while k < steps.len()
            invariant
                0 <= k <= steps@.len(),
                views == step_views(steps@),
                node_id_set(frontier@) == self@.path_targets(start@, views.take(k as int)),
            decreases steps@.len() - k,
        {
            frontier = self.follow_step(&frontier, &steps[k]);
            assert(views.take(k + 1).drop_last() =~= views.take(k as int));
            assert(views.take(k + 1).last() == steps@[k as int]@);
            k += 1;
        }
        assert(views.take(steps@.len() as int) =~= views);
        Ok(frontier)
    }
}

} // verus!
