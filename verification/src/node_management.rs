use vstd::prelude::*;
use crate::address_space::{
    AddressSpace, AddressSpaceView, Node, NodeLink, NodeView, ReferenceDirection, ReferenceView,
    link_references, link_reference, step_views,
};
use crate::attributes::{
    ExtensionObject, attributes_encoding, attributes_nesting_bounded, check_attributes_nesting, check_mask, decode_attributes, decoded_attributes, mask_accepted,
};
use crate::browse_path::{browse_name_path, browse_path_text, parsed_path};
use crate::node_id::{
    ExpandedNodeId, NodeId, NodeIdView, QualifiedName, QualifiedNameView, node_id_set, ns0_node,
    opt_bytes_view,
};
use crate::reference_type::HAS_TYPE_DEFINITION;
use crate::standard_ids::{
    OBJECT_ATTRIBUTES_ENCODING, VARIABLE_ATTRIBUTES_ENCODING, METHOD_ATTRIBUTES_ENCODING,
    OBJECT_TYPE_ATTRIBUTES_ENCODING, VARIABLE_TYPE_ATTRIBUTES_ENCODING, REFERENCE_TYPE_ATTRIBUTES_ENCODING,
    DATA_TYPE_ATTRIBUTES_ENCODING, VIEW_ATTRIBUTES_ENCODING, next_numeric_node_id, object_id_number, reference_type_id_of, reference_type_number,
};
use crate::status::{BAD_ENCODING_LIMITS_EXCEEDED, NodeClass, StatusCode};

verus! {

/// The namespace that generated node ids are drawn in.
pub const GENERATED_NODE_NAMESPACE: u16 = 1;

/// What the node management services read of a session: whether it may modify the
/// address space.
#[derive(Debug, Clone, Copy)]
pub struct Session {
    pub may_modify_address_space: bool,
}

impl Session {
    /// Whether the session may modify the address space.
    pub fn can_modify_address_space(&self) -> (r: bool)
        ensures
            r == self.may_modify_address_space,
    {
        self.may_modify_address_space
    }
}

/// What the node management services read of the server state: how many operations
/// one request may hold.
#[derive(Debug, Clone, Copy)]
pub struct ServerState {
    pub max_nodes_per_node_management: usize,
}

impl ServerState {
    /// The most operations that one node management request may hold.
    pub fn max_nodes_per_node_management(&self) -> (r: usize)
        ensures
            r == self.max_nodes_per_node_management,
    {
        self.max_nodes_per_node_management
    }
}

/// A request to add a node.
#[derive(Debug)]
pub struct AddNodesItem {
    pub parent_node_id: ExpandedNodeId,
    pub reference_type_id: NodeId,
    pub requested_new_node_id: ExpandedNodeId,
    pub browse_name: QualifiedName,
    pub node_class: NodeClass,
    pub node_attributes: ExtensionObject,
    pub type_definition: ExpandedNodeId,
}

/// The outcome of adding one node: a status and, on success, the new node's id
/// (the null node id otherwise).
#[derive(Debug)]
pub struct AddNodesResult {
    pub status_code: StatusCode,
    pub added_node_id: NodeId,
}

/// The attribute bytes that a node is built with from an extension object.
pub open spec fn body_bytes(attrs: ExtensionObject) -> Seq<u8> {
    match attrs.body {
        Some(b) => b@,
        None => Seq::empty(),
    }
}

/// What building a node of `class` from the extension object answers: `Ok` where the
/// object's node id is the numeric namespace-0 id of the encoding of the attribute
/// structure of `class`, its body decodes as that structure, and the decoded mask of
/// specified attributes is accepted. A body that does not decode answers with the
/// decoder's own status, and a variable's or variable type's body that nests deeper
/// than decoding is given answers `BadEncodingLimitsExceeded`; every other failure
/// answers `BadNodeAttributesInvalid`.
pub open spec fn create_node_result(class: NodeClass, attrs: ExtensionObject) -> Result<(), StatusCode> {
    match attributes_encoding(class) {
        None => Err(StatusCode::BadNodeAttributesInvalid),
        Some(k) => if attrs.node_id@.ns0_numeric() != Some(k) {
            Err(StatusCode::BadNodeAttributesInvalid)
        } else if !attributes_nesting_bounded(class, opt_bytes_view(attrs.body)) {
            Err(StatusCode::Other(BAD_ENCODING_LIMITS_EXCEEDED))
        } else {
            match decoded_attributes(class, opt_bytes_view(attrs.body)) {
                Err(bits) => Err(StatusCode::Other(bits)),
                Ok(mask) => if mask_accepted(class, mask) {
                    Ok(())
                } else {
                    Err(StatusCode::BadNodeAttributesInvalid)
                },
            }
        },
    }
}

/// Whether a node of `class` can be built from the extension object.
pub open spec fn create_node_accepts(class: NodeClass, attrs: ExtensionObject) -> bool {
    create_node_result(class, attrs) is Ok
}

/// Builds a node of `node_class` from its attributes, given as an extension object.
fn create_node(node_id: &NodeId, node_class: NodeClass, browse_name: QualifiedName, node_attributes: &ExtensionObject) -> (r: Result<Node, StatusCode>)
    ensures
        match r {
            Ok(n) => create_node_result(node_class, *node_attributes) == Ok::<(), StatusCode>(())
                && n@ == (NodeView {
                    node_id: node_id@,
                    node_class,
                    browse_name: browse_name@,
                    attributes: body_bytes(*node_attributes),
                }),
            Err(e) => create_node_result(node_class, *node_attributes) == Err::<(), StatusCode>(e),
        },
{
    let object_id = match object_id_number(&node_attributes.node_id) {
        Some(n) => n,
        None => {
            return Err(StatusCode::BadNodeAttributesInvalid);
        },
    };
    // The encoding of the attributes and the node class must be for the same thing.
    let expected: u32 = match node_class {
        NodeClass::Object => OBJECT_ATTRIBUTES_ENCODING,
        NodeClass::Variable => VARIABLE_ATTRIBUTES_ENCODING,
        NodeClass::Method => METHOD_ATTRIBUTES_ENCODING,
        NodeClass::ObjectType => OBJECT_TYPE_ATTRIBUTES_ENCODING,
        NodeClass::VariableType => VARIABLE_TYPE_ATTRIBUTES_ENCODING,
        NodeClass::ReferenceType => REFERENCE_TYPE_ATTRIBUTES_ENCODING,
        NodeClass::DataType => DATA_TYPE_ATTRIBUTES_ENCODING,
        NodeClass::View => VIEW_ATTRIBUTES_ENCODING,
        NodeClass::Unspecified => {
            return Err(StatusCode::BadNodeAttributesInvalid);
        },
    };
    if object_id != expected {
        return Err(StatusCode::BadNodeAttributesInvalid);
    }
    if !check_attributes_nesting(node_class, &node_attributes.body) {
        return Err(StatusCode::Other(BAD_ENCODING_LIMITS_EXCEEDED));
    }
    let mask = match decode_attributes(node_class, &node_attributes.body) {
        Ok(m) => m,
        Err(bits) => {
            return Err(StatusCode::Other(bits));
        },
    };
    if !check_mask(node_class, mask) {
        return Err(StatusCode::BadNodeAttributesInvalid);
    }
    let attributes = match &node_attributes.body {
        Some(b) => b.clone(),
        None => Vec::new(),
    };
    assert(attributes@ == body_bytes(*node_attributes));
    Ok(Node { node_id: node_id.duplicate(), node_class, browse_name, attributes })
}

/// Whether a browse name is unusable: null, or with an empty name.
pub open spec fn browse_name_invalid(name: QualifiedNameView) -> bool {
    name.is_null() || name.text().len() == 0
}

fn name_is_empty(name: &QualifiedName) -> (r: bool)
    ensures
        r == (name@.text().len() == 0),
{
    match &name.name {
        Some(s) => s.as_str().is_empty(),
        None => true,
    }
}

/// Whether a node under `parent` already has the browse name whose relative path is `steps`.
pub open spec fn browse_name_taken(space: AddressSpaceView, parent: NodeIdView, steps: Seq<crate::browse_path::PathStepView>) -> bool {
    space.nodes.dom().contains(parent) && exists|t: NodeIdView| space.path_targets(parent, steps).contains(t)
}

/// The status that adding `item` answers with in `space`, or `None` where the browse
/// name of the item forms a browse path that does not parse (the service stops there).
pub open spec fn add_node_status(space: AddressSpaceView, can_modify: bool, item: AddNodesItem) -> Option<StatusCode> {
    let requested = item.requested_new_node_id;
    let parent = item.parent_node_id;
    if !can_modify {
        Some(StatusCode::BadUserAccessDenied)
    } else if requested.server_index != 0 {
        Some(StatusCode::BadNodeIdRejected)
    } else if item.node_class == NodeClass::Unspecified {
        Some(StatusCode::BadNodeClassInvalid)
    } else if !requested.node_id@.is_null() && space.nodes.dom().contains(requested.node_id@) {
        Some(StatusCode::BadNodeIdExists)
    } else if browse_name_invalid(item.browse_name@) {
        Some(StatusCode::BadBrowseNameInvalid)
    } else if parsed_path(browse_path_text(item.browse_name@)) is None {
        None
    } else if browse_name_taken(space, parent.node_id@, parsed_path(browse_path_text(item.browse_name@))->0) {
        Some(StatusCode::BadBrowseNameDuplicated)
    } else if reference_type_id_of(item.reference_type_id@) is None {
        Some(StatusCode::BadReferenceTypeIdInvalid)
    } else if !space.valid_type_definition(item.node_class, item.type_definition.node_id@) {
        Some(StatusCode::BadTypeDefinitionInvalid)
    } else if !parent.server_index == 0 || !space.nodes.dom().contains(parent.node_id@) {
        Some(StatusCode::BadParentNodeIdInvalid)
    } else if !create_node_accepts(item.node_class, item.node_attributes) {
        Some(StatusCode::BadNodeAttributesInvalid)
    } else {
        Some(StatusCode::Good)
    }
}

/// Whether `id` is a node id that adding `item` may give the new node: the requested
/// one, or, where none is requested, a generated numeric one.
pub open spec fn new_node_id_fits(item: AddNodesItem, id: NodeIdView) -> bool {
    if item.requested_new_node_id.node_id@.is_null() {
        id.namespace == GENERATED_NODE_NAMESPACE && id.identifier is Numeric
    } else {
        id == item.requested_new_node_id.node_id@
    }
}

/// The address space after `item` is added as the node `new_id`: the node and its
/// reference to the parent (unless a node with that id exists), and, for objects and
/// variables, its type definition reference.
pub open spec fn add_node_effect(space: AddressSpaceView, item: AddNodesItem, new_id: NodeIdView) -> AddressSpaceView {
    let node = NodeView {
        node_id: new_id,
        node_class: item.node_class,
        browse_name: item.browse_name@,
        attributes: body_bytes(item.node_attributes),
    };
    let parent_ref = ReferenceView {
        source: new_id,
        target: item.parent_node_id.node_id@,
        reference_type: ns0_node(reference_type_id_of(item.reference_type_id@)->0),
    };
    let inserted = if space.nodes.dom().contains(new_id) {
        space
    } else {
        AddressSpaceView { nodes: space.nodes.insert(new_id, node), references: space.references.insert(parent_ref) }
    };
    if item.node_class == NodeClass::Object || item.node_class == NodeClass::Variable {
        AddressSpaceView {
            nodes: inserted.nodes,
            references: inserted.references.insert(ReferenceView {
                source: new_id,
                target: item.type_definition.node_id@,
                reference_type: ns0_node(HAS_TYPE_DEFINITION),
            }),
        }
    } else {
        inserted
    }
}

/// Whether `result` is what adding `item` to `before` answers, leading to `after`.
pub open spec fn add_node_outcome(
    before: AddressSpaceView,
    can_modify: bool,
    item: AddNodesItem,
    result: AddNodesResult,
    after: AddressSpaceView,
) -> bool {
    &&& add_node_status(before, can_modify, item) == Some(result.status_code)
    &&& if result.status_code == StatusCode::Good {
        &&& new_node_id_fits(item, result.added_node_id@)
        &&& after == add_node_effect(before, item, result.added_node_id@)
    } else {
        &&& result.added_node_id@.is_null()
        &&& after == before
    }
}

fn failed(status_code: StatusCode) -> (r: Option<AddNodesResult>)
    ensures
        r matches Some(res) && res.status_code == status_code && res.added_node_id@.is_null(),
{
    Some(AddNodesResult { status_code, added_node_id: NodeId::null() })
}

proof fn lemma_nonempty(v: Seq<NodeId>)
    ensures
        (v.len() > 0) == (exists|t: NodeIdView| node_id_set(v).contains(t)),
{
    if v.len() > 0 {
        assert(node_id_set(v).contains(v[0]@));
    }
    if exists|t: NodeIdView| node_id_set(v).contains(t) {
        let t = choose|t: NodeIdView| node_id_set(v).contains(t);
        let i = choose|i: int| 0 <= i < v.len() && v[i]@ == t;
    }
}

/// Adds one node; `None` where the item's browse name forms a browse path that does
/// not parse.
fn add_node(session: &Session, address_space: &mut AddressSpace, item: &AddNodesItem) -> (r: Option<AddNodesResult>)
    ensures
        match r {
            Some(res) => add_node_outcome(
                old(address_space)@,
                session.may_modify_address_space,
                *item,
                res,
                final(address_space)@,
            ),
            None => add_node_status(old(address_space)@, session.may_modify_address_space, *item) is None
                && final(address_space)@ == old(address_space)@,
        },
{
    if !session.can_modify_address_space() {
        // No permission to modify address space
        return failed(StatusCode::BadUserAccessDenied);
    }
    let requested_new_node_id = &item.requested_new_node_id;
    if requested_new_node_id.server_index != 0 {
        // Server index is supposed to be 0
        return failed(StatusCode::BadNodeIdRejected);
    }
    if item.node_class == NodeClass::Unspecified {
        return failed(StatusCode::BadNodeClassInvalid);
    }
    if !requested_new_node_id.is_null() {
        if address_space.node_exists(&requested_new_node_id.node_id) {
            // If a node id is supplied, it should not already exist
            return failed(StatusCode::BadNodeIdExists);
        }
    }
    // Test for invalid browse name
    if item.browse_name.is_null() || name_is_empty(&item.browse_name) {
        return failed(StatusCode::BadBrowseNameInvalid);
    }
    // Test duplicate browse name to same parent
    let steps = match browse_name_path(&item.browse_name) {
        Some(s) => s,
        None => {
            return None;
        },
    };
    assert(step_views(steps@) == parsed_path(browse_path_text(item.browse_name@))->0);
    match address_space.find_nodes_relative_path(&item.parent_node_id.node_id, &steps) {
        Ok(nodes) => {
            proof {
                lemma_nonempty(nodes@);
            }
            if nodes.len() > 0 {
                return failed(StatusCode::BadBrowseNameDuplicated);
            }
        },
        Err(_) => {},
    }
    match reference_type_number(&item.reference_type_id) {
        Some(reference_type_id) => {
            // Node Id was either supplied or will be generated
            let new_node_id = if requested_new_node_id.is_null() {
                next_numeric_node_id(GENERATED_NODE_NAMESPACE)
            } else {
                requested_new_node_id.node_id.duplicate()
            };
            // Check the type definition is valid
            if !address_space.is_valid_type_definition(item.node_class, &item.type_definition.node_id) {
                return failed(StatusCode::BadTypeDefinitionInvalid);
            }
            // Check that the parent node exists
            if !item.parent_node_id.server_index == 0 || !address_space.node_exists(&item.parent_node_id.node_id) {
                return failed(StatusCode::BadParentNodeIdInvalid);
            }
            match create_node(&new_node_id, item.node_class, item.browse_name.duplicate(), &item.node_attributes) {
                Ok(node) => {
                    let ghost before = address_space@;
                    let ghost node_view = node@;
                    let links = vec![
                        NodeLink {
                            node: item.parent_node_id.node_id.duplicate(),
                            reference_type: NodeId::numeric(0, reference_type_id),
                            direction: ReferenceDirection::Forward,
                        },
                    ];
                    let ghost parent_ref = link_reference(new_node_id@, links@[0]@);
                    assert(link_references(new_node_id@, links@) =~= set![parent_ref]) by {
                        assert forall|x: ReferenceView| link_references(new_node_id@, links@).contains(x) implies x == parent_ref by {
                            let i = choose|i: int| 0 <= i < links@.len() && link_reference(new_node_id@, links@[i]@) == x;
                        }
                        assert(link_reference(new_node_id@, links@[0]@) == parent_ref);
                    }
                    // Add the node to the address space
                    let inserted = address_space.insert(node, &links);
                    if inserted {
                        assert(address_space@.references =~= before.references.insert(parent_ref));
                    }
                    assert(address_space@ == (if before.nodes.dom().contains(new_node_id@) { before } else {
                        AddressSpaceView {
                            nodes: before.nodes.insert(new_node_id@, node_view),
                            references: before.references.insert(parent_ref),
                        }
                    }));
                    // Object / Variable types must add a reference to the type
                    if item.node_class == NodeClass::Object || item.node_class == NodeClass::Variable {
                        address_space.set_node_type(&new_node_id, &item.type_definition.node_id);
                    }
                    Some(AddNodesResult { status_code: StatusCode::Good, added_node_id: new_node_id })
                },
                Err(_) => {
                    // Create node failed, so assume a problem with the node attributes
                    failed(StatusCode::BadNodeAttributesInvalid)
                },
            }
        },
        None => failed(StatusCode::BadReferenceTypeIdInvalid),
    }
}

/// A request to add a reference.
#[derive(Debug)]
pub struct AddReferencesItem {
    pub source_node_id: NodeId,
    pub reference_type_id: NodeId,
    pub is_forward: bool,
    pub target_server_uri: Option<String>,
    pub target_node_id: ExpandedNodeId,
    pub target_node_class: NodeClass,
}

/// A request to delete a node.
#[derive(Debug)]
pub struct DeleteNodesItem {
    pub node_id: NodeId,
    pub delete_target_references: bool,
}

/// A request to delete a reference.
#[derive(Debug)]
pub struct DeleteReferencesItem {
    pub source_node_id: NodeId,
    pub reference_type_id: NodeId,
    pub is_forward: bool,
    pub target_node_id: ExpandedNodeId,
    pub delete_bidirectional: bool,
}

/// The reference of type `reference_type` (a standard reference type number) from
/// `source` to `target`.
pub open spec fn typed_reference(source: NodeIdView, target: NodeIdView, reference_type: u32) -> ReferenceView {
    ReferenceView { source, target, reference_type: ns0_node(reference_type) }
}

/// The status that adding the reference `item` answers with in `space`.
pub open spec fn add_reference_status(space: AddressSpaceView, can_modify: bool, item: AddReferencesItem) -> StatusCode {
    let source = item.source_node_id@;
    let target = item.target_node_id.node_id@;
    if !can_modify {
        StatusCode::BadUserAccessDenied
    } else if item.target_server_uri is Some {
        StatusCode::BadServerUriInvalid
    } else if item.target_node_id.server_index != 0 {
        StatusCode::BadReferenceLocalOnly
    } else if !space.nodes.dom().contains(source) {
        StatusCode::BadSourceNodeIdInvalid
    } else if !space.nodes.dom().contains(target) {
        StatusCode::BadTargetNodeIdInvalid
    } else if item.target_node_class == NodeClass::Unspecified {
        StatusCode::BadNodeClassInvalid
    } else if space.nodes[target].node_class != item.target_node_class {
        // The class of the target node must be the one supplied
        StatusCode::BadNodeClassInvalid
    } else if reference_type_id_of(item.reference_type_id@) is None {
        StatusCode::BadReferenceTypeIdInvalid
    } else if space.references.contains(
        typed_reference(source, target, reference_type_id_of(item.reference_type_id@)->0),
    ) {
        StatusCode::BadDuplicateReferenceNotAllowed
    } else {
        StatusCode::Good
    }
}

/// The address space after the reference `item` is added: from the source to the target
/// when forward, from the target to the source otherwise.
pub open spec fn add_reference_effect(space: AddressSpaceView, item: AddReferencesItem) -> AddressSpaceView {
    let source = item.source_node_id@;
    let target = item.target_node_id.node_id@;
    let t = reference_type_id_of(item.reference_type_id@)->0;
    AddressSpaceView {
        nodes: space.nodes,
        references: if item.is_forward {
            space.references.insert(typed_reference(source, target, t))
        } else {
            space.references.insert(typed_reference(target, source, t))
        },
    }
}

/// The address space after the reference `item` is answered with `status`.
pub open spec fn add_reference_after(space: AddressSpaceView, item: AddReferencesItem, status: StatusCode) -> AddressSpaceView {
    if status == StatusCode::Good { add_reference_effect(space, item) } else { space }
}

/// Adds one reference.
fn add_reference(session: &Session, address_space: &mut AddressSpace, item: &AddReferencesItem) -> (r: StatusCode)
    ensures
        r == add_reference_status(old(address_space)@, session.may_modify_address_space, *item),
        final(address_space)@ == add_reference_after(old(address_space)@, *item, r),
{
    if !session.can_modify_address_space() {
        // No permission to modify address space
        StatusCode::BadUserAccessDenied
    } else if item.target_server_uri.is_some() {
        StatusCode::BadServerUriInvalid
    } else if item.target_node_id.server_index != 0 {
        StatusCode::BadReferenceLocalOnly
    } else if !address_space.node_exists(&item.source_node_id) {
        StatusCode::BadSourceNodeIdInvalid
    } else if !address_space.node_exists(&item.target_node_id.node_id) {
        StatusCode::BadTargetNodeIdInvalid
    } else if item.target_node_class == NodeClass::Unspecified {
        StatusCode::BadNodeClassInvalid
    } else {
        match address_space.find_node(&item.target_node_id.node_id) {
            Some(node) => {
                // If the target node exists the class can be compared to the one supplied
                if node.node_class != item.target_node_class {
                    return StatusCode::BadNodeClassInvalid;
                }
            },
            None => {},
        }
        match reference_type_number(&item.reference_type_id) {
            Some(reference_type_id) => {
                let reference_type = NodeId::numeric(0, reference_type_id);
                if !address_space.has_reference(&item.source_node_id, &item.target_node_id.node_id, &reference_type) {
                    if item.is_forward {
                        address_space.insert_reference(&item.source_node_id, &item.target_node_id.node_id, &reference_type);
                    } else {
                        address_space.insert_reference(&item.target_node_id.node_id, &item.source_node_id, &reference_type);
                    }
                    StatusCode::Good
                } else {
                    // The reference is a duplicate
                    StatusCode::BadDuplicateReferenceNotAllowed
                }
            },
            None => StatusCode::BadReferenceTypeIdInvalid,
        }
    }
}

/// The status that deleting the node `item` answers with in `space`.
pub open spec fn delete_node_status(space: AddressSpaceView, can_modify: bool, item: DeleteNodesItem) -> StatusCode {
    if !can_modify {
        StatusCode::BadUserAccessDenied
    } else if space.nodes.dom().contains(item.node_id@) {
        StatusCode::Good
    } else {
        StatusCode::BadNodeIdUnknown
    }
}

/// The address space after the node `item` is deleted: the node and the references from
/// it go, and those to it when the item asks for it. References are removed whether or
/// not the node was there.
pub open spec fn delete_node_after(space: AddressSpaceView, can_modify: bool, item: DeleteNodesItem) -> AddressSpaceView {
    if !can_modify {
        space
    } else {
        AddressSpaceView {
            nodes: space.nodes.remove(item.node_id@),
            references: space.references_without(item.node_id@, item.delete_target_references),
        }
    }
}

/// Deletes one node.
fn delete_node(session: &Session, address_space: &mut AddressSpace, item: &DeleteNodesItem) -> (r: StatusCode)
    ensures
        r == delete_node_status(old(address_space)@, session.may_modify_address_space, *item),
        final(address_space)@ == delete_node_after(old(address_space)@, session.may_modify_address_space, *item),
{
    if !session.can_modify_address_space() {
        // No permission to modify address space
        StatusCode::BadUserAccessDenied
    } else if address_space.delete_node(&item.node_id, item.delete_target_references) {
        StatusCode::Good
    } else {
        StatusCode::BadNodeIdUnknown
    }
}

/// The status that deleting the reference `item` answers with in `space`.
pub open spec fn delete_reference_status(space: AddressSpaceView, can_modify: bool, item: DeleteReferencesItem) -> StatusCode {
    let source = item.source_node_id@;
    let target = item.target_node_id.node_id@;
    if !can_modify {
        StatusCode::BadUserAccessDenied
    } else if item.target_node_id.server_index != 0 {
        StatusCode::BadReferenceLocalOnly
    } else if source.is_null() || !space.nodes.dom().contains(source) {
        StatusCode::BadSourceNodeIdInvalid
    } else if target.is_null() || !space.nodes.dom().contains(target) {
        StatusCode::BadTargetNodeIdInvalid
    } else if reference_type_id_of(item.reference_type_id@) is None {
        StatusCode::BadReferenceTypeIdInvalid
    } else {
        StatusCode::Good
    }
}

/// The address space after the reference `item` is deleted: both directions when
/// bidirectional, else from the source when forward, from the target otherwise.
pub open spec fn delete_reference_effect(space: AddressSpaceView, item: DeleteReferencesItem) -> AddressSpaceView {
    let source = item.source_node_id@;
    let target = item.target_node_id.node_id@;
    let t = reference_type_id_of(item.reference_type_id@)->0;
    AddressSpaceView {
        nodes: space.nodes,
        references: if item.delete_bidirectional {
            space.references.remove(typed_reference(source, target, t)).remove(typed_reference(target, source, t))
        } else if item.is_forward {
            space.references.remove(typed_reference(source, target, t))
        } else {
            space.references.remove(typed_reference(target, source, t))
        },
    }
}

/// The address space after the reference `item` is answered with `status`.
pub open spec fn delete_reference_after(space: AddressSpaceView, item: DeleteReferencesItem, status: StatusCode) -> AddressSpaceView {
    if status == StatusCode::Good { delete_reference_effect(space, item) } else { space }
}

/// Deletes one reference.
fn delete_reference(session: &Session, address_space: &mut AddressSpace, item: &DeleteReferencesItem) -> (r: StatusCode)
    ensures
        r == delete_reference_status(old(address_space)@, session.may_modify_address_space, *item),
        final(address_space)@ == delete_reference_after(old(address_space)@, *item, r),
{
    let node_id = &item.source_node_id;
    let target_node_id = &item.target_node_id.node_id;
    if !session.can_modify_address_space() {
        // No permission to modify address space
        StatusCode::BadUserAccessDenied
    } else if item.target_node_id.server_index != 0 {
        // Only local references are supported
        StatusCode::BadReferenceLocalOnly
    } else if node_id.is_null() || !address_space.node_exists(node_id) {
        StatusCode::BadSourceNodeIdInvalid
    } else if target_node_id.is_null() || !address_space.node_exists(target_node_id) {
        StatusCode::BadTargetNodeIdInvalid
    } else {
        match reference_type_number(&item.reference_type_id) {
            Some(reference_type_id) => {
                let reference_type = NodeId::numeric(0, reference_type_id);
                if item.delete_bidirectional {
                    address_space.delete_reference(node_id, target_node_id, &reference_type);
                    address_space.delete_reference(target_node_id, node_id, &reference_type);
                } else if item.is_forward {
                    address_space.delete_reference(node_id, target_node_id, &reference_type);
                } else {
                    address_space.delete_reference(target_node_id, node_id, &reference_type);
                }
                StatusCode::Good
            },
            None => StatusCode::BadReferenceTypeIdInvalid,
        }
    }
}

/// A request to add nodes.
#[derive(Debug)]
pub struct AddNodesRequest {
    pub nodes_to_add: Option<Vec<AddNodesItem>>,
}

/// A request to add references.
#[derive(Debug)]
pub struct AddReferencesRequest {
    pub references_to_add: Option<Vec<AddReferencesItem>>,
}

/// A request to delete nodes.
#[derive(Debug)]
pub struct DeleteNodesRequest {
    pub nodes_to_delete: Option<Vec<DeleteNodesItem>>,
}

/// A request to delete references.
#[derive(Debug)]
pub struct DeleteReferencesRequest {
    pub references_to_delete: Option<Vec<DeleteReferencesItem>>,
}

/// What a node management service answers: one result per item, or a service fault.
#[derive(Debug)]
pub enum ServiceResponse<T> {
    Results(Vec<T>),
    Fault(StatusCode),
}

/// The add nodes service stopped at an item whose browse name forms a browse path that
/// does not parse; `completed` holds the results of the items before it, whose changes
/// to the address space stand.
#[derive(Debug)]
pub struct UnparsableBrowsePath {
    pub completed: Vec<AddNodesResult>,
}

/// The service fault that a batch of items is refused with: none given or an empty
/// batch is nothing to do, and more items than the server allows is too many.
pub open spec fn batch_fault<T>(items: Option<Vec<T>>, max: usize) -> Option<StatusCode> {
    match items {
        None => Some(StatusCode::BadNothingToDo),
        Some(v) => if v.len() == 0 {
            Some(StatusCode::BadNothingToDo)
        } else if v.len() > max {
            Some(StatusCode::BadTooManyOperations)
        } else {
            None
        },
    }
}

fn check_batch<T>(items: &Option<Vec<T>>, max: usize) -> (r: Option<StatusCode>)
    ensures
        r == batch_fault(*items, max),
{
    match items {
        None => Some(StatusCode::BadNothingToDo),
        Some(v) => if v.len() == 0 {
            Some(StatusCode::BadNothingToDo)
        } else if v.len() > max {
            Some(StatusCode::BadTooManyOperations)
        } else {
            None
        },
    }
}

/// The address space that adding `items` in order, answered by `results`, leaves.
pub open spec fn add_nodes_after(
    space: AddressSpaceView,
    items: Seq<AddNodesItem>,
    results: Seq<AddNodesResult>,
) -> AddressSpaceView
    decreases results.len(),
{
    if results.len() == 0 {
        space
    } else {
        let k = results.len() - 1;
        let before = add_nodes_after(space, items, results.drop_last());
        if results[k].status_code == StatusCode::Good {
            add_node_effect(before, items[k], results[k].added_node_id@)
        } else {
            before
        }
    }
}

/// Whether `results` answer the first items of `items` in order, each item meeting the
/// address space that the items before it left.
pub open spec fn add_nodes_valid(
    space: AddressSpaceView,
    can_modify: bool,
    items: Seq<AddNodesItem>,
    results: Seq<AddNodesResult>,
) -> bool
    decreases results.len(),
{
    &&& results.len() <= items.len()
    &&& results.len() > 0 ==> {
        let k = results.len() - 1;
        &&& add_nodes_valid(space, can_modify, items, results.drop_last())
        &&& add_node_outcome(
            add_nodes_after(space, items, results.drop_last()),
            can_modify,
            items[k],
            results[k],
            add_nodes_after(space, items, results),
        )
    }
}

/// The statuses that adding references answers, one per item in order, each item meeting the
/// address space that the items before it left, and the address space left at the end.
pub open spec fn add_references_run(space: AddressSpaceView, can_modify: bool, items: Seq<AddReferencesItem>) -> (Seq<StatusCode>, AddressSpaceView)
    decreases items.len(),
{
    if items.len() == 0 {
        (Seq::empty(), space)
    } else {
        let before = add_references_run(space, can_modify, items.drop_last());
        let status = add_reference_status(before.1, can_modify, items.last());
        (before.0.push(status), add_reference_after(before.1, items.last(), status))
    }
}

/// The statuses that deleting nodes answers, one per item in order, each item meeting the
/// address space that the items before it left, and the address space left at the end.
pub open spec fn delete_nodes_run(space: AddressSpaceView, can_modify: bool, items: Seq<DeleteNodesItem>) -> (Seq<StatusCode>, AddressSpaceView)
    decreases items.len(),
{
    if items.len() == 0 {
        (Seq::empty(), space)
    } else {
        let before = delete_nodes_run(space, can_modify, items.drop_last());
        let status = delete_node_status(before.1, can_modify, items.last());
        (before.0.push(status), delete_node_after(before.1, can_modify, items.last()))
    }
}

/// The statuses that deleting references answers, one per item in order, each item meeting the
/// address space that the items before it left, and the address space left at the end.
pub open spec fn delete_references_run(space: AddressSpaceView, can_modify: bool, items: Seq<DeleteReferencesItem>) -> (Seq<StatusCode>, AddressSpaceView)
    decreases items.len(),
{
    if items.len() == 0 {
        (Seq::empty(), space)
    } else {
        let before = delete_references_run(space, can_modify, items.drop_last());
        let status = delete_reference_status(before.1, can_modify, items.last());
        (before.0.push(status), delete_reference_after(before.1, items.last(), status))
    }
}

/// The node management services: adding and deleting nodes and references.
#[derive(Debug)]
pub struct NodeManagementService;

impl NodeManagementService {
    pub fn new() -> (r: NodeManagementService) {
        NodeManagementService
    }

    /// Implements the AddNodes service.
    pub fn add_nodes(
        &self,
        server_state: &ServerState,
        session: &Session,
        address_space: &mut AddressSpace,
        request: &AddNodesRequest,
    ) -> (r: Result<ServiceResponse<AddNodesResult>, UnparsableBrowsePath>)
        ensures
            match r {
                Ok(ServiceResponse::Fault(c)) => batch_fault(request.nodes_to_add, server_state.max_nodes_per_node_management)
                    == Some(c) && final(address_space)@ == old(address_space)@,
                Ok(ServiceResponse::Results(v)) => {
                    let items = request.nodes_to_add->0@;
                    &&& batch_fault(request.nodes_to_add, server_state.max_nodes_per_node_management) is None
                    &&& v@.len() == items.len()
                    &&& add_nodes_valid(old(address_space)@, session.may_modify_address_space, items, v@)
                    &&& final(address_space)@ == add_nodes_after(old(address_space)@, items, v@)
                },
                Err(stop) => {
                    let items = request.nodes_to_add->0@;
                    let done = stop.completed@;
                    &&& batch_fault(request.nodes_to_add, server_state.max_nodes_per_node_management) is None
                    &&& done.len() < items.len()
                    &&& add_nodes_valid(old(address_space)@, session.may_modify_address_space, items, done)
                    &&& final(address_space)@ == add_nodes_after(old(address_space)@, items, done)
                    &&& add_node_status(final(address_space)@, session.may_modify_address_space, items[done.len() as int]) is None
                },
            },
    {
        if let Some(fault) = check_batch(&request.nodes_to_add, server_state.max_nodes_per_node_management()) {
            return Ok(ServiceResponse::Fault(fault));
        }
        let nodes_to_add = match &request.nodes_to_add {
            Some(v) => v,
            None => {
                return Ok(ServiceResponse::Fault(StatusCode::BadNothingToDo));
            },
        };
        let ghost start = address_space@;
        let ghost can_modify = session.may_modify_address_space;
        let mut results: Vec<AddNodesResult> = Vec::new();
        let mut i: usize = 0;
        while i < nodes_to_add.len()
            invariant
                0 <= i <= nodes_to_add@.len(),
                results@.len() == i,
                start == old(address_space)@,
                can_modify == session.may_modify_address_space,
                nodes_to_add@ == request.nodes_to_add->0@,
                batch_fault(request.nodes_to_add, server_state.max_nodes_per_node_management) is None,
                add_nodes_valid(start, can_modify, nodes_to_add@, results@),
                address_space@ == add_nodes_after(start, nodes_to_add@, results@),
            decreases nodes_to_add@.len() - i,
        {
            match add_node(session, address_space, &nodes_to_add[i]) {
                Some(result) => {
                    let ghost before = results@;
                    results.push(result);
                    assert(results@.drop_last() =~= before);
                },
                None => {
                    assert(add_node_status(address_space@, can_modify, nodes_to_add@[i as int]) is None);
                    let stop = UnparsableBrowsePath { completed: results };
                    assert(stop.completed@.len() == i);
                    return Err(stop);
                },
            }
            i += 1;
        }
        Ok(ServiceResponse::Results(results))
    }

    /// Implements the AddReferences service.
    pub fn add_references(
        &self,
        server_state: &ServerState,
        session: &Session,
        address_space: &mut AddressSpace,
        request: &AddReferencesRequest,
    ) -> (r: ServiceResponse<StatusCode>)
        ensures
            match r {
                ServiceResponse::Fault(c) => batch_fault(request.references_to_add, server_state.max_nodes_per_node_management)
                    == Some(c) && final(address_space)@ == old(address_space)@,
                ServiceResponse::Results(v) => {
                    let run = add_references_run(old(address_space)@, session.may_modify_address_space, request.references_to_add->0@);
                    &&& batch_fault(request.references_to_add, server_state.max_nodes_per_node_management) is None
                    &&& v@ == run.0
                    &&& final(address_space)@ == run.1
                },
            },
    {
        if let Some(fault) = check_batch(&request.references_to_add, server_state.max_nodes_per_node_management()) {
            return ServiceResponse::Fault(fault);
        }
        let items = match &request.references_to_add {
            Some(v) => v,
            None => {
                return ServiceResponse::Fault(StatusCode::BadNothingToDo);
            },
        };
        let ghost start = address_space@;
        let ghost can_modify = session.may_modify_address_space;
        let mut results: Vec<StatusCode> = Vec::new();
        let mut i: usize = 0;
        assert(items@.take(0) =~= Seq::<AddReferencesItem>::empty());
        while i < items.len()
            invariant
                0 <= i <= items@.len(),
                start == old(address_space)@,
                can_modify == session.may_modify_address_space,
                items@ == request.references_to_add->0@,
                batch_fault(request.references_to_add, server_state.max_nodes_per_node_management) is None,
                results@ == add_references_run(start, can_modify, items@.take(i as int)).0,
                address_space@ == add_references_run(start, can_modify, items@.take(i as int)).1,
            decreases items@.len() - i,
        {
            let status = add_reference(session, address_space, &items[i]);
            results.push(status);
            assert(items@.take(i + 1).drop_last() =~= items@.take(i as int));
            i += 1;
        }
        assert(items@.take(items@.len() as int) =~= items@);
        ServiceResponse::Results(results)
    }

    /// Implements the DeleteNodes service.
    pub fn delete_nodes(
        &self,
        server_state: &ServerState,
        session: &Session,
        address_space: &mut AddressSpace,
        request: &DeleteNodesRequest,
    ) -> (r: ServiceResponse<StatusCode>)
        ensures
            match r {
                ServiceResponse::Fault(c) => batch_fault(request.nodes_to_delete, server_state.max_nodes_per_node_management)
                    == Some(c) && final(address_space)@ == old(address_space)@,
                ServiceResponse::Results(v) => {
                    let run = delete_nodes_run(old(address_space)@, session.may_modify_address_space, request.nodes_to_delete->0@);
                    &&& batch_fault(request.nodes_to_delete, server_state.max_nodes_per_node_management) is None
                    &&& v@ == run.0
                    &&& final(address_space)@ == run.1
                },
            },
    {
        if let Some(fault) = check_batch(&request.nodes_to_delete, server_state.max_nodes_per_node_management()) {
            return ServiceResponse::Fault(fault);
        }
        let items = match &request.nodes_to_delete {
            Some(v) => v,
            None => {
                return ServiceResponse::Fault(StatusCode::BadNothingToDo);
            },
        };
        let ghost start = address_space@;
        let ghost can_modify = session.may_modify_address_space;
        let mut results: Vec<StatusCode> = Vec::new();
        let mut i: usize = 0;
        assert(items@.take(0) =~= Seq::<DeleteNodesItem>::empty());
        while i < items.len()
            invariant
                0 <= i <= items@.len(),
                start == old(address_space)@,
                can_modify == session.may_modify_address_space,
                items@ == request.nodes_to_delete->0@,
                batch_fault(request.nodes_to_delete, server_state.max_nodes_per_node_management) is None,
                results@ == delete_nodes_run(start, can_modify, items@.take(i as int)).0,
                address_space@ == delete_nodes_run(start, can_modify, items@.take(i as int)).1,
            decreases items@.len() - i,
        {
            let status = delete_node(session, address_space, &items[i]);
            results.push(status);
            assert(items@.take(i + 1).drop_last() =~= items@.take(i as int));
            i += 1;
        }
        assert(items@.take(items@.len() as int) =~= items@);
        ServiceResponse::Results(results)
    }

    /// Implements the DeleteReferences service.
    pub fn delete_references(
        &self,
        server_state: &ServerState,
        session: &Session,
        address_space: &mut AddressSpace,
        request: &DeleteReferencesRequest,
    ) -> (r: ServiceResponse<StatusCode>)
        ensures
            match r {
                ServiceResponse::Fault(c) => batch_fault(request.references_to_delete, server_state.max_nodes_per_node_management)
                    == Some(c) && final(address_space)@ == old(address_space)@,
                ServiceResponse::Results(v) => {
                    let run = delete_references_run(old(address_space)@, session.may_modify_address_space, request.references_to_delete->0@);
                    &&& batch_fault(request.references_to_delete, server_state.max_nodes_per_node_management) is None
                    &&& v@ == run.0
                    &&& final(address_space)@ == run.1
                },
            },
    {
        if let Some(fault) = check_batch(&request.references_to_delete, server_state.max_nodes_per_node_management()) {
            return ServiceResponse::Fault(fault);
        }
        let items = match &request.references_to_delete {
            Some(v) => v,
            None => {
                return ServiceResponse::Fault(StatusCode::BadNothingToDo);
            },
        };
        let ghost start = address_space@;
        let ghost can_modify = session.may_modify_address_space;
        let mut results: Vec<StatusCode> = Vec::new();
        let mut i: usize = 0;
        assert(items@.take(0) =~= Seq::<DeleteReferencesItem>::empty());
        while i < items.len()
            invariant
                0 <= i <= items@.len(),
                start == old(address_space)@,
                can_modify == session.may_modify_address_space,
                items@ == request.references_to_delete->0@,
                batch_fault(request.references_to_delete, server_state.max_nodes_per_node_management) is None,
                results@ == delete_references_run(start, can_modify, items@.take(i as int)).0,
                address_space@ == delete_references_run(start, can_modify, items@.take(i as int)).1,
            decreases items@.len() - i,
        {
            let status = delete_reference(session, address_space, &items[i]);
            results.push(status);
            assert(items@.take(i + 1).drop_last() =~= items@.take(i as int));
            i += 1;
        }
        assert(items@.take(items@.len() as int) =~= items@);
        ServiceResponse::Results(results)
    }
}

} // verus!
