use vstd::prelude::*;
use crate::address_space::{AddressSpaceView, NodeView, ReferenceView, reference_leads};
use crate::browse_path::{PathStepView, browse_path_text, parsed_path};
use crate::node_id::{NodeIdView, ns0_node};
use crate::node_management::{
    AddNodesItem, AddNodesResult, AddReferencesItem, DeleteNodesItem, DeleteReferencesItem,
    add_node_outcome, add_node_status, add_nodes_after, add_nodes_valid, add_reference_after,
    add_reference_status, add_references_run, browse_name_invalid, delete_node_after, delete_node_status,
    delete_nodes_run, delete_reference_after, delete_reference_status, delete_references_run, typed_reference,
};
use crate::reference_type::{HAS_TYPE_DEFINITION, HIERARCHICAL_REFERENCES, is_subtype_of, supertype};
use crate::standard_ids::reference_type_id_of;
use crate::status::{NodeClass, StatusCode};
use crate::attributes::{
    ACCESS_LEVEL, ALL_ATTRIBUTES, ARRAY_DIMENSIONS, CONTAINS_NO_LOOPS, DATA_TYPE, DESCRIPTION, DISPLAY_NAME,
    EVENT_NOTIFIER, EXECUTABLE, HISTORIZING, INVERSE_NAME, IS_ABSTRACT, MINIMUM_SAMPLING_INTERVAL, SYMMETRIC,
    USER_ACCESS_LEVEL, USER_EXECUTABLE, USER_WRITE_MASK, VALUE, VALUE_RANK, WRITE_MASK, mandatory_attributes,
    ExtensionObject, data_type_attributes_decoding, method_attributes_decoding, object_attributes_decoding,
    object_type_attributes_decoding, reference_type_attributes_decoding, variable_attributes_decoding,
    variable_type_attributes_decoding, view_attributes_decoding,
};
use crate::nesting::{i32_at, value_nesting_bounded};
use crate::node_id::opt_bytes_view;
use crate::node_management::create_node_result;
use crate::secure_channel::{DecodingLimits, byte_string_bytes, byte_string_decoding};

verus! {

/// A session that may not modify the address space is refused every reference it asks
/// to add, and the address space stays as it was.
pub proof fn law_add_references_without_permission(space: AddressSpaceView, items: Seq<AddReferencesItem>)
    ensures
        add_references_run(space, false, items).0 == Seq::new(items.len(), |i: int| StatusCode::BadUserAccessDenied),
        add_references_run(space, false, items).1 == space,
    decreases items.len(),
{
    if items.len() > 0 {
        law_add_references_without_permission(space, items.drop_last());
        assert(add_references_run(space, false, items).0 =~= Seq::new(items.len(), |i: int| StatusCode::BadUserAccessDenied));
    }
}

/// A session that may not modify the address space is refused every node it asks to
/// delete, and the address space stays as it was.
pub proof fn law_delete_nodes_without_permission(space: AddressSpaceView, items: Seq<DeleteNodesItem>)
    ensures
        delete_nodes_run(space, false, items).0 == Seq::new(items.len(), |i: int| StatusCode::BadUserAccessDenied),
        delete_nodes_run(space, false, items).1 == space,
    decreases items.len(),
{
    if items.len() > 0 {
        law_delete_nodes_without_permission(space, items.drop_last());
        assert(delete_nodes_run(space, false, items).0 =~= Seq::new(items.len(), |i: int| StatusCode::BadUserAccessDenied));
    }
}

/// A session that may not modify the address space is refused every reference it asks
/// to delete, and the address space stays as it was.
pub proof fn law_delete_references_without_permission(space: AddressSpaceView, items: Seq<DeleteReferencesItem>)
    ensures
        delete_references_run(space, false, items).0 == Seq::new(items.len(), |i: int| StatusCode::BadUserAccessDenied),
        delete_references_run(space, false, items).1 == space,
    decreases items.len(),
{
    if items.len() > 0 {
        law_delete_references_without_permission(space, items.drop_last());
        assert(delete_references_run(space, false, items).0 =~= Seq::new(items.len(), |i: int| StatusCode::BadUserAccessDenied));
    }
}

/// A session that may not modify the address space is refused every node it asks to
/// add, with the null node id, and the address space stays as it was.
pub proof fn law_add_nodes_without_permission(space: AddressSpaceView, items: Seq<AddNodesItem>, results: Seq<AddNodesResult>)
    requires
        add_nodes_valid(space, false, items, results),
    ensures
        forall|k: int| 0 <= k < results.len() ==> (#[trigger] results[k]).status_code == StatusCode::BadUserAccessDenied
            && results[k].added_node_id@.is_null(),
        add_nodes_after(space, items, results) == space,
    decreases results.len(),
{
    if results.len() > 0 {
        law_add_nodes_without_permission(space, items, results.drop_last());
        assert forall|k: int| 0 <= k < results.len() implies (#[trigger] results[k]).status_code == StatusCode::BadUserAccessDenied
            && results[k].added_node_id@.is_null() by {
            if k < results.len() - 1 {
                assert(results.drop_last()[k] == results[k]);
            }
        }
    }
}

/// An item that is refused leaves the address space as it was: adding a node, adding a
/// reference and deleting a reference.
pub proof fn law_refused_items_change_nothing(
    space: AddressSpaceView,
    can_modify: bool,
    node_item: AddNodesItem,
    node_result: AddNodesResult,
    after: AddressSpaceView,
    add_item: AddReferencesItem,
    delete_item: DeleteReferencesItem,
)
    requires
        add_node_outcome(space, can_modify, node_item, node_result, after),
    ensures
        node_result.status_code != StatusCode::Good ==> after == space && node_result.added_node_id@.is_null(),
        add_reference_status(space, can_modify, add_item) != StatusCode::Good ==> add_reference_after(
            space,
            add_item,
            add_reference_status(space, can_modify, add_item),
        ) == space,
        delete_reference_status(space, can_modify, delete_item) != StatusCode::Good ==> delete_reference_after(
            space,
            delete_item,
            delete_reference_status(space, can_modify, delete_item),
        ) == space,
{
}

/// A node that is not deleted because it is unknown leaves the nodes as they were, and
/// the references too where none of them starts or (when those go) ends at that node
/// id. (References to or from an unknown node id are removed all the same.)
pub proof fn law_unknown_node_delete(space: AddressSpaceView, item: DeleteNodesItem)
    requires
        delete_node_status(space, true, item) == StatusCode::BadNodeIdUnknown,
        forall|r: ReferenceView| #[trigger] space.references.contains(r) ==> r.source != item.node_id@
            && (item.delete_target_references ==> r.target != item.node_id@),
    ensures
        delete_node_after(space, true, item) == space,
{
    let after = delete_node_after(space, true, item);
    assert(after.nodes =~= space.nodes);
    assert(after.references =~= space.references);
}

/// A reference that is added is there afterwards, from the source to the target when
/// forward and from the target to the source otherwise; the nodes stay as they were.
pub proof fn law_added_reference_is_present(space: AddressSpaceView, can_modify: bool, item: AddReferencesItem)
    requires
        add_reference_status(space, can_modify, item) == StatusCode::Good,
    ensures
        ({
            let after = add_reference_after(space, item, StatusCode::Good);
            let t = reference_type_id_of(item.reference_type_id@)->0;
            let source = item.source_node_id@;
            let target = item.target_node_id.node_id@;
            &&& after.nodes == space.nodes
            &&& item.is_forward ==> after.references.contains(typed_reference(source, target, t))
            &&& !item.is_forward ==> after.references.contains(typed_reference(target, source, t))
        }),
{
}

/// Adding the same forward reference a second time is refused as a duplicate.
pub proof fn law_forward_reference_added_twice(space: AddressSpaceView, can_modify: bool, item: AddReferencesItem)
    requires
        add_reference_status(space, can_modify, item) == StatusCode::Good,
        item.is_forward,
    ensures
        add_reference_status(add_reference_after(space, item, StatusCode::Good), can_modify, item)
            == StatusCode::BadDuplicateReferenceNotAllowed,
{
}

/// A reference that is deleted is gone afterwards, in the direction(s) the item names;
/// the nodes stay as they were.
pub proof fn law_deleted_reference_is_absent(space: AddressSpaceView, can_modify: bool, item: DeleteReferencesItem)
    requires
        delete_reference_status(space, can_modify, item) == StatusCode::Good,
    ensures
        ({
            let after = delete_reference_after(space, item, StatusCode::Good);
            let t = reference_type_id_of(item.reference_type_id@)->0;
            let source = item.source_node_id@;
            let target = item.target_node_id.node_id@;
            &&& after.nodes == space.nodes
            &&& (item.delete_bidirectional || item.is_forward) ==> !after.references.contains(typed_reference(source, target, t))
            &&& (item.delete_bidirectional || !item.is_forward) ==> !after.references.contains(typed_reference(target, source, t))
        }),
{
}

/// A node that is added with a requested node id did not exist before.
pub proof fn law_requested_node_was_absent(
    space: AddressSpaceView,
    can_modify: bool,
    item: AddNodesItem,
    result: AddNodesResult,
    after: AddressSpaceView,
)
    requires
        add_node_outcome(space, can_modify, item, result, after),
        result.status_code == StatusCode::Good,
        !item.requested_new_node_id.node_id@.is_null(),
    ensures
        !space.nodes.dom().contains(result.added_node_id@),
        result.added_node_id@ == item.requested_new_node_id.node_id@,
{
}

/// A node that is added under a node id that was free is there afterwards with the
/// class, browse name and attributes asked for, with a reference of the asked type to
/// its parent, and, for objects and variables, to its type definition.
pub proof fn law_added_node_is_present(
    space: AddressSpaceView,
    can_modify: bool,
    item: AddNodesItem,
    result: AddNodesResult,
    after: AddressSpaceView,
)
    requires
        add_node_outcome(space, can_modify, item, result, after),
        result.status_code == StatusCode::Good,
        !space.nodes.dom().contains(result.added_node_id@),
    ensures
        ({
            let id = result.added_node_id@;
            &&& after.nodes.dom().contains(id)
            &&& after.nodes[id].node_class == item.node_class
            &&& after.nodes[id].browse_name == item.browse_name@
            &&& after.nodes[id].attributes == crate::node_management::body_bytes(item.node_attributes)
            &&& after.references.contains(
                typed_reference(id, item.parent_node_id.node_id@, reference_type_id_of(item.reference_type_id@)->0),
            )
            &&& (item.node_class == NodeClass::Object || item.node_class == NodeClass::Variable) ==> after.references.contains(
                typed_reference(id, item.type_definition.node_id@, HAS_TYPE_DEFINITION),
            )
            &&& after.nodes.dom() == space.nodes.dom().insert(id)
        }),
{
}

/// Adding the same node with a requested node id a second time is refused: the node
/// id exists.
pub proof fn law_requested_node_added_twice(
    space: AddressSpaceView,
    can_modify: bool,
    item: AddNodesItem,
    result: AddNodesResult,
    after: AddressSpaceView,
)
    requires
        add_node_outcome(space, can_modify, item, result, after),
        result.status_code == StatusCode::Good,
        !item.requested_new_node_id.node_id@.is_null(),
    ensures
        add_node_status(after, can_modify, item) == Some(StatusCode::BadNodeIdExists),
{
}

/// A node that is deleted is gone afterwards, with the references from it.
pub proof fn law_deleted_node_is_absent(space: AddressSpaceView, item: DeleteNodesItem)
    ensures
        !delete_node_after(space, true, item).nodes.dom().contains(item.node_id@),
        forall|r: ReferenceView| #[trigger] delete_node_after(space, true, item).references.contains(r) ==> r.source
            != item.node_id@,
{
}

/// A node that was added can be deleted: the deletion succeeds and the node is gone.
pub proof fn law_delete_after_add(
    space: AddressSpaceView,
    item: AddNodesItem,
    result: AddNodesResult,
    after: AddressSpaceView,
    delete_item: DeleteNodesItem,
)
    requires
        add_node_outcome(space, true, item, result, after),
        result.status_code == StatusCode::Good,
        delete_item.node_id@ == result.added_node_id@,
    ensures
        delete_node_status(after, true, delete_item) == StatusCode::Good,
        !delete_node_after(after, true, delete_item).nodes.dom().contains(result.added_node_id@),
{
}

/// A node under the parent that a hierarchical reference from the parent leads to, with
/// the browse name asked for, makes adding another node with that browse name fail as a
/// duplicate, where the browse name's path is the one forward hierarchical step to it
/// and the checks before the browse name pass (a requested node id, if any, is free).
pub proof fn law_duplicate_browse_name(
    space: AddressSpaceView,
    item: AddNodesItem,
    sibling: NodeIdView,
    reference_type: u32,
)
    requires
        item.requested_new_node_id.server_index == 0,
        item.node_class != NodeClass::Unspecified,
        item.requested_new_node_id.node_id@.is_null() || !space.nodes.dom().contains(item.requested_new_node_id.node_id@),
        !browse_name_invalid(item.browse_name@),
        parsed_path(browse_path_text(item.browse_name@)) == Some(seq![PathStepView {
            reference_type: ns0_node(HIERARCHICAL_REFERENCES),
            is_inverse: false,
            include_subtypes: true,
            target_name: item.browse_name@,
        }]),
        space.nodes.dom().contains(item.parent_node_id.node_id@),
        space.nodes.dom().contains(sibling),
        space.nodes[sibling].browse_name == item.browse_name@,
        is_subtype_of(reference_type, HIERARCHICAL_REFERENCES),
        space.references.contains(typed_reference(item.parent_node_id.node_id@, sibling, reference_type)),
    ensures
        add_node_status(space, true, item) == Some(StatusCode::BadBrowseNameDuplicated),
{
    let parent = item.parent_node_id.node_id@;
    let steps = parsed_path(browse_path_text(item.browse_name@))->0;
    let step = steps[0];
    let r = typed_reference(parent, sibling, reference_type);
    assert(steps.drop_last() =~= Seq::<PathStepView>::empty());
    assert(space.path_targets(parent, steps.drop_last()) == set![parent]);
    assert(ns0_node(reference_type).ns0_numeric() == Some(reference_type));
    assert(reference_leads(r, parent, sibling, step));
    assert(space.step_reaches(parent, sibling, step));
    assert(steps.last() == step);
    assert(set![parent].contains(parent));
    assert(space.step_targets(set![parent], step).contains(sibling));
    assert(space.path_targets(parent, steps).contains(sibling));
}

/// The reference and node deletion services answer one status per item.
pub proof fn law_one_status_per_item(
    space: AddressSpaceView,
    can_modify: bool,
    add_items: Seq<AddReferencesItem>,
    delete_node_items: Seq<DeleteNodesItem>,
    delete_reference_items: Seq<DeleteReferencesItem>,
)
    ensures
        add_references_run(space, can_modify, add_items).0.len() == add_items.len(),
        delete_nodes_run(space, can_modify, delete_node_items).0.len() == delete_node_items.len(),
        delete_references_run(space, can_modify, delete_reference_items).0.len() == delete_reference_items.len(),
    decreases add_items.len() + delete_node_items.len() + delete_reference_items.len(),
{
    if add_items.len() > 0 {
        law_one_status_per_item(space, can_modify, add_items.drop_last(), delete_node_items, delete_reference_items);
    }
    if delete_node_items.len() > 0 {
        law_one_status_per_item(space, can_modify, add_items, delete_node_items.drop_last(), delete_reference_items);
    }
    if delete_reference_items.len() > 0 {
        law_one_status_per_item(space, can_modify, add_items, delete_node_items, delete_reference_items.drop_last());
    }
}

/// Deleting a reference a second time answers as the first deletion did and changes
/// nothing more.
pub proof fn law_delete_reference_twice(space: AddressSpaceView, can_modify: bool, item: DeleteReferencesItem)
    ensures
        ({
            let status = delete_reference_status(space, can_modify, item);
            let after = delete_reference_after(space, item, status);
            &&& delete_reference_status(after, can_modify, item) == status
            &&& delete_reference_after(after, item, status) == after
        }),
{
    let status = delete_reference_status(space, can_modify, item);
    let after = delete_reference_after(space, item, status);
    assert(after.nodes == space.nodes);
    let again = delete_reference_after(after, item, status);
    assert(again.references =~= after.references);
}

/// Deleting, in the same direction and not both ways, a reference that was just added
/// between two nodes with non-null ids gives back the address space as it was before
/// the addition. A backward reference
/// that was there already before it was added is the exception: its deletion removes
/// it.
pub proof fn law_delete_after_add_reference(
    space: AddressSpaceView,
    can_modify: bool,
    added: AddReferencesItem,
    deleted: DeleteReferencesItem,
)
    requires
        add_reference_status(space, can_modify, added) == StatusCode::Good,
        !added.source_node_id@.is_null(),
        !added.target_node_id.node_id@.is_null(),
        deleted.source_node_id@ == added.source_node_id@,
        deleted.reference_type_id@ == added.reference_type_id@,
        deleted.is_forward == added.is_forward,
        deleted.target_node_id.node_id@ == added.target_node_id.node_id@,
        deleted.target_node_id.server_index == added.target_node_id.server_index,
        !deleted.delete_bidirectional,
        !added.is_forward ==> !space.references.contains(typed_reference(
            added.target_node_id.node_id@,
            added.source_node_id@,
            reference_type_id_of(added.reference_type_id@)->0,
        )),
    ensures
        ({
            let between = add_reference_after(space, added, StatusCode::Good);
            &&& delete_reference_status(between, can_modify, deleted) == StatusCode::Good
            &&& delete_reference_after(between, deleted, StatusCode::Good) == space
        }),
{
    let between = add_reference_after(space, added, StatusCode::Good);
    let after = delete_reference_after(between, deleted, StatusCode::Good);
    assert(after.nodes == space.nodes);
    assert(after.references =~= space.references);
}

/// The references that deleting `item` removes, from the nodes that decide its status.
spec fn removed_by(nodes: Map<NodeIdView, NodeView>, can_modify: bool, item: DeleteReferencesItem) -> Set<ReferenceView> {
    let space = AddressSpaceView { nodes, references: Set::empty() };
    let t = reference_type_id_of(item.reference_type_id@)->0;
    let source = item.source_node_id@;
    let target = item.target_node_id.node_id@;
    if delete_reference_status(space, can_modify, item) != StatusCode::Good {
        Set::empty()
    } else if item.delete_bidirectional {
        set![typed_reference(source, target, t), typed_reference(target, source, t)]
    } else if item.is_forward {
        set![typed_reference(source, target, t)]
    } else {
        set![typed_reference(target, source, t)]
    }
}

/// The references that deleting each of `items` in turn removes.
spec fn removed_by_all(nodes: Map<NodeIdView, NodeView>, can_modify: bool, items: Seq<DeleteReferencesItem>) -> Set<ReferenceView>
    decreases items.len(),
{
    if items.len() == 0 {
        Set::empty()
    } else {
        removed_by_all(nodes, can_modify, items.drop_last()).union(removed_by(nodes, can_modify, items.last()))
    }
}

/// A batch of reference deletions keeps the nodes and removes the references its
/// items name, whichever of them are there.
proof fn lemma_run_removes(space: AddressSpaceView, can_modify: bool, items: Seq<DeleteReferencesItem>)
    ensures
        delete_references_run(space, can_modify, items).1.nodes == space.nodes,
        delete_references_run(space, can_modify, items).1.references
            == space.references.difference(removed_by_all(space.nodes, can_modify, items)),
    decreases items.len(),
{
    if items.len() == 0 {
        assert(space.references.difference(Set::<ReferenceView>::empty()) =~= space.references);
    } else {
        let rest = items.drop_last();
        let item = items.last();
        lemma_run_removes(space, can_modify, rest);
        let before = delete_references_run(space, can_modify, rest).1;
        let bare = AddressSpaceView { nodes: space.nodes, references: Set::empty() };
        assert(delete_reference_status(before, can_modify, item) == delete_reference_status(bare, can_modify, item));
        let after = delete_references_run(space, can_modify, items).1;
        assert(after.references =~= space.references.difference(removed_by_all(space.nodes, can_modify, items)));
    }
}

/// The statuses of a batch of reference deletions depend on the nodes alone.
proof fn lemma_run_statuses(a: AddressSpaceView, b: AddressSpaceView, can_modify: bool, items: Seq<DeleteReferencesItem>)
    requires
        a.nodes == b.nodes,
    ensures
        delete_references_run(a, can_modify, items).0 == delete_references_run(b, can_modify, items).0,
    decreases items.len(),
{
    if items.len() > 0 {
        lemma_run_statuses(a, b, can_modify, items.drop_last());
        lemma_run_removes(a, can_modify, items.drop_last());
        lemma_run_removes(b, can_modify, items.drop_last());
    }
}

/// Running the same batch of reference deletions a second time answers as the first
/// run did and changes nothing more.
pub proof fn law_delete_references_twice(space: AddressSpaceView, can_modify: bool, items: Seq<DeleteReferencesItem>)
    ensures
        ({
            let first = delete_references_run(space, can_modify, items);
            let second = delete_references_run(first.1, can_modify, items);
            &&& second.0 == first.0
            &&& second.1 == first.1
        }),
{
    let first = delete_references_run(space, can_modify, items);
    let second = delete_references_run(first.1, can_modify, items);
    lemma_run_removes(space, can_modify, items);
    lemma_run_removes(first.1, can_modify, items);
    lemma_run_statuses(first.1, space, can_modify, items);
    assert(second.1.references =~= first.1.references);
    assert(second.1.nodes == first.1.nodes);
}

/// The masks of all attributes and of each class's mandatory attributes, as numbers.
proof fn reveal_attribute_masks()
    ensures
        ALL_ATTRIBUTES == 0x3F_9FFBu32,
        mandatory_attributes(NodeClass::Object) == 0xC0u32,
        mandatory_attributes(NodeClass::Variable) == 0x29_0251u32,
        mandatory_attributes(NodeClass::Method) == 0x2_0140u32,
        mandatory_attributes(NodeClass::ObjectType) == 0x840u32,
        mandatory_attributes(NodeClass::VariableType) == 0x8_0840u32,
        mandatory_attributes(NodeClass::ReferenceType) == 0x8840u32,
        mandatory_attributes(NodeClass::DataType) == 0x840u32,
        mandatory_attributes(NodeClass::View) == 0xC8u32,
{
    assert(ACCESS_LEVEL | ARRAY_DIMENSIONS | CONTAINS_NO_LOOPS | DATA_TYPE | DESCRIPTION
        | DISPLAY_NAME | EVENT_NOTIFIER | EXECUTABLE | HISTORIZING | INVERSE_NAME | IS_ABSTRACT
        | MINIMUM_SAMPLING_INTERVAL | SYMMETRIC | USER_ACCESS_LEVEL | USER_EXECUTABLE | USER_WRITE_MASK
        | VALUE_RANK | WRITE_MASK | VALUE == 0x3F_9FFBu32) by (bit_vector);
    assert(DISPLAY_NAME | EVENT_NOTIFIER == 0xC0u32) by (bit_vector);
    assert(DISPLAY_NAME | ACCESS_LEVEL | USER_ACCESS_LEVEL | DATA_TYPE | HISTORIZING | VALUE | VALUE_RANK
        == 0x29_0251u32) by (bit_vector);
    assert(DISPLAY_NAME | EXECUTABLE | USER_EXECUTABLE == 0x2_0140u32) by (bit_vector);
    assert(DISPLAY_NAME | IS_ABSTRACT == 0x840u32) by (bit_vector);
    assert(DISPLAY_NAME | IS_ABSTRACT | VALUE_RANK == 0x8_0840u32) by (bit_vector);
    assert(DISPLAY_NAME | IS_ABSTRACT | SYMMETRIC == 0x8840u32) by (bit_vector);
    assert(DISPLAY_NAME | EVENT_NOTIFIER | CONTAINS_NO_LOOPS == 0xC8u32) by (bit_vector);
}

/// Whether a decoded mask of specified attributes names only attributes (bits of
/// `0x3F_9FFB`) and holds every bit of `mandatory`.
pub open spec fn mask_holds(decoded: Result<u32, u32>, mandatory: u32) -> bool {
    decoded matches Ok(m) && m & !0x3F_9FFBu32 == 0 && m & mandatory == mandatory
}

/// A node of each class is built exactly from the standard binary encoding of that
/// class's attribute structure (namespace 0: Object 354, Variable 357, Method 360,
/// ObjectType 363, VariableType 366, ReferenceType 369, DataType 372, View 375),
/// decoded as that structure, whose mask names only attributes and holds the class's
/// mandatory ones (display name for all; event notifier for objects and views; access
/// levels, data type, historizing, value and value rank for variables; executable and
/// user executable for methods; is-abstract for types; value rank for variable types;
/// symmetric for reference types; contains-no-loops for views). A variable's or
/// variable type's value must also nest within bounds. No node is built without a class.
pub proof fn law_create_node_standard_encodings(attrs: ExtensionObject)
    ensures
        ({
            let id = attrs.node_id@;
            let body = opt_bytes_view(attrs.body);
            let bounded = body matches Some(b) ==> value_nesting_bounded(b);
            &&& (create_node_result(NodeClass::Object, attrs) is Ok
                <==> id == ns0_node(354) && mask_holds(object_attributes_decoding(body), 0xC0))
            &&& (create_node_result(NodeClass::Variable, attrs) is Ok
                <==> id == ns0_node(357) && bounded && mask_holds(variable_attributes_decoding(body), 0x29_0251))
            &&& (create_node_result(NodeClass::Method, attrs) is Ok
                <==> id == ns0_node(360) && mask_holds(method_attributes_decoding(body), 0x2_0140))
            &&& (create_node_result(NodeClass::ObjectType, attrs) is Ok
                <==> id == ns0_node(363) && mask_holds(object_type_attributes_decoding(body), 0x840))
            &&& (create_node_result(NodeClass::VariableType, attrs) is Ok
                <==> id == ns0_node(366) && bounded && mask_holds(variable_type_attributes_decoding(body), 0x8_0840))
            &&& (create_node_result(NodeClass::ReferenceType, attrs) is Ok
                <==> id == ns0_node(369) && mask_holds(reference_type_attributes_decoding(body), 0x8840))
            &&& (create_node_result(NodeClass::DataType, attrs) is Ok
                <==> id == ns0_node(372) && mask_holds(data_type_attributes_decoding(body), 0x840))
            &&& (create_node_result(NodeClass::View, attrs) is Ok
                <==> id == ns0_node(375) && mask_holds(view_attributes_decoding(body), 0xC8))
            &&& create_node_result(NodeClass::Unspecified, attrs) is Err
        }),
{
    reveal_attribute_masks();
    let id = attrs.node_id@;
    assert forall|k: u32| id.ns0_numeric() == Some(k) <==> id == ns0_node(k) by {
        if id.ns0_numeric() == Some(k) {
            assert(id == ns0_node(k));
        }
    }
}

/// Only a reference of the same type from the same source to the same target makes an
/// added reference a duplicate: where the source and target exist, the target's class
/// is the one given, the reference type is known, and no such reference is there,
/// adding it is answered `Good`, whatever references run from the target back to the
/// source; and a refusal as a duplicate means such a reference is there.
pub proof fn law_add_reference_duplicates(space: AddressSpaceView, can_modify: bool, item: AddReferencesItem)
    ensures
        ({
            let source = item.source_node_id@;
            let target = item.target_node_id.node_id@;
            let known = reference_type_id_of(item.reference_type_id@);
            &&& (can_modify && item.target_server_uri is None && item.target_node_id.server_index == 0
                && space.nodes.dom().contains(source) && space.nodes.dom().contains(target)
                && item.target_node_class != NodeClass::Unspecified
                && space.nodes[target].node_class == item.target_node_class
                && known is Some
                && !space.references.contains(ReferenceView { source, target, reference_type: ns0_node(known->0) })
                ==> add_reference_status(space, can_modify, item) == StatusCode::Good)
            &&& (add_reference_status(space, can_modify, item) == StatusCode::BadDuplicateReferenceNotAllowed
                ==> known is Some && space.references.contains(ReferenceView { source, target, reference_type: ns0_node(known->0) }))
        }),
{
}

/// The standard hierarchical reference types: HierarchicalReferences (33), HasChild
/// (34), Organizes (35), HasEventSource (36), Aggregates (44), HasSubtype (45),
/// HasProperty (46), HasComponent (47), HasNotifier (48), HasOrderedComponent (49),
/// HasHistoricalConfiguration (56), HasArgumentDescription (129),
/// HasOptionalInputArgumentDescription (131), HasPubSubConnection (14476),
/// DataSetToWriter (14936), HasGuard (15112), HasDataSetWriter (15296),
/// HasDataSetReader (15297), HasAlarmSuppressionGroup (16361), AlarmGroupMember
/// (16362), HasAddIn (17604), HasWriterGroup (18804), HasReaderGroup (18805).
pub open spec fn standard_hierarchical(t: u32) -> bool {
    t == 33 || t == 34 || t == 35 || t == 36 || t == 44 || t == 45 || t == 46 || t == 47 || t == 48
        || t == 49 || t == 56 || t == 129 || t == 131 || t == 14476 || t == 14936 || t == 15112
        || t == 15296 || t == 15297 || t == 16361 || t == 16362 || t == 17604 || t == 18804 || t == 18805
}

/// The standard non-hierarchical reference types: NonHierarchicalReferences (32),
/// HasModellingRule (37), HasEncoding (38), HasDescription (39), HasTypeDefinition (40),
/// GeneratesEvent (41), FromState (51), ToState (52), HasCause (53), HasEffect (54),
/// HasSubStateMachine (117), AlwaysGeneratesEvent (3065), HasTrueSubState (9004),
/// HasFalseSubState (9005), HasCondition (9006), HasEffectDisable (17276),
/// HasDictionaryEntry (17597), HasInterface (17603), HasEffectEnable (17983),
/// HasEffectSuppressed (17984), HasEffectUnsuppressed (17985), AliasFor (23469).
pub open spec fn standard_non_hierarchical(t: u32) -> bool {
    t == 32 || t == 37 || t == 38 || t == 39 || t == 40 || t == 41 || t == 51 || t == 52 || t == 53
        || t == 54 || t == 117 || t == 3065 || t == 9004 || t == 9005 || t == 9006 || t == 17276
        || t == 17597 || t == 17603 || t == 17983 || t == 17984 || t == 17985 || t == 23469
}

/// The reference type hierarchy is the standard one: a type is a hierarchical reference
/// exactly when it is one of the standard hierarchical types, a non-hierarchical one
/// exactly when it is one of the standard non-hierarchical types, and a reference at all
/// when it is References (31) or either of those. HasSubtype in particular derives from
/// HasChild, so a forward hierarchical step with subtypes follows it.
pub proof fn law_reference_type_hierarchy(t: u32)
    ensures
        is_subtype_of(t, 33) <==> standard_hierarchical(t),
        is_subtype_of(t, 32) <==> standard_non_hierarchical(t),
        is_subtype_of(t, 31) <==> t == 31 || standard_hierarchical(t) || standard_non_hierarchical(t),
        supertype(45) == Some(34u32),
{
    reveal_with_fuel(is_subtype_of, 8);
}

/// Deleting a node keeps exactly the references that neither start at it nor, where
/// references to it go too, end at it, comparing whole node ids (namespace included),
/// whether or not the node was there; the other nodes stay.
pub proof fn law_delete_node_references(space: AddressSpaceView, id: NodeIdView, delete_target_references: bool, r: ReferenceView)
    ensures
        space.references_without(id, delete_target_references).contains(r) <==> (space.references.contains(r)
            && r.source != id && (!delete_target_references || r.target != id)),
{
}

/// The delete nodes service, for an item allowed to modify the address space, removes
/// the node and exactly the references that start at it (and end at it, where asked),
/// by whole node ids, keeping every other node and reference.
pub proof fn law_delete_node_keeps_others(space: AddressSpaceView, item: DeleteNodesItem, r: ReferenceView, other: NodeIdView)
    ensures
        ({
            let id = item.node_id@;
            let after = delete_node_after(space, true, item);
            &&& (after.references.contains(r) <==> (space.references.contains(r) && r.source != id
                && (!item.delete_target_references || r.target != id)))
            &&& (other != id ==> (after.nodes.dom().contains(other) <==> space.nodes.dom().contains(other)))
            &&& !after.nodes.dom().contains(id)
        }),
{
}

/// A byte string is written as its 32-bit little-endian length (-1 when null) followed
/// by its bytes, unchanged.
pub proof fn law_byte_string_written_unchanged(value: Option<Seq<u8>>)
    requires
        value matches Some(b) ==> b.len() <= i32::MAX,
    ensures
        match value {
            None => byte_string_bytes(value).len() == 4 && i32_at(byte_string_bytes(value), 0) == -1,
            Some(b) => byte_string_bytes(value).len() == 4 + b.len()
                && i32_at(byte_string_bytes(value), 0) == b.len()
                && byte_string_bytes(value).subrange(4, 4 + b.len() as int) == b,
        },
{
    crate::secure_channel::lemma_byte_string_roundtrip_field(value);
}

/// A byte string is read as the bytes that follow its length field, unchanged: a
/// decoded value is the `l` bytes after the four-byte length `l`, and null is length -1.
pub proof fn law_byte_string_read_unchanged(bytes: Seq<u8>, limits: DecodingLimits)
    ensures
        byte_string_decoding(bytes, limits) matches Ok((v, n)) ==> match v {
            None => n == 4 && i32_at(bytes, 0) == -1,
            Some(x) => n == 4 + x.len() && i32_at(bytes, 0) == x.len() && n <= bytes.len()
                && x == bytes.subrange(4, n as int),
        },
{
}

} // verus!
