use opcua_nodes::address_space::{AddressSpace, Node};
use opcua_nodes::attributes::ExtensionObject;
use opcua_nodes::node_id::{ExpandedNodeId, Identifier, NodeId, QualifiedName};
use opcua_nodes::node_management::{
    AddNodesItem, AddNodesRequest, AddReferencesItem, AddReferencesRequest, DeleteNodesItem, DeleteNodesRequest,
    DeleteReferencesItem, DeleteReferencesRequest, NodeManagementService, ServerState, ServiceResponse, Session,
};
use opcua_nodes::status::{NodeClass, StatusCode};
use opcua_types::{BinaryEncoder, LocalizedText, ObjectAttributes, Variant, VariableAttributes};

const OBJECTS: u32 = 85;
const BASE_OBJECT_TYPE: u32 = 58;
const BASE_DATA_VARIABLE_TYPE: u32 = 63;
const ORGANIZES: u32 = 35;
const HAS_COMPONENT: u32 = 47;
const HAS_TYPE_DEFINITION: u32 = 40;

fn qn(ns: u16, name: &str) -> QualifiedName {
    QualifiedName { namespace_index: ns, name: Some(name.to_string()) }
}

fn id(ns: u16, n: u32) -> NodeId {
    NodeId::numeric(ns, n)
}

fn local(node_id: NodeId) -> ExpandedNodeId {
    ExpandedNodeId { node_id, namespace_uri: None, server_index: 0 }
}

fn plain_node(node_id: NodeId, class: NodeClass, name: &str) -> Node {
    Node { node_id, node_class: class, browse_name: qn(0, name), attributes: Vec::new() }
}

/// Objects folder, the two base types, and one object "Existing" organized under Objects.
fn space() -> AddressSpace {
    let mut s = AddressSpace::new();
    s.insert(plain_node(id(0, OBJECTS), NodeClass::Object, "Objects"), &Vec::new());
    s.insert(plain_node(id(0, BASE_OBJECT_TYPE), NodeClass::ObjectType, "BaseObjectType"), &Vec::new());
    s.insert(plain_node(id(0, BASE_DATA_VARIABLE_TYPE), NodeClass::VariableType, "BaseDataVariableType"), &Vec::new());
    s.insert(plain_node(id(1, 500), NodeClass::Object, "Existing"), &Vec::new());
    s.insert_reference(&id(0, OBJECTS), &id(1, 500), &id(0, ORGANIZES));
    s
}

fn object_attributes(mask: u32) -> Vec<u8> {
    ObjectAttributes {
        specified_attributes: mask,
        display_name: LocalizedText::new("", "Pump"),
        description: LocalizedText::null(),
        write_mask: 0,
        user_write_mask: 0,
        event_notifier: 0,
    }
    .encode_to_vec()
}

fn variable_attributes(mask: u32) -> Vec<u8> {
    VariableAttributes {
        specified_attributes: mask,
        display_name: LocalizedText::new("", "Level"),
        description: LocalizedText::null(),
        write_mask: 0,
        user_write_mask: 0,
        value: Variant::Int32(5),
        data_type: opcua_types::NodeId::new(0, 6u32),
        value_rank: -1,
        array_dimensions: None,
        access_level: 1,
        user_access_level: 1,
        minimum_sampling_interval: 0.0,
        historizing: false,
    }
    .encode_to_vec()
}

fn object_item(requested: NodeId, name: &str) -> AddNodesItem {
    AddNodesItem {
        parent_node_id: local(id(0, OBJECTS)),
        reference_type_id: id(0, ORGANIZES),
        requested_new_node_id: local(requested),
        browse_name: qn(0, name),
        node_class: NodeClass::Object,
        node_attributes: ExtensionObject { node_id: id(0, 354), body: Some(object_attributes(0xC0)) },
        type_definition: local(id(0, BASE_OBJECT_TYPE)),
    }
}

fn allowed() -> Session {
    Session { may_modify_address_space: true }
}

fn state() -> ServerState {
    ServerState { max_nodes_per_node_management: 10 }
}

fn add_one(space: &mut AddressSpace, session: &Session, item: AddNodesItem) -> (StatusCode, NodeId) {
    let service = NodeManagementService::new();
    let request = AddNodesRequest { nodes_to_add: Some(vec![item]) };
    match service.add_nodes(&state(), session, space, &request) {
        Ok(ServiceResponse::Results(mut v)) => {
            assert_eq!(v.len(), 1);
            let r = v.remove(0);
            (r.status_code, r.added_node_id)
        },
        other => panic!("unexpected answer {:?}", other),
    }
}

fn add_one_status(item: AddNodesItem) -> StatusCode {
    let mut s = space();
    let (status, node_id) = add_one(&mut s, &allowed(), item);
    if status != StatusCode::Good {
        assert!(node_id.is_null());
    }
    status
}

#[test]
fn adds_an_object_with_a_requested_id() {
    let mut s = space();
    let (status, node_id) = add_one(&mut s, &allowed(), object_item(id(2, 100), "Pump"));
    assert_eq!(status, StatusCode::Good);
    assert!(node_id.same_as(&id(2, 100)));
    let node = s.find_node(&id(2, 100)).unwrap();
    assert_eq!(node.node_class, NodeClass::Object);
    assert!(node.browse_name.same_as(&qn(0, "Pump")));
    assert_eq!(node.attributes, object_attributes(0xC0));
    // The new node refers to its parent and to its type definition.
    assert!(s.has_reference(&id(2, 100), &id(0, OBJECTS), &id(0, ORGANIZES)));
    assert!(s.has_reference(&id(2, 100), &id(0, BASE_OBJECT_TYPE), &id(0, HAS_TYPE_DEFINITION)));
    // Adding it again is refused: the id exists.
    let (again, _) = add_one(&mut s, &allowed(), object_item(id(2, 100), "Pump"));
    assert_eq!(again, StatusCode::BadNodeIdExists);
}

#[test]
fn adds_a_variable_with_its_type() {
    let mut s = space();
    let item = AddNodesItem {
        parent_node_id: local(id(1, 500)),
        reference_type_id: id(0, HAS_COMPONENT),
        requested_new_node_id: local(id(2, 7)),
        browse_name: qn(0, "Level"),
        node_class: NodeClass::Variable,
        node_attributes: ExtensionObject { node_id: id(0, 357), body: Some(variable_attributes(0x29_0251)) },
        type_definition: local(id(0, BASE_DATA_VARIABLE_TYPE)),
    };
    let (status, _) = add_one(&mut s, &allowed(), item);
    assert_eq!(status, StatusCode::Good);
    assert!(s.has_reference(&id(2, 7), &id(1, 500), &id(0, HAS_COMPONENT)));
    assert!(s.has_reference(&id(2, 7), &id(0, BASE_DATA_VARIABLE_TYPE), &id(0, HAS_TYPE_DEFINITION)));
}

#[test]
fn generates_a_numeric_id_when_none_is_requested() {
    let mut s = space();
    let (status, node_id) = add_one(&mut s, &allowed(), object_item(NodeId::null(), "Generated"));
    assert_eq!(status, StatusCode::Good);
    assert_eq!(node_id.namespace, 1);
    assert!(matches!(node_id.identifier, Identifier::Numeric(_)));
    assert!(s.node_exists(&node_id));
}

#[test]
fn add_node_refusals() {
    let mut item = object_item(id(2, 1), "A");
    item.requested_new_node_id.server_index = 1;
    assert_eq!(add_one_status(item), StatusCode::BadNodeIdRejected);

    let mut item = object_item(id(2, 1), "A");
    item.node_class = NodeClass::Unspecified;
    assert_eq!(add_one_status(item), StatusCode::BadNodeClassInvalid);

    assert_eq!(add_one_status(object_item(id(1, 500), "A")), StatusCode::BadNodeIdExists);

    let mut item = object_item(id(2, 1), "A");
    item.browse_name = QualifiedName { namespace_index: 0, name: None };
    assert_eq!(add_one_status(item), StatusCode::BadBrowseNameInvalid);
    assert_eq!(add_one_status(object_item(id(2, 1), "")), StatusCode::BadBrowseNameInvalid);

    // "Existing" is organized under Objects already.
    assert_eq!(add_one_status(object_item(id(2, 1), "Existing")), StatusCode::BadBrowseNameDuplicated);

    let mut item = object_item(id(2, 1), "A");
    item.reference_type_id = id(0, 9999);
    assert_eq!(add_one_status(item), StatusCode::BadReferenceTypeIdInvalid);
    let mut item = object_item(id(2, 1), "A");
    item.reference_type_id = id(2, ORGANIZES);
    assert_eq!(add_one_status(item), StatusCode::BadReferenceTypeIdInvalid);

    let mut item = object_item(id(2, 1), "A");
    item.type_definition = local(id(0, BASE_DATA_VARIABLE_TYPE));
    assert_eq!(add_one_status(item), StatusCode::BadTypeDefinitionInvalid);
    let mut item = object_item(id(2, 1), "A");
    item.type_definition = local(NodeId::null());
    assert_eq!(add_one_status(item), StatusCode::BadTypeDefinitionInvalid);

    let mut item = object_item(id(2, 1), "A");
    item.parent_node_id = local(id(3, 3));
    assert_eq!(add_one_status(item), StatusCode::BadParentNodeIdInvalid);
    let mut item = object_item(id(2, 1), "A");
    item.parent_node_id.server_index = u32::MAX;
    assert_eq!(add_one_status(item), StatusCode::BadParentNodeIdInvalid);
    // Any other server index of the parent passes this check.
    let mut item = object_item(id(2, 1), "A");
    item.parent_node_id.server_index = 3;
    assert_eq!(add_one_status(item), StatusCode::Good);

    // Attributes for another class, missing mandatory attributes, or not decodable.
    let mut item = object_item(id(2, 1), "A");
    item.node_attributes.node_id = id(0, 357);
    assert_eq!(add_one_status(item), StatusCode::BadNodeAttributesInvalid);
    let mut item = object_item(id(2, 1), "A");
    item.node_attributes.body = Some(object_attributes(0x40));
    assert_eq!(add_one_status(item), StatusCode::BadNodeAttributesInvalid);
    let mut item = object_item(id(2, 1), "A");
    item.node_attributes.body = None;
    assert_eq!(add_one_status(item), StatusCode::BadNodeAttributesInvalid);
    let mut item = object_item(id(2, 1), "A");
    item.node_attributes.node_id = id(0, 1);
    assert_eq!(add_one_status(item), StatusCode::BadNodeAttributesInvalid);
}

#[test]
fn refused_add_leaves_the_space_alone() {
    let mut s = space();
    let mut item = object_item(id(2, 1), "A");
    item.type_definition = local(NodeId::null());
    let (status, _) = add_one(&mut s, &allowed(), item);
    assert_eq!(status, StatusCode::BadTypeDefinitionInvalid);
    assert!(!s.node_exists(&id(2, 1)));
}

#[test]
fn denied_session_changes_nothing() {
    let mut s = space();
    let denied = Session { may_modify_address_space: false };
    let (status, node_id) = add_one(&mut s, &denied, object_item(id(2, 1), "A"));
    assert_eq!(status, StatusCode::BadUserAccessDenied);
    assert!(node_id.is_null());
    assert!(!s.node_exists(&id(2, 1)));
    let service = NodeManagementService::new();
    let request = DeleteNodesRequest { nodes_to_delete: Some(vec![DeleteNodesItem { node_id: id(1, 500), delete_target_references: true }]) };
    match service.delete_nodes(&state(), &denied, &mut s, &request) {
        ServiceResponse::Results(v) => assert_eq!(v, vec![StatusCode::BadUserAccessDenied]),
        other => panic!("unexpected answer {:?}", other),
    }
    assert!(s.node_exists(&id(1, 500)));
}

#[test]
fn add_nodes_batch_faults() {
    let service = NodeManagementService::new();
    let mut s = space();
    let none = AddNodesRequest { nodes_to_add: None };
    assert!(matches!(service.add_nodes(&state(), &allowed(), &mut s, &none), Ok(ServiceResponse::Fault(StatusCode::BadNothingToDo))));
    let empty = AddNodesRequest { nodes_to_add: Some(Vec::new()) };
    assert!(matches!(service.add_nodes(&state(), &allowed(), &mut s, &empty), Ok(ServiceResponse::Fault(StatusCode::BadNothingToDo))));
    let two = AddNodesRequest { nodes_to_add: Some(vec![object_item(id(2, 1), "A"), object_item(id(2, 2), "B")]) };
    let small = ServerState { max_nodes_per_node_management: 1 };
    assert!(matches!(service.add_nodes(&small, &allowed(), &mut s, &two), Ok(ServiceResponse::Fault(StatusCode::BadTooManyOperations))));
    assert!(!s.node_exists(&id(2, 1)));
    match service.add_nodes(&state(), &allowed(), &mut s, &two) {
        Ok(ServiceResponse::Results(v)) => {
            assert_eq!(v.len(), 2);
            assert_eq!(v[0].status_code, StatusCode::Good);
            assert_eq!(v[1].status_code, StatusCode::Good);
        },
        other => panic!("unexpected answer {:?}", other),
    }
    assert!(s.node_exists(&id(2, 1)) && s.node_exists(&id(2, 2)));
}

#[test]
fn add_nodes_stops_at_an_unparsable_browse_path() {
    let service = NodeManagementService::new();
    let mut s = space();
    let request = AddNodesRequest {
        nodes_to_add: Some(vec![object_item(id(2, 1), "A"), object_item(id(2, 2), "Bad<Name"), object_item(id(2, 3), "C")]),
    };
    match service.add_nodes(&state(), &allowed(), &mut s, &request) {
        Err(stop) => {
            assert_eq!(stop.completed.len(), 1);
            assert_eq!(stop.completed[0].status_code, StatusCode::Good);
        },
        other => panic!("unexpected answer {:?}", other),
    }
    assert!(s.node_exists(&id(2, 1)));
    assert!(!s.node_exists(&id(2, 2)));
    assert!(!s.node_exists(&id(2, 3)));
    // A browse name outside namespace 0 does not parse either.
    let mut item = object_item(id(2, 4), "D");
    item.browse_name = qn(2, "D");
    let request = AddNodesRequest { nodes_to_add: Some(vec![item]) };
    assert!(matches!(service.add_nodes(&state(), &allowed(), &mut s, &request), Err(_)));
}

fn reference_item(source: NodeId, target: NodeId, class: NodeClass, forward: bool) -> AddReferencesItem {
    AddReferencesItem {
        source_node_id: source,
        reference_type_id: id(0, ORGANIZES),
        is_forward: forward,
        target_server_uri: None,
        target_node_id: local(target),
        target_node_class: class,
    }
}

fn add_references(s: &mut AddressSpace, session: &Session, items: Vec<AddReferencesItem>) -> Vec<StatusCode> {
    let service = NodeManagementService::new();
    match service.add_references(&state(), session, s, &AddReferencesRequest { references_to_add: Some(items) }) {
        ServiceResponse::Results(v) => v,
        other => panic!("unexpected answer {:?}", other),
    }
}

#[test]
fn adds_references_in_either_direction() {
    let mut s = space();
    let r = add_references(&mut s, &allowed(), vec![
        reference_item(id(1, 500), id(0, BASE_OBJECT_TYPE), NodeClass::ObjectType, true),
        reference_item(id(1, 500), id(0, BASE_OBJECT_TYPE), NodeClass::ObjectType, true),
        reference_item(id(0, BASE_DATA_VARIABLE_TYPE), id(1, 500), NodeClass::Object, false),
    ]);
    assert_eq!(r, vec![StatusCode::Good, StatusCode::BadDuplicateReferenceNotAllowed, StatusCode::Good]);
    assert!(s.has_reference(&id(1, 500), &id(0, BASE_OBJECT_TYPE), &id(0, ORGANIZES)));
    // Inverse: from the target to the source.
    assert!(s.has_reference(&id(1, 500), &id(0, BASE_DATA_VARIABLE_TYPE), &id(0, ORGANIZES)));
    assert!(!s.has_reference(&id(0, BASE_DATA_VARIABLE_TYPE), &id(1, 500), &id(0, ORGANIZES)));
}

#[test]
fn add_reference_refusals() {
    let mut s = space();
    let mut uri = reference_item(id(1, 500), id(0, OBJECTS), NodeClass::Object, true);
    uri.target_server_uri = Some(String::new());
    let mut remote = reference_item(id(1, 500), id(0, OBJECTS), NodeClass::Object, true);
    remote.target_node_id.server_index = 2;
    let mut bad_type = reference_item(id(1, 500), id(0, OBJECTS), NodeClass::Object, true);
    bad_type.reference_type_id = id(0, 9999);
    let r = add_references(&mut s, &allowed(), vec![
        uri,
        remote,
        reference_item(id(9, 9), id(0, OBJECTS), NodeClass::Object, true),
        reference_item(id(1, 500), id(9, 9), NodeClass::Object, true),
        reference_item(id(1, 500), id(0, OBJECTS), NodeClass::Unspecified, true),
        reference_item(id(1, 500), id(0, OBJECTS), NodeClass::Variable, true),
        bad_type,
        // Objects already organizes Existing.
        reference_item(id(0, OBJECTS), id(1, 500), NodeClass::Object, true),
    ]);
    assert_eq!(r, vec![
        StatusCode::BadServerUriInvalid,
        StatusCode::BadReferenceLocalOnly,
        StatusCode::BadSourceNodeIdInvalid,
        StatusCode::BadTargetNodeIdInvalid,
        StatusCode::BadNodeClassInvalid,
        StatusCode::BadNodeClassInvalid,
        StatusCode::BadReferenceTypeIdInvalid,
        StatusCode::BadDuplicateReferenceNotAllowed,
    ]);
    let denied = add_references(&mut s, &Session { may_modify_address_space: false }, vec![
        reference_item(id(1, 500), id(0, OBJECTS), NodeClass::Object, true),
    ]);
    assert_eq!(denied, vec![StatusCode::BadUserAccessDenied]);
    assert!(!s.has_reference(&id(1, 500), &id(0, OBJECTS), &id(0, ORGANIZES)));
}

#[test]
fn reference_batch_faults() {
    let service = NodeManagementService::new();
    let mut s = space();
    assert!(matches!(
        service.add_references(&state(), &allowed(), &mut s, &AddReferencesRequest { references_to_add: None }),
        ServiceResponse::Fault(StatusCode::BadNothingToDo)
    ));
    assert!(matches!(
        service.delete_references(&state(), &allowed(), &mut s, &DeleteReferencesRequest { references_to_delete: Some(Vec::new()) }),
        ServiceResponse::Fault(StatusCode::BadNothingToDo)
    ));
    let small = ServerState { max_nodes_per_node_management: 0 };
    let one = DeleteNodesRequest { nodes_to_delete: Some(vec![DeleteNodesItem { node_id: id(1, 500), delete_target_references: false }]) };
    assert!(matches!(service.delete_nodes(&small, &allowed(), &mut s, &one), ServiceResponse::Fault(StatusCode::BadTooManyOperations)));
    assert!(s.node_exists(&id(1, 500)));
}

#[test]
fn deletes_nodes() {
    let service = NodeManagementService::new();
    let mut s = space();
    let request = DeleteNodesRequest {
        nodes_to_delete: Some(vec![
            DeleteNodesItem { node_id: id(1, 500), delete_target_references: true },
            DeleteNodesItem { node_id: id(1, 500), delete_target_references: true },
        ]),
    };
    match service.delete_nodes(&state(), &allowed(), &mut s, &request) {
        ServiceResponse::Results(v) => assert_eq!(v, vec![StatusCode::Good, StatusCode::BadNodeIdUnknown]),
        other => panic!("unexpected answer {:?}", other),
    }
    assert!(!s.node_exists(&id(1, 500)));
    assert!(!s.has_reference(&id(0, OBJECTS), &id(1, 500), &id(0, ORGANIZES)));
}

#[test]
fn delete_then_add_again() {
    let service = NodeManagementService::new();
    let mut s = space();
    let (status, _) = add_one(&mut s, &allowed(), object_item(id(2, 100), "Pump"));
    assert_eq!(status, StatusCode::Good);
    let request = DeleteNodesRequest { nodes_to_delete: Some(vec![DeleteNodesItem { node_id: id(2, 100), delete_target_references: false }]) };
    assert!(matches!(service.delete_nodes(&state(), &allowed(), &mut s, &request), ServiceResponse::Results(_)));
    assert!(!s.node_exists(&id(2, 100)));
    let (again, _) = add_one(&mut s, &allowed(), object_item(id(2, 100), "Pump"));
    assert_eq!(again, StatusCode::Good);
}

fn delete_reference_item(source: NodeId, target: NodeId, forward: bool, both: bool) -> DeleteReferencesItem {
    DeleteReferencesItem {
        source_node_id: source,
        reference_type_id: id(0, ORGANIZES),
        is_forward: forward,
        target_node_id: local(target),
        delete_bidirectional: both,
    }
}

fn delete_references(s: &mut AddressSpace, items: Vec<DeleteReferencesItem>) -> Vec<StatusCode> {
    let service = NodeManagementService::new();
    match service.delete_references(&state(), &allowed(), s, &DeleteReferencesRequest { references_to_delete: Some(items) }) {
        ServiceResponse::Results(v) => v,
        other => panic!("unexpected answer {:?}", other),
    }
}

#[test]
fn deletes_references_by_direction() {
    let mut s = space();
    let objects = id(0, OBJECTS);
    let existing = id(1, 500);
    let organizes = id(0, ORGANIZES);
    s.insert_reference(&existing, &objects, &organizes);
    // Inverse: from the target to the source.
    assert_eq!(delete_references(&mut s, vec![delete_reference_item(objects.duplicate(), existing.duplicate(), false, false)]), vec![StatusCode::Good]);
    assert!(s.has_reference(&objects, &existing, &organizes));
    assert!(!s.has_reference(&existing, &objects, &organizes));
    // Forward.
    assert_eq!(delete_references(&mut s, vec![delete_reference_item(objects.duplicate(), existing.duplicate(), true, false)]), vec![StatusCode::Good]);
    assert!(!s.has_reference(&objects, &existing, &organizes));
    // Both directions; a missing reference is still answered Good.
    s.insert_reference(&existing, &objects, &organizes);
    s.insert_reference(&objects, &existing, &organizes);
    assert_eq!(delete_references(&mut s, vec![delete_reference_item(existing.duplicate(), objects.duplicate(), true, true)]), vec![StatusCode::Good]);
    assert!(!s.has_reference(&objects, &existing, &organizes));
    assert!(!s.has_reference(&existing, &objects, &organizes));
}

#[test]
fn delete_reference_refusals() {
    let mut s = space();
    let mut remote = delete_reference_item(id(0, OBJECTS), id(1, 500), true, false);
    remote.target_node_id.server_index = 1;
    let mut bad_type = delete_reference_item(id(0, OBJECTS), id(1, 500), true, false);
    bad_type.reference_type_id = id(0, 9999);
    let r = delete_references(&mut s, vec![
        remote,
        delete_reference_item(NodeId::null(), id(1, 500), true, false),
        delete_reference_item(id(7, 7), id(1, 500), true, false),
        delete_reference_item(id(0, OBJECTS), NodeId::null(), true, false),
        delete_reference_item(id(0, OBJECTS), id(7, 7), true, false),
        bad_type,
    ]);
    assert_eq!(r, vec![
        StatusCode::BadReferenceLocalOnly,
        StatusCode::BadSourceNodeIdInvalid,
        StatusCode::BadSourceNodeIdInvalid,
        StatusCode::BadTargetNodeIdInvalid,
        StatusCode::BadTargetNodeIdInvalid,
        StatusCode::BadReferenceTypeIdInvalid,
    ]);
    assert!(s.has_reference(&id(0, OBJECTS), &id(1, 500), &id(0, ORGANIZES)));
    let service = NodeManagementService::new();
    let request = DeleteReferencesRequest { references_to_delete: Some(vec![delete_reference_item(id(0, OBJECTS), id(1, 500), true, false)]) };
    match service.delete_references(&state(), &Session { may_modify_address_space: false }, &mut s, &request) {
        ServiceResponse::Results(v) => assert_eq!(v, vec![StatusCode::BadUserAccessDenied]),
        other => panic!("unexpected answer {:?}", other),
    }
    assert!(s.has_reference(&id(0, OBJECTS), &id(1, 500), &id(0, ORGANIZES)));
}

#[test]
fn deleting_a_reference_twice_answers_the_same() {
    let mut s = space();
    let objects = id(0, OBJECTS);
    let existing = id(1, 500);
    let organizes = id(0, ORGANIZES);
    let first = delete_references(&mut s, vec![delete_reference_item(objects.duplicate(), existing.duplicate(), true, false)]);
    let second = delete_references(&mut s, vec![delete_reference_item(objects.duplicate(), existing.duplicate(), true, false)]);
    assert_eq!(first, vec![StatusCode::Good]);
    assert_eq!(second, first);
    assert!(!s.has_reference(&objects, &existing, &organizes));
    assert!(s.node_exists(&objects) && s.node_exists(&existing));
    // A refused deletion is refused the same way again.
    let refused = delete_references(&mut s, vec![delete_reference_item(id(7, 7), existing.duplicate(), true, false)]);
    let again = delete_references(&mut s, vec![delete_reference_item(id(7, 7), existing.duplicate(), true, false)]);
    assert_eq!(refused, vec![StatusCode::BadSourceNodeIdInvalid]);
    assert_eq!(again, refused);
}

#[test]
fn deleting_a_reference_just_added_restores_the_space() {
    let mut s = space();
    let existing = id(1, 500);
    let base_type = id(0, BASE_OBJECT_TYPE);
    let organizes = id(0, ORGANIZES);
    let objects = id(0, OBJECTS);
    let added = add_references(&mut s, &allowed(), vec![reference_item(existing.duplicate(), base_type.duplicate(), NodeClass::ObjectType, true)]);
    assert_eq!(added, vec![StatusCode::Good]);
    assert!(s.has_reference(&existing, &base_type, &organizes));
    let deleted = delete_references(&mut s, vec![delete_reference_item(existing.duplicate(), base_type.duplicate(), true, false)]);
    assert_eq!(deleted, vec![StatusCode::Good]);
    assert!(!s.has_reference(&existing, &base_type, &organizes));
    assert!(!s.has_reference(&base_type, &existing, &organizes));
    // What was there before stays.
    assert!(s.has_reference(&objects, &existing, &organizes));
    // The same backward: the reference runs from the target to the source.
    let added = add_references(&mut s, &allowed(), vec![reference_item(existing.duplicate(), base_type.duplicate(), NodeClass::ObjectType, false)]);
    assert_eq!(added, vec![StatusCode::Good]);
    assert!(s.has_reference(&base_type, &existing, &organizes));
    let deleted = delete_references(&mut s, vec![delete_reference_item(existing.duplicate(), base_type.duplicate(), false, false)]);
    assert_eq!(deleted, vec![StatusCode::Good]);
    assert!(!s.has_reference(&base_type, &existing, &organizes));
    assert!(s.has_reference(&objects, &existing, &organizes));
}

fn nested_variable_attributes(levels: usize) -> Vec<u8> {
    let mut value = Variant::Int32(5);
    for _ in 0..levels {
        value = Variant::Variant(Box::new(value));
    }
    VariableAttributes {
        specified_attributes: 0x29_0251,
        display_name: LocalizedText::new("", "Level"),
        description: LocalizedText::null(),
        write_mask: 0,
        user_write_mask: 0,
        value,
        data_type: opcua_types::NodeId::new(0, 6u32),
        value_rank: -1,
        array_dimensions: None,
        access_level: 1,
        user_access_level: 1,
        minimum_sampling_interval: 0.0,
        historizing: false,
    }
    .encode_to_vec()
}

#[test]
fn variable_values_nest_within_bounds() {
    let item = |levels: usize, requested: u32| AddNodesItem {
        parent_node_id: local(id(1, 500)),
        reference_type_id: id(0, HAS_COMPONENT),
        requested_new_node_id: local(id(2, requested)),
        browse_name: qn(0, "Level"),
        node_class: NodeClass::Variable,
        node_attributes: ExtensionObject { node_id: id(0, 357), body: Some(nested_variable_attributes(levels)) },
        type_definition: local(id(0, BASE_DATA_VARIABLE_TYPE)),
    };
    // A variant nested as deep as decoding is given is accepted.
    assert_eq!(add_one_status(item(128, 8)), StatusCode::Good);
    // One level more is refused before it is decoded.
    assert_eq!(add_one_status(item(129, 9)), StatusCode::BadNodeAttributesInvalid);
}

#[test]
fn a_batch_of_deletions_run_twice_answers_the_same() {
    let mut s = space();
    let objects = id(0, OBJECTS);
    let existing = id(1, 500);
    let organizes = id(0, ORGANIZES);
    s.insert_reference(&existing, &objects, &organizes);
    let batch = || vec![
        delete_reference_item(objects.duplicate(), existing.duplicate(), true, true),
        delete_reference_item(id(7, 7), existing.duplicate(), true, false),
        delete_reference_item(objects.duplicate(), existing.duplicate(), false, false),
    ];
    let first = delete_references(&mut s, batch());
    let second = delete_references(&mut s, batch());
    assert_eq!(first, vec![StatusCode::Good, StatusCode::BadSourceNodeIdInvalid, StatusCode::Good]);
    assert_eq!(second, first);
    assert!(!s.has_reference(&objects, &existing, &organizes));
    assert!(!s.has_reference(&existing, &objects, &organizes));
}
