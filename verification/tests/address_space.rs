use opcua_nodes::address_space::{AddressSpace, Node, NodeLink, ReferenceDirection};
use opcua_nodes::browse_path::PathStep;
use opcua_nodes::node_id::{NodeId, QualifiedName};
use opcua_nodes::status::{NodeClass, StatusCode};

fn qn(ns: u16, name: &str) -> QualifiedName {
    QualifiedName { namespace_index: ns, name: Some(name.to_string()) }
}

fn node(ns: u16, n: u32, class: NodeClass, name: &str) -> Node {
    Node { node_id: NodeId::numeric(ns, n), node_class: class, browse_name: qn(0, name), attributes: Vec::new() }
}

fn rt(n: u32) -> NodeId {
    NodeId::numeric(0, n)
}

#[test]
fn inserted_nodes_exist_once() {
    let mut space = AddressSpace::new();
    assert!(!space.node_exists(&NodeId::numeric(0, 85)));
    assert!(space.insert(node(0, 85, NodeClass::Object, "Objects"), &Vec::new()));
    assert!(space.node_exists(&NodeId::numeric(0, 85)));
    assert_eq!(space.find_node(&NodeId::numeric(0, 85)).unwrap().node_class, NodeClass::Object);
    // A second node with the same id is refused and changes nothing.
    assert!(!space.insert(node(0, 85, NodeClass::View, "Other"), &Vec::new()));
    assert_eq!(space.find_node(&NodeId::numeric(0, 85)).unwrap().node_class, NodeClass::Object);
    assert!(space.find_node(&NodeId::numeric(0, 86)).is_none());
}

#[test]
fn insert_links_forward_and_inverse() {
    let mut space = AddressSpace::new();
    space.insert(node(0, 85, NodeClass::Object, "Objects"), &Vec::new());
    let links = vec![
        NodeLink { node: NodeId::numeric(0, 85), reference_type: rt(35), direction: ReferenceDirection::Forward },
        NodeLink { node: NodeId::numeric(0, 85), reference_type: rt(47), direction: ReferenceDirection::Inverse },
    ];
    assert!(space.insert(node(1, 10, NodeClass::Object, "A"), &links));
    assert!(space.has_reference(&NodeId::numeric(1, 10), &NodeId::numeric(0, 85), &rt(35)));
    assert!(space.has_reference(&NodeId::numeric(0, 85), &NodeId::numeric(1, 10), &rt(47)));
    assert!(!space.has_reference(&NodeId::numeric(0, 85), &NodeId::numeric(1, 10), &rt(35)));
}

#[test]
fn references_are_written_read_and_removed() {
    let mut space = AddressSpace::new();
    let a = NodeId::numeric(1, 1);
    let b = NodeId::numeric(1, 2);
    space.insert_reference(&a, &b, &rt(35));
    space.insert_reference(&a, &b, &rt(35));
    assert!(space.has_reference(&a, &b, &rt(35)));
    assert!(!space.has_reference(&b, &a, &rt(35)));
    assert!(!space.has_reference(&a, &b, &rt(47)));
    assert!(space.delete_reference(&a, &b, &rt(35)));
    assert!(!space.has_reference(&a, &b, &rt(35)));
    assert!(!space.delete_reference(&a, &b, &rt(35)));
}

#[test]
fn deleting_a_node_removes_its_references() {
    let mut space = AddressSpace::new();
    space.insert(node(1, 1, NodeClass::Object, "A"), &Vec::new());
    space.insert(node(1, 2, NodeClass::Object, "B"), &Vec::new());
    let a = NodeId::numeric(1, 1);
    let b = NodeId::numeric(1, 2);
    space.insert_reference(&a, &b, &rt(35));
    space.insert_reference(&b, &a, &rt(35));
    // Without target references: the reference to the node stays.
    assert!(space.delete_node(&a, false));
    assert!(!space.node_exists(&a));
    assert!(!space.has_reference(&a, &b, &rt(35)));
    assert!(space.has_reference(&b, &a, &rt(35)));
    assert!(!space.delete_node(&a, false));
    // With target references it goes too.
    assert!(!space.delete_node(&a, true));
    assert!(!space.has_reference(&b, &a, &rt(35)));
    assert!(space.node_exists(&b));
}

#[test]
fn type_definitions_by_class() {
    let mut space = AddressSpace::new();
    space.insert(node(0, 58, NodeClass::ObjectType, "BaseObjectType"), &Vec::new());
    space.insert(node(0, 63, NodeClass::VariableType, "BaseDataVariableType"), &Vec::new());
    assert!(space.is_valid_type_definition(NodeClass::Object, &NodeId::numeric(0, 58)));
    assert!(!space.is_valid_type_definition(NodeClass::Object, &NodeId::numeric(0, 63)));
    assert!(!space.is_valid_type_definition(NodeClass::Object, &NodeId::null()));
    assert!(!space.is_valid_type_definition(NodeClass::Object, &NodeId::numeric(0, 99)));
    assert!(space.is_valid_type_definition(NodeClass::Variable, &NodeId::numeric(0, 63)));
    assert!(!space.is_valid_type_definition(NodeClass::Variable, &NodeId::numeric(0, 58)));
    assert!(space.is_valid_type_definition(NodeClass::Method, &NodeId::null()));
    assert!(!space.is_valid_type_definition(NodeClass::Method, &NodeId::numeric(0, 58)));
    space.set_node_type(&NodeId::numeric(1, 7), &NodeId::numeric(0, 58));
    assert!(space.has_reference(&NodeId::numeric(1, 7), &NodeId::numeric(0, 58), &rt(40)));
}

fn step(reference_type: u32, inverse: bool, subtypes: bool, name: &str) -> PathStep {
    PathStep { reference_type: rt(reference_type), is_inverse: inverse, include_subtypes: subtypes, target_name: qn(0, name) }
}

#[test]
fn relative_paths_follow_typed_references() {
    let mut space = AddressSpace::new();
    space.insert(node(0, 85, NodeClass::Object, "Objects"), &Vec::new());
    space.insert(node(1, 1, NodeClass::Object, "Boiler"), &Vec::new());
    space.insert(node(1, 2, NodeClass::Variable, "Temp"), &Vec::new());
    space.insert_reference(&NodeId::numeric(0, 85), &NodeId::numeric(1, 1), &rt(35));
    space.insert_reference(&NodeId::numeric(1, 1), &NodeId::numeric(1, 2), &rt(47));
    let objects = NodeId::numeric(0, 85);

    // Organizes is a hierarchical reference, HasComponent an aggregate.
    let found = space.find_nodes_relative_path(&objects, &vec![step(33, false, true, "Boiler"), step(44, false, true, "Temp")]).unwrap();
    assert_eq!(found.len(), 1);
    assert!(found[0].same_as(&NodeId::numeric(1, 2)));

    // Without subtypes only the exact type is followed.
    let found = space.find_nodes_relative_path(&objects, &vec![step(33, false, false, "Boiler")]).unwrap();
    assert!(found.is_empty());
    let found = space.find_nodes_relative_path(&objects, &vec![step(35, false, false, "Boiler")]).unwrap();
    assert_eq!(found.len(), 1);

    // The name must match.
    let found = space.find_nodes_relative_path(&objects, &vec![step(33, false, true, "Pump")]).unwrap();
    assert!(found.is_empty());

    // Inverse steps walk back to the source.
    let found = space.find_nodes_relative_path(&NodeId::numeric(1, 2), &vec![step(47, true, false, "Boiler")]).unwrap();
    assert_eq!(found.len(), 1);
    assert!(found[0].same_as(&NodeId::numeric(1, 1)));

    // No steps: the start itself.
    let found = space.find_nodes_relative_path(&objects, &Vec::new()).unwrap();
    assert_eq!(found.len(), 1);

    // An unknown start node.
    assert_eq!(space.find_nodes_relative_path(&NodeId::numeric(5, 5), &Vec::new()).unwrap_err(), StatusCode::BadNodeIdUnknown);
}
