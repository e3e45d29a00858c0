use opcua_nodes::node_id::{ExpandedNodeId, Identifier, NodeId, QualifiedName};
use opcua_nodes::reference_type::{subtype_check, supertype_of};

#[test]
fn null_node_id_is_numeric_zero_in_namespace_zero() {
    assert!(NodeId::null().is_null());
    assert!(NodeId::numeric(0, 0).is_null());
    assert!(!NodeId::numeric(1, 0).is_null());
    assert!(!NodeId::numeric(0, 1).is_null());
    let s = NodeId { namespace: 0, identifier: Identifier::String(None) };
    assert!(!s.is_null());
}

#[test]
fn node_ids_compare_by_value() {
    let a = NodeId { namespace: 2, identifier: Identifier::String(Some("Pump".to_string())) };
    let b = NodeId { namespace: 2, identifier: Identifier::String(Some("Pump".to_string())) };
    let c = NodeId { namespace: 3, identifier: Identifier::String(Some("Pump".to_string())) };
    let d = NodeId { namespace: 2, identifier: Identifier::String(None) };
    assert!(a.same_as(&b));
    assert!(!a.same_as(&c));
    assert!(!a.same_as(&d));
    let g1 = NodeId { namespace: 1, identifier: Identifier::Guid([7u8; 16]) };
    let mut bytes = [7u8; 16];
    bytes[15] = 8;
    let g2 = NodeId { namespace: 1, identifier: Identifier::Guid(bytes) };
    assert!(g1.same_as(&g1.duplicate()));
    assert!(!g1.same_as(&g2));
    let b1 = NodeId { namespace: 1, identifier: Identifier::ByteString(Some(vec![1, 2, 3])) };
    let b2 = NodeId { namespace: 1, identifier: Identifier::ByteString(Some(vec![1, 2])) };
    assert!(!b1.same_as(&b2));
    assert!(b1.same_as(&b1.duplicate()));
    assert!(!NodeId::numeric(1, 5).same_as(&b1));
}

#[test]
fn expanded_and_qualified_null() {
    let e = ExpandedNodeId { node_id: NodeId::null(), namespace_uri: Some("urn:x".to_string()), server_index: 4 };
    assert!(e.is_null());
    assert!(QualifiedName { namespace_index: 0, name: None }.is_null());
    assert!(!QualifiedName { namespace_index: 1, name: None }.is_null());
    assert!(!QualifiedName { namespace_index: 0, name: Some(String::new()) }.is_null());
    let q = QualifiedName { namespace_index: 2, name: Some("Tank".to_string()) };
    assert!(q.same_as(&q.duplicate()));
    assert!(!q.same_as(&QualifiedName { namespace_index: 2, name: Some("Tanks".to_string()) }));
}

#[test]
fn reference_type_hierarchy() {
    // HasComponent is an Aggregates, a HasChild, a HierarchicalReferences, a References.
    assert!(subtype_check(47, 47));
    assert!(subtype_check(47, 44));
    assert!(subtype_check(47, 34));
    assert!(subtype_check(47, 33));
    assert!(subtype_check(47, 31));
    assert!(subtype_check(49, 47));
    assert!(subtype_check(35, 33));
    assert!(subtype_check(48, 36));
    assert!(subtype_check(3065, 41));
    assert!(subtype_check(40, 32));
    // Not across the two branches.
    assert!(!subtype_check(40, 33));
    assert!(!subtype_check(35, 32));
    assert!(!subtype_check(33, 47));
    // Unknown types only match themselves.
    assert!(subtype_check(5000, 5000));
    assert!(!subtype_check(5000, 31));
    assert_eq!(supertype_of(46), Some(44));
    assert_eq!(supertype_of(31), None);
    assert_eq!(supertype_of(56), Some(44));
}

#[test]
fn later_standard_reference_types() {
    // HasAddIn, HasWriterGroup and HasOptionalInputArgumentDescription are components.
    assert!(subtype_check(17604, 47));
    assert!(subtype_check(18804, 33));
    assert!(subtype_check(131, 129));
    assert!(subtype_check(131, 47));
    // AlarmGroupMember organizes; DataSetToWriter and HasGuard are hierarchical.
    assert!(subtype_check(16362, 35));
    assert!(subtype_check(14936, 33));
    assert!(!subtype_check(14936, 34));
    assert!(subtype_check(15112, 33));
    // The HasEffect variants, HasInterface and AliasFor are not hierarchical.
    assert!(subtype_check(17983, 54));
    assert!(subtype_check(17276, 32));
    assert!(!subtype_check(17603, 33));
    assert!(subtype_check(23469, 32));
    assert_eq!(supertype_of(17597), Some(32));
}
