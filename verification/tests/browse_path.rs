use opcua_nodes::browse_path::browse_name_path;
use opcua_nodes::node_id::{NodeId, QualifiedName};

fn qn(ns: u16, name: &str) -> QualifiedName {
    QualifiedName { namespace_index: ns, name: Some(name.to_string()) }
}

#[test]
fn namespace_zero_name_is_one_hierarchical_step() {
    let steps = browse_name_path(&qn(0, "Boiler")).unwrap();
    assert_eq!(steps.len(), 1);
    assert!(steps[0].reference_type.same_as(&NodeId::numeric(0, 33)));
    assert!(!steps[0].is_inverse);
    assert!(steps[0].include_subtypes);
    assert!(steps[0].target_name.same_as(&qn(0, "Boiler")));
}

#[test]
fn dotted_name_splits_into_aggregate_step() {
    let steps = browse_name_path(&qn(0, "Block.Output")).unwrap();
    assert_eq!(steps.len(), 2);
    assert!(steps[0].reference_type.same_as(&NodeId::numeric(0, 33)));
    assert!(steps[0].target_name.same_as(&qn(0, "Block")));
    assert!(steps[1].reference_type.same_as(&NodeId::numeric(0, 44)));
    assert!(steps[1].target_name.same_as(&qn(0, "Output")));
}

#[test]
fn names_whose_path_does_not_parse() {
    // A name outside namespace 0 is formatted without a reference type and does not parse.
    assert!(browse_name_path(&qn(2, "Boiler")).is_none());
    assert!(browse_name_path(&qn(65535, "Boiler")).is_none());
    // An unterminated reference type does not parse.
    assert!(browse_name_path(&qn(0, "a<b")).is_none());
    // A path segment over 256 characters is refused.
    let long = "x".repeat(300);
    assert!(browse_name_path(&qn(0, &long)).is_none());
}
