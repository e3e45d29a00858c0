use opcua_nodes::nesting::value_nesting_check;
use opcua_nodes::attributes::{check_attributes_nesting, check_mask, decode_attributes, mandatory_attributes_of, ALL_ATTRIBUTES};
use opcua_nodes::status::NodeClass;
use opcua_types::{
    BinaryEncoder, DataTypeAttributes, LocalizedText, MethodAttributes, NodeId, ObjectAttributes, ObjectTypeAttributes,
    ReferenceTypeAttributes, VariableAttributes, VariableTypeAttributes, Variant, ViewAttributes,
};

fn object_attributes(mask: u32) -> Vec<u8> {
    ObjectAttributes {
        specified_attributes: mask,
        display_name: LocalizedText::new("", "Pump"),
        description: LocalizedText::null(),
        write_mask: 0,
        user_write_mask: 0,
        event_notifier: 0,
    }
    .encode_to_vec()
}

#[test]
fn mandatory_attribute_masks() {
    assert_eq!(mandatory_attributes_of(NodeClass::Object), 0xC0);
    assert_eq!(mandatory_attributes_of(NodeClass::Variable), 0x29_0251);
    assert_eq!(mandatory_attributes_of(NodeClass::Method), 0x2_0140);
    assert_eq!(mandatory_attributes_of(NodeClass::ObjectType), 0x840);
    assert_eq!(mandatory_attributes_of(NodeClass::VariableType), 0x8_0840);
    assert_eq!(mandatory_attributes_of(NodeClass::ReferenceType), 0x8840);
    assert_eq!(mandatory_attributes_of(NodeClass::DataType), 0x840);
    assert_eq!(mandatory_attributes_of(NodeClass::View), 0xC8);
    assert_eq!(mandatory_attributes_of(NodeClass::Unspecified), 0);
    assert_eq!(ALL_ATTRIBUTES, 0x3F_9FFB);
}

#[test]
fn masks_need_known_and_mandatory_bits() {
    assert!(check_mask(NodeClass::Object, 0xC0));
    assert!(check_mask(NodeClass::Object, 0xE0));
    assert!(!check_mask(NodeClass::Object, 0x40));
    // Bit 2 (browse name) is not an attribute that can be specified.
    assert!(!check_mask(NodeClass::Object, 0xC4));
    assert!(!check_mask(NodeClass::Object, 0x8000_00C0));
    assert!(check_mask(NodeClass::View, 0xC8));
    assert!(!check_mask(NodeClass::View, 0xC0));
}

#[test]
fn decoding_attribute_bodies() {
    let body = Some(object_attributes(0xC0));
    assert_eq!(decode_attributes(NodeClass::Object, &body), Ok(0xC0));
    assert_eq!(decode_attributes(NodeClass::Object, &Some(object_attributes(0x1234))), Ok(0x1234));
    assert_eq!(decode_attributes(NodeClass::Object, &None), Err(0x8007_0000));
    assert_eq!(decode_attributes(NodeClass::Object, &Some(vec![1, 2])), Err(0x8007_0000));
    let type_body = ObjectTypeAttributes {
        specified_attributes: 0x840,
        display_name: LocalizedText::new("", "PumpType"),
        description: LocalizedText::null(),
        write_mask: 0,
        user_write_mask: 0,
        is_abstract: false,
    }
    .encode_to_vec();
    assert_eq!(decode_attributes(NodeClass::ObjectType, &Some(type_body)), Ok(0x840));
}

fn text(s: &str) -> LocalizedText {
    LocalizedText::new("", s)
}

#[test]
fn decoding_every_attribute_structure() {
    let method = MethodAttributes {
        specified_attributes: 0x2_0140,
        display_name: text("Start"),
        description: text(""),
        write_mask: 0,
        user_write_mask: 0,
        executable: true,
        user_executable: true,
    }
    .encode_to_vec();
    assert_eq!(decode_attributes(NodeClass::Method, &Some(method)), Ok(0x2_0140));
    let variable = VariableAttributes {
        specified_attributes: 0x29_0251,
        display_name: text("Level"),
        description: text(""),
        write_mask: 0,
        user_write_mask: 0,
        value: Variant::Boolean(true),
        data_type: NodeId::new(0, 1u32),
        value_rank: -1,
        array_dimensions: None,
        access_level: 1,
        user_access_level: 1,
        minimum_sampling_interval: 100.0,
        historizing: false,
    }
    .encode_to_vec();
    assert_eq!(decode_attributes(NodeClass::Variable, &Some(variable)), Ok(0x29_0251));
    let variable_type = VariableTypeAttributes {
        specified_attributes: 0x8_0840,
        display_name: text("LevelType"),
        description: text(""),
        write_mask: 0,
        user_write_mask: 0,
        value: Variant::Empty,
        data_type: NodeId::new(0, 1u32),
        value_rank: -1,
        array_dimensions: None,
        is_abstract: false,
    }
    .encode_to_vec();
    assert_eq!(decode_attributes(NodeClass::VariableType, &Some(variable_type)), Ok(0x8_0840));
    let reference_type = ReferenceTypeAttributes {
        specified_attributes: 0x8840,
        display_name: text("Feeds"),
        description: text(""),
        write_mask: 0,
        user_write_mask: 0,
        is_abstract: false,
        symmetric: false,
        inverse_name: text("FedBy"),
    }
    .encode_to_vec();
    assert_eq!(decode_attributes(NodeClass::ReferenceType, &Some(reference_type)), Ok(0x8840));
    let data_type = DataTypeAttributes {
        specified_attributes: 0x840,
        display_name: text("Reading"),
        description: text(""),
        write_mask: 0,
        user_write_mask: 0,
        is_abstract: true,
    }
    .encode_to_vec();
    assert_eq!(decode_attributes(NodeClass::DataType, &Some(data_type)), Ok(0x840));
    let view = ViewAttributes {
        specified_attributes: 0xC8,
        display_name: text("Plant"),
        description: text(""),
        write_mask: 0,
        user_write_mask: 0,
        contains_no_loops: true,
        event_notifier: 0,
    }
    .encode_to_vec();
    assert_eq!(decode_attributes(NodeClass::View, &Some(view)), Ok(0xC8));
    // A body too short for the structure does not decode.
    assert_eq!(decode_attributes(NodeClass::View, &Some(vec![0xC8, 0, 0, 0])), Err(0x8007_0000));
}

#[test]
fn value_nesting_is_bounded() {
    let links = |n: usize| {
        let mut b = vec![0x18u8; n];
        b.push(0);
        b
    };
    assert!(value_nesting_check(&links(128)));
    assert!(!value_nesting_check(&links(129)));
    // The array bits do not hide a link: a data value inside an array counts too.
    assert!(!value_nesting_check(&[vec![0x97u8; 129], vec![0]].concat()));
    // A diagnostic info nested 1024 levels deep is within bounds, 1025 is not.
    let diagnostics = |n: usize| [vec![0x19u8], vec![0x40u8; n - 1], vec![0]].concat();
    assert!(value_nesting_check(&diagnostics(1024)));
    assert!(!value_nesting_check(&diagnostics(1025)));
    // Only variables and variable types hold a variant.
    assert!(!check_attributes_nesting(NodeClass::Variable, &Some(links(200))));
    assert!(!check_attributes_nesting(NodeClass::VariableType, &Some(links(200))));
    assert!(check_attributes_nesting(NodeClass::Object, &Some(links(200))));
    assert!(check_attributes_nesting(NodeClass::Variable, &None));
}
