use vstd::prelude::*;
use crate::node_id::{NodeId, opt_bytes_view};
use crate::status::{BAD_DECODING_ERROR, NodeClass};
use crate::nesting::{value_nesting_bounded, value_nesting_check};
use crate::standard_ids::{
    OBJECT_ATTRIBUTES_ENCODING, VARIABLE_ATTRIBUTES_ENCODING, METHOD_ATTRIBUTES_ENCODING,
    OBJECT_TYPE_ATTRIBUTES_ENCODING, VARIABLE_TYPE_ATTRIBUTES_ENCODING, REFERENCE_TYPE_ATTRIBUTES_ENCODING,
    DATA_TYPE_ATTRIBUTES_ENCODING, VIEW_ATTRIBUTES_ENCODING,
};
use opcua_types::{
    ByteString, DataTypeAttributes, DecodingOptions, ExtensionObject as UaExtensionObject,
    ExtensionObjectEncoding, MethodAttributes, NodeId as UaNodeId, ObjectAttributes,
    ObjectTypeAttributes, ReferenceTypeAttributes, VariableAttributes, VariableTypeAttributes,
    ViewAttributes,
};

verus! {

/// An extension object: the node id of its encoding and, where it carries one, the
/// binary body (`None` for no body, an XML body or a null byte string).
#[derive(Debug)]
pub struct ExtensionObject {
    pub node_id: NodeId,
    pub body: Option<Vec<u8>>,
}

// Bits of the mask of specified attributes.
pub const ACCESS_LEVEL: u32 = 1;
pub const ARRAY_DIMENSIONS: u32 = 1 << 1;
pub const CONTAINS_NO_LOOPS: u32 = 1 << 3;
pub const DATA_TYPE: u32 = 1 << 4;
pub const DESCRIPTION: u32 = 1 << 5;
pub const DISPLAY_NAME: u32 = 1 << 6;
pub const EVENT_NOTIFIER: u32 = 1 << 7;
pub const EXECUTABLE: u32 = 1 << 8;
pub const HISTORIZING: u32 = 1 << 9;
pub const INVERSE_NAME: u32 = 1 << 10;
pub const IS_ABSTRACT: u32 = 1 << 11;
pub const MINIMUM_SAMPLING_INTERVAL: u32 = 1 << 12;
pub const SYMMETRIC: u32 = 1 << 15;
pub const USER_ACCESS_LEVEL: u32 = 1 << 16;
pub const USER_EXECUTABLE: u32 = 1 << 17;
pub const USER_WRITE_MASK: u32 = 1 << 18;
pub const VALUE_RANK: u32 = 1 << 19;
pub const WRITE_MASK: u32 = 1 << 20;
pub const VALUE: u32 = 1 << 21;

/// Every bit that names an attribute.
pub const ALL_ATTRIBUTES: u32 = ACCESS_LEVEL | ARRAY_DIMENSIONS | CONTAINS_NO_LOOPS | DATA_TYPE | DESCRIPTION
    | DISPLAY_NAME | EVENT_NOTIFIER | EXECUTABLE | HISTORIZING | INVERSE_NAME | IS_ABSTRACT
    | MINIMUM_SAMPLING_INTERVAL | SYMMETRIC | USER_ACCESS_LEVEL | USER_EXECUTABLE | USER_WRITE_MASK
    | VALUE_RANK | WRITE_MASK | VALUE;

/// The attributes that a node of a class must be given to be created.
pub open spec fn mandatory_attributes(class: NodeClass) -> u32 {
    match class {
        NodeClass::Object => DISPLAY_NAME | EVENT_NOTIFIER,
        NodeClass::Variable => {
            DISPLAY_NAME | ACCESS_LEVEL | USER_ACCESS_LEVEL | DATA_TYPE | HISTORIZING | VALUE | VALUE_RANK
        },
        NodeClass::Method => DISPLAY_NAME | EXECUTABLE | USER_EXECUTABLE,
        NodeClass::ObjectType => DISPLAY_NAME | IS_ABSTRACT,
        NodeClass::VariableType => DISPLAY_NAME | IS_ABSTRACT | VALUE_RANK,
        NodeClass::ReferenceType => DISPLAY_NAME | IS_ABSTRACT | SYMMETRIC,
        NodeClass::DataType => DISPLAY_NAME | IS_ABSTRACT,
        NodeClass::View => DISPLAY_NAME | EVENT_NOTIFIER | CONTAINS_NO_LOOPS,
        NodeClass::Unspecified => 0,
    }
}

/// Computes [`mandatory_attributes`].
pub fn mandatory_attributes_of(class: NodeClass) -> (r: u32)
    ensures
        r == mandatory_attributes(class),
{
    match class {
        NodeClass::Object => DISPLAY_NAME | EVENT_NOTIFIER,
        NodeClass::Variable => {
            DISPLAY_NAME | ACCESS_LEVEL | USER_ACCESS_LEVEL | DATA_TYPE | HISTORIZING | VALUE | VALUE_RANK
        },
        NodeClass::Method => DISPLAY_NAME | EXECUTABLE | USER_EXECUTABLE,
        NodeClass::ObjectType => DISPLAY_NAME | IS_ABSTRACT,
        NodeClass::VariableType => DISPLAY_NAME | IS_ABSTRACT | VALUE_RANK,
        NodeClass::ReferenceType => DISPLAY_NAME | IS_ABSTRACT | SYMMETRIC,
        NodeClass::DataType => DISPLAY_NAME | IS_ABSTRACT,
        NodeClass::View => DISPLAY_NAME | EVENT_NOTIFIER | CONTAINS_NO_LOOPS,
        NodeClass::Unspecified => 0,
    }
}

/// Whether a mask of specified attributes lets a node of `class` be built: it names
/// only known attributes and holds every mandatory one of the class.
pub open spec fn mask_accepted(class: NodeClass, mask: u32) -> bool {
    mask & !ALL_ATTRIBUTES == 0 && mask & mandatory_attributes(class) == mandatory_attributes(class)
}

/// Computes [`mask_accepted`].
pub fn check_mask(class: NodeClass, mask: u32) -> (r: bool)
    ensures
        r == mask_accepted(class, mask),
{
    let mandatory = mandatory_attributes_of(class);
    mask & !ALL_ATTRIBUTES == 0 && mask & mandatory == mandatory
}

/// The encoding identifier of the attribute structure of a node class.
pub open spec fn attributes_encoding(class: NodeClass) -> Option<u32> {
    match class {
        NodeClass::Object => Some(OBJECT_ATTRIBUTES_ENCODING),
        NodeClass::Variable => Some(VARIABLE_ATTRIBUTES_ENCODING),
        NodeClass::Method => Some(METHOD_ATTRIBUTES_ENCODING),
        NodeClass::ObjectType => Some(OBJECT_TYPE_ATTRIBUTES_ENCODING),
        NodeClass::VariableType => Some(VARIABLE_TYPE_ATTRIBUTES_ENCODING),
        NodeClass::ReferenceType => Some(REFERENCE_TYPE_ATTRIBUTES_ENCODING),
        NodeClass::DataType => Some(DATA_TYPE_ATTRIBUTES_ENCODING),
        NodeClass::View => Some(VIEW_ATTRIBUTES_ENCODING),
        NodeClass::Unspecified => None,
    }
}

/// The node class whose attribute structure has the encoding identifier `n`.
pub open spec fn class_of_encoding(n: u32) -> Option<NodeClass> {
    if n == OBJECT_ATTRIBUTES_ENCODING {
        Some(NodeClass::Object)
    } else if n == VARIABLE_ATTRIBUTES_ENCODING {
        Some(NodeClass::Variable)
    } else if n == METHOD_ATTRIBUTES_ENCODING {
        Some(NodeClass::Method)
    } else if n == OBJECT_TYPE_ATTRIBUTES_ENCODING {
        Some(NodeClass::ObjectType)
    } else if n == VARIABLE_TYPE_ATTRIBUTES_ENCODING {
        Some(NodeClass::VariableType)
    } else if n == REFERENCE_TYPE_ATTRIBUTES_ENCODING {
        Some(NodeClass::ReferenceType)
    } else if n == DATA_TYPE_ATTRIBUTES_ENCODING {
        Some(NodeClass::DataType)
    } else if n == VIEW_ATTRIBUTES_ENCODING {
        Some(NodeClass::View)
    } else {
        None
    }
}

/// What decoding a body as `ObjectAttributes` gives: its `specified_attributes`, or the
/// bits of the status code that decoding fails with.
pub uninterp spec fn object_attributes_decoding(body: Option<Seq<u8>>) -> Result<u32, u32>;

/// Decodes the body with `ExtensionObject::decode_inner::<ObjectAttributes>` and default
/// decoding options, and gives the decoded `specified_attributes` or the bits of the
/// status code it fails with. In its source, a missing body fails with `BadDecodingError`;
/// what a present body decodes to is left to the name.
#[verifier::external_body]
fn decode_object_attributes(body: &Option<Vec<u8>>) -> (r: Result<u32, u32>)
    ensures
        r == object_attributes_decoding(opt_bytes_view(*body)),
        body is None ==> r is Err && r->Err_0 == BAD_DECODING_ERROR,
{
    let body = body.clone().map_or(ExtensionObjectEncoding::None, |b| ExtensionObjectEncoding::ByteString(ByteString::from(b)));
    let object = UaExtensionObject { node_id: UaNodeId::null(), body };
    object.decode_inner::<ObjectAttributes>(&DecodingOptions::default()).map(|a| a.specified_attributes).map_err(|e| e.bits())
}

/// What decoding a body as `VariableAttributes` gives: its `specified_attributes`, or the
/// bits of the status code that decoding fails with.
pub uninterp spec fn variable_attributes_decoding(body: Option<Seq<u8>>) -> Result<u32, u32>;

/// Decodes the body with `ExtensionObject::decode_inner::<VariableAttributes>` and default
/// decoding options, and gives the decoded `specified_attributes` or the bits of the
/// status code it fails with. In its source, a missing body fails with `BadDecodingError`;
/// what a present body decodes to is left to the name.
/// The structure holds a variant, whose decoding calls itself once per level of
/// nesting; the body's nesting is bounded so that it stays within the stack.
#[verifier::external_body]
fn decode_variable_attributes(body: &Option<Vec<u8>>) -> (r: Result<u32, u32>)
    requires
        body matches Some(b) ==> value_nesting_bounded(b@),
    ensures
        r == variable_attributes_decoding(opt_bytes_view(*body)),
        body is None ==> r is Err && r->Err_0 == BAD_DECODING_ERROR,
{
    let body = body.clone().map_or(ExtensionObjectEncoding::None, |b| ExtensionObjectEncoding::ByteString(ByteString::from(b)));
    let object = UaExtensionObject { node_id: UaNodeId::null(), body };
    object.decode_inner::<VariableAttributes>(&DecodingOptions::default()).map(|a| a.specified_attributes).map_err(|e| e.bits())
}

/// What decoding a body as `MethodAttributes` gives: its `specified_attributes`, or the
/// bits of the status code that decoding fails with.
pub uninterp spec fn method_attributes_decoding(body: Option<Seq<u8>>) -> Result<u32, u32>;

/// Decodes the body with `ExtensionObject::decode_inner::<MethodAttributes>` and default
/// decoding options, and gives the decoded `specified_attributes` or the bits of the
/// status code it fails with. In its source, a missing body fails with `BadDecodingError`;
/// what a present body decodes to is left to the name.
#[verifier::external_body]
fn decode_method_attributes(body: &Option<Vec<u8>>) -> (r: Result<u32, u32>)
    ensures
        r == method_attributes_decoding(opt_bytes_view(*body)),
        body is None ==> r is Err && r->Err_0 == BAD_DECODING_ERROR,
{
    let body = body.clone().map_or(ExtensionObjectEncoding::None, |b| ExtensionObjectEncoding::ByteString(ByteString::from(b)));
    let object = UaExtensionObject { node_id: UaNodeId::null(), body };
    object.decode_inner::<MethodAttributes>(&DecodingOptions::default()).map(|a| a.specified_attributes).map_err(|e| e.bits())
}

/// What decoding a body as `ObjectTypeAttributes` gives: its `specified_attributes`, or the
/// bits of the status code that decoding fails with.
pub uninterp spec fn object_type_attributes_decoding(body: Option<Seq<u8>>) -> Result<u32, u32>;

/// Decodes the body with `ExtensionObject::decode_inner::<ObjectTypeAttributes>` and default
/// decoding options, and gives the decoded `specified_attributes` or the bits of the
/// status code it fails with. In its source, a missing body fails with `BadDecodingError`;
/// what a present body decodes to is left to the name.
#[verifier::external_body]
fn decode_object_type_attributes(body: &Option<Vec<u8>>) -> (r: Result<u32, u32>)
    ensures
        r == object_type_attributes_decoding(opt_bytes_view(*body)),
        body is None ==> r is Err && r->Err_0 == BAD_DECODING_ERROR,
{
    let body = body.clone().map_or(ExtensionObjectEncoding::None, |b| ExtensionObjectEncoding::ByteString(ByteString::from(b)));
    let object = UaExtensionObject { node_id: UaNodeId::null(), body };
    object.decode_inner::<ObjectTypeAttributes>(&DecodingOptions::default()).map(|a| a.specified_attributes).map_err(|e| e.bits())
}

/// What decoding a body as `VariableTypeAttributes` gives: its `specified_attributes`, or the
/// bits of the status code that decoding fails with.
pub uninterp spec fn variable_type_attributes_decoding(body: Option<Seq<u8>>) -> Result<u32, u32>;

/// Decodes the body with `ExtensionObject::decode_inner::<VariableTypeAttributes>` and default
/// decoding options, and gives the decoded `specified_attributes` or the bits of the
/// status code it fails with. In its source, a missing body fails with `BadDecodingError`;
/// what a present body decodes to is left to the name.
/// The structure holds a variant, whose decoding calls itself once per level of
/// nesting; the body's nesting is bounded so that it stays within the stack.
#[verifier::external_body]
fn decode_variable_type_attributes(body: &Option<Vec<u8>>) -> (r: Result<u32, u32>)
    requires
        body matches Some(b) ==> value_nesting_bounded(b@),
    ensures
        r == variable_type_attributes_decoding(opt_bytes_view(*body)),
        body is None ==> r is Err && r->Err_0 == BAD_DECODING_ERROR,
{
    let body = body.clone().map_or(ExtensionObjectEncoding::None, |b| ExtensionObjectEncoding::ByteString(ByteString::from(b)));
    let object = UaExtensionObject { node_id: UaNodeId::null(), body };
    object.decode_inner::<VariableTypeAttributes>(&DecodingOptions::default()).map(|a| a.specified_attributes).map_err(|e| e.bits())
}

/// What decoding a body as `ReferenceTypeAttributes` gives: its `specified_attributes`, or the
/// bits of the status code that decoding fails with.
pub uninterp spec fn reference_type_attributes_decoding(body: Option<Seq<u8>>) -> Result<u32, u32>;

/// Decodes the body with `ExtensionObject::decode_inner::<ReferenceTypeAttributes>` and default
/// decoding options, and gives the decoded `specified_attributes` or the bits of the
/// status code it fails with. In its source, a missing body fails with `BadDecodingError`;
/// what a present body decodes to is left to the name.
#[verifier::external_body]
fn decode_reference_type_attributes(body: &Option<Vec<u8>>) -> (r: Result<u32, u32>)
    ensures
        r == reference_type_attributes_decoding(opt_bytes_view(*body)),
        body is None ==> r is Err && r->Err_0 == BAD_DECODING_ERROR,
{
    let body = body.clone().map_or(ExtensionObjectEncoding::None, |b| ExtensionObjectEncoding::ByteString(ByteString::from(b)));
    let object = UaExtensionObject { node_id: UaNodeId::null(), body };
    object.decode_inner::<ReferenceTypeAttributes>(&DecodingOptions::default()).map(|a| a.specified_attributes).map_err(|e| e.bits())
}

/// What decoding a body as `DataTypeAttributes` gives: its `specified_attributes`, or the
/// bits of the status code that decoding fails with.
pub uninterp spec fn data_type_attributes_decoding(body: Option<Seq<u8>>) -> Result<u32, u32>;

/// Decodes the body with `ExtensionObject::decode_inner::<DataTypeAttributes>` and default
/// decoding options, and gives the decoded `specified_attributes` or the bits of the
/// status code it fails with. In its source, a missing body fails with `BadDecodingError`;
/// what a present body decodes to is left to the name.
#[verifier::external_body]
fn decode_data_type_attributes(body: &Option<Vec<u8>>) -> (r: Result<u32, u32>)
    ensures
        r == data_type_attributes_decoding(opt_bytes_view(*body)),
        body is None ==> r is Err && r->Err_0 == BAD_DECODING_ERROR,
{
    let body = body.clone().map_or(ExtensionObjectEncoding::None, |b| ExtensionObjectEncoding::ByteString(ByteString::from(b)));
    let object = UaExtensionObject { node_id: UaNodeId::null(), body };
    object.decode_inner::<DataTypeAttributes>(&DecodingOptions::default()).map(|a| a.specified_attributes).map_err(|e| e.bits())
}

/// What decoding a body as `ViewAttributes` gives: its `specified_attributes`, or the
/// bits of the status code that decoding fails with.
pub uninterp spec fn view_attributes_decoding(body: Option<Seq<u8>>) -> Result<u32, u32>;

/// Decodes the body with `ExtensionObject::decode_inner::<ViewAttributes>` and default
/// decoding options, and gives the decoded `specified_attributes` or the bits of the
/// status code it fails with. In its source, a missing body fails with `BadDecodingError`;
/// what a present body decodes to is left to the name.
#[verifier::external_body]
fn decode_view_attributes(body: &Option<Vec<u8>>) -> (r: Result<u32, u32>)
    ensures
        r == view_attributes_decoding(opt_bytes_view(*body)),
        body is None ==> r is Err && r->Err_0 == BAD_DECODING_ERROR,
{
    let body = body.clone().map_or(ExtensionObjectEncoding::None, |b| ExtensionObjectEncoding::ByteString(ByteString::from(b)));
    let object = UaExtensionObject { node_id: UaNodeId::null(), body };
    object.decode_inner::<ViewAttributes>(&DecodingOptions::default()).map(|a| a.specified_attributes).map_err(|e| e.bits())
}

/// What decoding the body as the attribute structure of `class` gives: the mask of
/// specified attributes, or the bits of the status code that decoding fails with.
pub open spec fn decoded_attributes(class: NodeClass, body: Option<Seq<u8>>) -> Result<u32, u32>
    recommends
        class != NodeClass::Unspecified,
{
    match class {
        NodeClass::Object => object_attributes_decoding(body),
        NodeClass::Variable => variable_attributes_decoding(body),
        NodeClass::Method => method_attributes_decoding(body),
        NodeClass::ObjectType => object_type_attributes_decoding(body),
        NodeClass::VariableType => variable_type_attributes_decoding(body),
        NodeClass::ReferenceType => reference_type_attributes_decoding(body),
        NodeClass::DataType => data_type_attributes_decoding(body),
        NodeClass::View => view_attributes_decoding(body),
        NodeClass::Unspecified => Err(BAD_DECODING_ERROR),
    }
}

/// Whether the body's nesting is bounded where the attribute structure of `class` holds
/// a variant (variables and variable types).
pub open spec fn attributes_nesting_bounded(class: NodeClass, body: Option<Seq<u8>>) -> bool {
    (class == NodeClass::Variable || class == NodeClass::VariableType) ==> match body {
        Some(b) => value_nesting_bounded(b),
        None => true,
    }
}

/// Computes [`attributes_nesting_bounded`].
pub fn check_attributes_nesting(class: NodeClass, body: &Option<Vec<u8>>) -> (r: bool)
    ensures
        r == attributes_nesting_bounded(class, opt_bytes_view(*body)),
{
    match class {
        NodeClass::Variable | NodeClass::VariableType => match body {
            Some(b) => value_nesting_check(b.as_slice()),
            None => true,
        },
        _ => true,
    }
}

/// Decodes the body as the attribute structure of `class` (a class that has one) and
/// gives its mask of specified attributes, or the bits of the status code that
/// decoding fails with.
pub fn decode_attributes(class: NodeClass, body: &Option<Vec<u8>>) -> (r: Result<u32, u32>)
    requires
        class != NodeClass::Unspecified,
        attributes_nesting_bounded(class, opt_bytes_view(*body)),
    ensures
        r == decoded_attributes(class, opt_bytes_view(*body)),
{
    match class {
        NodeClass::Object => decode_object_attributes(body),
        NodeClass::Variable => decode_variable_attributes(body),
        NodeClass::Method => decode_method_attributes(body),
        NodeClass::ObjectType => decode_object_type_attributes(body),
        NodeClass::VariableType => decode_variable_type_attributes(body),
        NodeClass::ReferenceType => decode_reference_type_attributes(body),
        NodeClass::DataType => decode_data_type_attributes(body),
        NodeClass::View => decode_view_attributes(body),
        NodeClass::Unspecified => Err(BAD_DECODING_ERROR),
    }
}

} // verus!
