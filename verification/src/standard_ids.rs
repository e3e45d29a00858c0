use vstd::prelude::*;
use crate::node_id::{Identifier, NodeId, NodeIdView};
use crate::reference_type::supertype;
use opcua_types::{ByteString, Guid, Identifier as UaIdentifier, NodeId as UaNodeId, UAString};

verus! {

/// The numeric identifiers of the encodings of the eight node attribute structures.
pub const OBJECT_ATTRIBUTES_ENCODING: u32 = 354;
pub const VARIABLE_ATTRIBUTES_ENCODING: u32 = 357;
pub const METHOD_ATTRIBUTES_ENCODING: u32 = 360;
pub const OBJECT_TYPE_ATTRIBUTES_ENCODING: u32 = 363;
pub const VARIABLE_TYPE_ATTRIBUTES_ENCODING: u32 = 366;
pub const REFERENCE_TYPE_ATTRIBUTES_ENCODING: u32 = 369;
pub const DATA_TYPE_ATTRIBUTES_ENCODING: u32 = 372;
pub const VIEW_ATTRIBUTES_ENCODING: u32 = 375;

/// Whether `n` is one of the eight attribute-structure encoding identifiers.
pub open spec fn is_attributes_encoding(n: u32) -> bool {
    n == OBJECT_ATTRIBUTES_ENCODING || n == VARIABLE_ATTRIBUTES_ENCODING || n == METHOD_ATTRIBUTES_ENCODING
        || n == OBJECT_TYPE_ATTRIBUTES_ENCODING || n == VARIABLE_TYPE_ATTRIBUTES_ENCODING
        || n == REFERENCE_TYPE_ATTRIBUTES_ENCODING || n == DATA_TYPE_ATTRIBUTES_ENCODING
        || n == VIEW_ATTRIBUTES_ENCODING
}

/// Whether `n` is one of the standard reference types of the supertype table.
pub open spec fn is_tabled_reference_type(n: u32) -> bool {
    n == crate::reference_type::REFERENCES || supertype(n) is Some
}

/// What `NodeId::as_object_id` gives for a node id, as the number of the object id.
pub uninterp spec fn object_id_of(id: NodeIdView) -> Option<u32>;

/// What `NodeId::as_reference_type_id` gives for a node id, as the number of the reference type id.
pub uninterp spec fn reference_type_id_of(id: NodeIdView) -> Option<u32>;

/// Calls `NodeId::as_object_id` and gives the number of the object id. Its source
/// accepts only numeric identifiers in namespace 0 that name a known object id,
/// and the eight attribute encodings are known object ids; which other numbers are
/// known is left to the name.
#[verifier::external_body]
pub(crate) fn object_id_number(id: &NodeId) -> (r: Option<u32>)
    ensures
        r == object_id_of(id@),
        r matches Some(n) ==> id@.ns0_numeric() == Some(n),
        id@.ns0_numeric() is Some && is_attributes_encoding(id@.ns0_numeric()->0) ==> r == id@.ns0_numeric(),
{
    let identifier = match &id.identifier {
        Identifier::Numeric(v) => UaIdentifier::Numeric(*v),
        Identifier::String(v) => UaIdentifier::String(v.as_ref().map_or(UAString::null(), UAString::from)),
        Identifier::Guid(v) => UaIdentifier::Guid(Guid::from_bytes(*v)),
        Identifier::ByteString(v) => UaIdentifier::ByteString(ByteString { value: v.clone() }),
    };
    UaNodeId { namespace: id.namespace, identifier }.as_object_id().ok().map(|o| o as u32)
}

/// Calls `NodeId::as_reference_type_id` and gives the number of the reference type.
/// Its source refuses the null node id and accepts only numeric identifiers in
/// namespace 0 that name a known reference type; the types of the supertype table
/// are known ones, and which others are is left to the name.
#[verifier::external_body]
pub(crate) fn reference_type_number(id: &NodeId) -> (r: Option<u32>)
    ensures
        r == reference_type_id_of(id@),
        r matches Some(n) ==> id@.ns0_numeric() == Some(n) && !id@.is_null(),
        id@.ns0_numeric() is Some && is_tabled_reference_type(id@.ns0_numeric()->0) ==> r == id@.ns0_numeric(),
{
    let identifier = match &id.identifier {
        Identifier::Numeric(v) => UaIdentifier::Numeric(*v),
        Identifier::String(v) => UaIdentifier::String(v.as_ref().map_or(UAString::null(), UAString::from)),
        Identifier::Guid(v) => UaIdentifier::Guid(Guid::from_bytes(*v)),
        Identifier::ByteString(v) => UaIdentifier::ByteString(ByteString { value: v.clone() }),
    };
    UaNodeId { namespace: id.namespace, identifier }.as_reference_type_id().ok().map(|r| r as u32)
}

/// Calls `NodeId::next_numeric(namespace)`, which draws the next number of a
/// process-wide counter: the result is a numeric node id in `namespace`; which
/// number it holds depends on the calls made before and is left open.
#[verifier::external_body]
pub(crate) fn next_numeric_node_id(namespace: u16) -> (r: NodeId)
    ensures
        r@.namespace == namespace,
        r@.identifier is Numeric,
{
    let n = UaNodeId::next_numeric(namespace);
    let identifier = match n.identifier {
        UaIdentifier::Numeric(v) => Identifier::Numeric(v),
        UaIdentifier::String(v) => Identifier::String(v.value().clone()),
        UaIdentifier::Guid(v) => Identifier::Guid(*v.as_bytes()),
        UaIdentifier::ByteString(v) => Identifier::ByteString(v.value),
    };
    NodeId { namespace: n.namespace, identifier }
}

} // verus!
