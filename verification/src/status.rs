use vstd::prelude::*;

verus! {

/// The status codes that the node management services answer with.
#[derive(Debug, Clone, Copy, PartialEq, Eq, Structural)]
pub enum StatusCode {
    Good,
    BadUserAccessDenied,
    BadNodeIdRejected,
    BadNodeClassInvalid,
    BadNodeIdExists,
    BadBrowseNameInvalid,
    BadBrowseNameDuplicated,
    BadTypeDefinitionInvalid,
    BadParentNodeIdInvalid,
    BadNodeAttributesInvalid,
    BadReferenceTypeIdInvalid,
    BadServerUriInvalid,
    BadReferenceLocalOnly,
    BadSourceNodeIdInvalid,
    BadTargetNodeIdInvalid,
    BadDuplicateReferenceNotAllowed,
    BadNodeIdUnknown,
    BadTooManyOperations,
    BadNothingToDo,
    /// A status that is none of the above, by the bits of its code.
    Other(u32),
}

/// The bits of the status code `BadDecodingError`.
pub const BAD_DECODING_ERROR: u32 = 0x8007_0000;

/// The bits of the status code `BadEncodingLimitsExceeded`.
pub const BAD_ENCODING_LIMITS_EXCEEDED: u32 = 0x8008_0000;

/// The class of a node.
#[derive(Debug, Clone, Copy, PartialEq, Eq, Structural)]
pub enum NodeClass {
    Unspecified,
    Object,
    Variable,
    Method,
    ObjectType,
    VariableType,
    ReferenceType,
    DataType,
    View,
}

} // verus!
