use vstd::prelude::*;

verus! {

// Numeric identifiers (namespace 0) of the standard reference types.
pub const REFERENCES: u32 = 31;
pub const NON_HIERARCHICAL_REFERENCES: u32 = 32;
pub const HIERARCHICAL_REFERENCES: u32 = 33;
pub const HAS_CHILD: u32 = 34;
pub const ORGANIZES: u32 = 35;
pub const HAS_EVENT_SOURCE: u32 = 36;
pub const HAS_MODELLING_RULE: u32 = 37;
pub const HAS_ENCODING: u32 = 38;
pub const HAS_DESCRIPTION: u32 = 39;
pub const HAS_TYPE_DEFINITION: u32 = 40;
pub const GENERATES_EVENT: u32 = 41;
pub const AGGREGATES: u32 = 44;
pub const HAS_SUBTYPE: u32 = 45;
pub const HAS_PROPERTY: u32 = 46;
pub const HAS_COMPONENT: u32 = 47;
pub const HAS_NOTIFIER: u32 = 48;
pub const HAS_ORDERED_COMPONENT: u32 = 49;
pub const FROM_STATE: u32 = 51;
pub const TO_STATE: u32 = 52;
pub const HAS_CAUSE: u32 = 53;
pub const HAS_EFFECT: u32 = 54;
pub const HAS_HISTORICAL_CONFIGURATION: u32 = 56;
pub const HAS_SUB_STATE_MACHINE: u32 = 117;
pub const HAS_ARGUMENT_DESCRIPTION: u32 = 129;
pub const HAS_OPTIONAL_INPUT_ARGUMENT_DESCRIPTION: u32 = 131;
pub const ALWAYS_GENERATES_EVENT: u32 = 3065;
pub const HAS_TRUE_SUB_STATE: u32 = 9004;
pub const HAS_FALSE_SUB_STATE: u32 = 9005;
pub const HAS_CONDITION: u32 = 9006;
pub const HAS_PUB_SUB_CONNECTION: u32 = 14476;
pub const DATA_SET_TO_WRITER: u32 = 14936;
pub const HAS_GUARD: u32 = 15112;
pub const HAS_DATA_SET_WRITER: u32 = 15296;
pub const HAS_DATA_SET_READER: u32 = 15297;
pub const HAS_ALARM_SUPPRESSION_GROUP: u32 = 16361;
pub const ALARM_GROUP_MEMBER: u32 = 16362;
pub const HAS_EFFECT_DISABLE: u32 = 17276;
pub const HAS_DICTIONARY_ENTRY: u32 = 17597;
pub const HAS_INTERFACE: u32 = 17603;
pub const HAS_ADD_IN: u32 = 17604;
pub const HAS_EFFECT_ENABLE: u32 = 17983;
pub const HAS_EFFECT_SUPPRESSED: u32 = 17984;
pub const HAS_EFFECT_UNSUPPRESSED: u32 = 17985;
pub const HAS_WRITER_GROUP: u32 = 18804;
pub const HAS_READER_GROUP: u32 = 18805;
pub const ALIAS_FOR: u32 = 23469;

/// The direct supertype of a standard reference type, in the reference type
/// hierarchy of the standard address space. Every supertype has a smaller
/// identifier than its subtype. Reference types that an address space defines
/// beyond the standard ones have no entry.
pub open spec fn supertype(t: u32) -> Option<u32> {
    if t == NON_HIERARCHICAL_REFERENCES || t == HIERARCHICAL_REFERENCES {
        Some(REFERENCES)
    } else if t == HAS_CHILD || t == ORGANIZES || t == HAS_EVENT_SOURCE || t == DATA_SET_TO_WRITER
        || t == HAS_GUARD {
        Some(HIERARCHICAL_REFERENCES)
    } else if t == AGGREGATES || t == HAS_SUBTYPE {
        Some(HAS_CHILD)
    } else if t == HAS_PROPERTY || t == HAS_COMPONENT || t == HAS_HISTORICAL_CONFIGURATION {
        Some(AGGREGATES)
    } else if t == HAS_ORDERED_COMPONENT || t == HAS_ARGUMENT_DESCRIPTION || t == HAS_PUB_SUB_CONNECTION
        || t == HAS_DATA_SET_WRITER || t == HAS_DATA_SET_READER || t == HAS_ALARM_SUPPRESSION_GROUP
        || t == HAS_ADD_IN || t == HAS_WRITER_GROUP || t == HAS_READER_GROUP {
        Some(HAS_COMPONENT)
    } else if t == HAS_OPTIONAL_INPUT_ARGUMENT_DESCRIPTION {
        Some(HAS_ARGUMENT_DESCRIPTION)
    } else if t == ALARM_GROUP_MEMBER {
        Some(ORGANIZES)
    } else if t == HAS_NOTIFIER {
        Some(HAS_EVENT_SOURCE)
    } else if t == ALWAYS_GENERATES_EVENT {
        Some(GENERATES_EVENT)
    } else if t == HAS_EFFECT_DISABLE || t == HAS_EFFECT_ENABLE || t == HAS_EFFECT_SUPPRESSED
        || t == HAS_EFFECT_UNSUPPRESSED {
        Some(HAS_EFFECT)
    } else if t == HAS_MODELLING_RULE || t == HAS_ENCODING || t == HAS_DESCRIPTION
        || t == HAS_TYPE_DEFINITION || t == GENERATES_EVENT || t == FROM_STATE || t == TO_STATE
        || t == HAS_CAUSE || t == HAS_EFFECT || t == HAS_SUB_STATE_MACHINE
        || t == HAS_TRUE_SUB_STATE || t == HAS_FALSE_SUB_STATE || t == HAS_CONDITION
        || t == HAS_DICTIONARY_ENTRY || t == HAS_INTERFACE || t == ALIAS_FOR {
        Some(NON_HIERARCHICAL_REFERENCES)
    } else {
        None
    }
}

/// Whether reference type `t` is `base` or one of its subtypes.
pub open spec fn is_subtype_of(t: u32, base: u32) -> bool
    decreases t,
{
    if t == base {
        true
    } else {
        match supertype(t) {
            Some(p) => if p < t { is_subtype_of(p, base) } else { false },
            None => false,
        }
    }
}

/// The direct supertype of a standard reference type, computed.
pub fn supertype_of(t: u32) -> (r: Option<u32>)
    ensures
        r == supertype(t),
{
    if t == NON_HIERARCHICAL_REFERENCES || t == HIERARCHICAL_REFERENCES {
        Some(REFERENCES)
    } else if t == HAS_CHILD || t == ORGANIZES || t == HAS_EVENT_SOURCE || t == DATA_SET_TO_WRITER
        || t == HAS_GUARD {
        Some(HIERARCHICAL_REFERENCES)
    } else if t == AGGREGATES || t == HAS_SUBTYPE {
        Some(HAS_CHILD)
    } else if t == HAS_PROPERTY || t == HAS_COMPONENT || t == HAS_HISTORICAL_CONFIGURATION {
        Some(AGGREGATES)
    } else if t == HAS_ORDERED_COMPONENT || t == HAS_ARGUMENT_DESCRIPTION || t == HAS_PUB_SUB_CONNECTION
        || t == HAS_DATA_SET_WRITER || t == HAS_DATA_SET_READER || t == HAS_ALARM_SUPPRESSION_GROUP
        || t == HAS_ADD_IN || t == HAS_WRITER_GROUP || t == HAS_READER_GROUP {
        Some(HAS_COMPONENT)
    } else if t == HAS_OPTIONAL_INPUT_ARGUMENT_DESCRIPTION {
        Some(HAS_ARGUMENT_DESCRIPTION)
    } else if t == ALARM_GROUP_MEMBER {
        Some(ORGANIZES)
    } else if t == HAS_NOTIFIER {
        Some(HAS_EVENT_SOURCE)
    } else if t == ALWAYS_GENERATES_EVENT {
        Some(GENERATES_EVENT)
    } else if t == HAS_EFFECT_DISABLE || t == HAS_EFFECT_ENABLE || t == HAS_EFFECT_SUPPRESSED
        || t == HAS_EFFECT_UNSUPPRESSED {
        Some(HAS_EFFECT)
    } else if t == HAS_MODELLING_RULE || t == HAS_ENCODING || t == HAS_DESCRIPTION
        || t == HAS_TYPE_DEFINITION || t == GENERATES_EVENT || t == FROM_STATE || t == TO_STATE
        || t == HAS_CAUSE || t == HAS_EFFECT || t == HAS_SUB_STATE_MACHINE
        || t == HAS_TRUE_SUB_STATE || t == HAS_FALSE_SUB_STATE || t == HAS_CONDITION
        || t == HAS_DICTIONARY_ENTRY || t == HAS_INTERFACE || t == ALIAS_FOR {
        Some(NON_HIERARCHICAL_REFERENCES)
    } else {
        None
    }
}

/// Whether reference type `t` is `base` or one of its subtypes, computed by
/// walking up the supertype chain.
pub fn subtype_check(t: u32, base: u32) -> (r: bool)
    ensures
        r == is_subtype_of(t, base),
{
    let mut cur: u32 = t;
    loop
        invariant
            is_subtype_of(t, base) == is_subtype_of(cur, base),
        decreases cur,
    {
        if cur == base {
            return true;
        }
        match supertype_of(cur) {
            Some(p) => {
                if p < cur {
                    cur = p;
                } else {
                    return false;
                }
            },
            None => {
                return false;
            },
        }
    }
}

} // verus!
