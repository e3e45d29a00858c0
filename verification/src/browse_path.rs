use vstd::prelude::*;
use crate::node_id::{Identifier, NodeId, NodeIdView, QualifiedName, QualifiedNameView};
use crate::reference_type::{is_subtype_of, subtype_check};
use opcua_types::{Identifier as UaIdentifier, RelativePath, RelativePathElement};

verus! {

/// One element of a relative browse path: follow references of `reference_type`
/// (or of its subtypes when `include_subtypes`), backwards when `is_inverse`,
/// to nodes whose browse name is `target_name`.
#[derive(Debug)]
pub struct PathStep {
    pub reference_type: NodeId,
    pub is_inverse: bool,
    pub include_subtypes: bool,
    pub target_name: QualifiedName,
}

pub struct PathStepView {
    pub reference_type: NodeIdView,
    pub is_inverse: bool,
    pub include_subtypes: bool,
    pub target_name: QualifiedNameView,
}

impl View for PathStep {
    type V = PathStepView;

    open spec fn view(&self) -> PathStepView {
        PathStepView {
            reference_type: self.reference_type@,
            is_inverse: self.is_inverse,
            include_subtypes: self.include_subtypes,
            target_name: self.target_name@,
        }
    }
}

/// Whether a reference of type `actual` is followed by a step asking for `wanted`:
/// the same type, or, with `include_subtypes`, a standard subtype of it.
pub open spec fn reference_type_matches(actual: NodeIdView, wanted: NodeIdView, include_subtypes: bool) -> bool {
    actual == wanted || (include_subtypes && match (actual.ns0_numeric(), wanted.ns0_numeric()) {
        (Some(a), Some(b)) => is_subtype_of(a, b),
        _ => false,
    })
}

impl NodeId {
    /// The numeric identifier in namespace 0 that this node id holds, if it holds one.
    pub fn ns0_numeric(&self) -> (r: Option<u32>)
        ensures
            r == self@.ns0_numeric(),
    {
        match self.identifier {
            crate::node_id::Identifier::Numeric(n) => if self.namespace == 0 { Some(n) } else { None },
            _ => None,
        }
    }
}

/// Computes [`reference_type_matches`].
pub fn reference_type_check(actual: &NodeId, wanted: &NodeId, include_subtypes: bool) -> (r: bool)
    ensures
        r == reference_type_matches(actual@, wanted@, include_subtypes),
{
    if actual.same_as(wanted) {
        return true;
    }
    if !include_subtypes {
        return false;
    }
    match (actual.ns0_numeric(), wanted.ns0_numeric()) {
        (Some(a), Some(b)) => subtype_check(a, b),
        _ => false,
    }
}

/// The decimal digit character for `d` (below 10).
pub open spec fn digit_char(d: nat) -> char {
    (48 + d) as char
}

/// The decimal text of `n`, as `{}` formats an unsigned integer.
pub open spec fn decimal(n: nat) -> Seq<char>
    decreases n,
{
    if n < 10 {
        seq![digit_char(n)]
    } else {
        decimal(n / 10).push(digit_char(n % 10))
    }
}

/// The text of the decimal digit `d`.
fn digit_text(d: u16) -> (r: &'static str)
    requires
        d < 10,
    ensures
        r@ == seq![digit_char(d as nat)],
{
    if d == 0 {
        proof {
            reveal_strlit("0");
        }
        "0"
    } else if d == 1 {
        proof {
            reveal_strlit("1");
        }
        "1"
    } else if d == 2 {
        proof {
            reveal_strlit("2");
        }
        "2"
    } else if d == 3 {
        proof {
            reveal_strlit("3");
        }
        "3"
    } else if d == 4 {
        proof {
            reveal_strlit("4");
        }
        "4"
    } else if d == 5 {
        proof {
            reveal_strlit("5");
        }
        "5"
    } else if d == 6 {
        proof {
            reveal_strlit("6");
        }
        "6"
    } else if d == 7 {
        proof {
            reveal_strlit("7");
        }
        "7"
    } else if d == 8 {
        proof {
            reveal_strlit("8");
        }
        "8"
    } else {
        proof {
            reveal_strlit("9");
        }
        "9"
    }
}

/// The decimal text of `n`, as `{}` formats it.
fn decimal_text(n: u16) -> (r: String)
    ensures
        r@ == decimal(n as nat),
    decreases n,
{
    let mut text = if n < 10 {
        String::new()
    } else {
        decimal_text(n / 10)
    };
    let ghost before = text@;
    text.append(digit_text(n % 10));
    proof {
        if n < 10 {
            assert(text@ =~= seq![digit_char(n as nat)]);
        } else {
            assert(text@ =~= before.push(digit_char((n % 10) as nat)));
        }
    }
    text
}

/// The browse path text `"{}:{}"` of a name in a namespace other than 0.
fn namespaced_name_text(namespace: u16, name: &str) -> (r: String)
    ensures
        r@ == decimal(namespace as nat) + seq![':'] + name@,
{
    let mut text = decimal_text(namespace);
    proof {
        reveal_strlit(":");
    }
    text.append(":");
    text.append(name);
    text
}

/// The browse path text `"/{}"` of a name in namespace 0.
fn rooted_name_text(name: &str) -> (r: String)
    ensures
        r@ == seq!['/'] + name@,
{
    proof {
        reveal_strlit("/");
    }
    let mut text = String::from_str("/");
    text.append(name);
    text
}

/// What `RelativePath::from_str` with `RelativePathElement::default_node_resolver`
/// gives for a path string: the number of its elements, or `None` where it fails.
pub uninterp spec fn relative_path_len(path: Seq<char>) -> Option<usize>;

/// The element at `index` of what `RelativePath::from_str` with
/// `RelativePathElement::default_node_resolver` gives for a path string.
pub uninterp spec fn relative_path_step(path: Seq<char>, index: usize) -> PathStepView;

/// Calls `RelativePath::from_str(path, &RelativePathElement::default_node_resolver)`
/// and counts the elements; `None` where the call returns an error. The result is
/// named, not stated: it is a function of the path alone.
#[verifier::external_body]
fn parse_relative_path_len(path: &str) -> (r: Option<usize>)
    ensures
        r == relative_path_len(path@),
{
    RelativePath::from_str(path, &RelativePathElement::default_node_resolver)
        .ok()
        .map(|p| p.elements.map_or(0, |e| e.len()))
}

/// Calls `RelativePath::from_str(path, &RelativePathElement::default_node_resolver)`
/// and converts its element at `index`. The call succeeds on every input that the
/// `requires` admits, since the parse depends on the path alone.
#[verifier::external_body]
fn parse_relative_path_step(path: &str, index: usize) -> (r: PathStep)
    requires
        relative_path_len(path@) matches Some(n) && index < n,
    ensures
        r@ == relative_path_step(path@, index),
{
    let p = RelativePath::from_str(path, &RelativePathElement::default_node_resolver).unwrap();
    let e = &p.elements.unwrap()[index];
    let t = &e.reference_type_id;
    let identifier = match &t.identifier {
        UaIdentifier::Numeric(v) => Identifier::Numeric(*v),
        UaIdentifier::String(v) => Identifier::String(v.value().clone()),
        UaIdentifier::Guid(v) => Identifier::Guid(*v.as_bytes()),
        UaIdentifier::ByteString(v) => Identifier::ByteString(v.value.clone()),
    };
    let name = QualifiedName { namespace_index: e.target_name.namespace_index, name: e.target_name.name.value().clone() };
    PathStep { reference_type: NodeId { namespace: t.namespace, identifier }, is_inverse: e.is_inverse, include_subtypes: e.include_subtypes, target_name: name }
}

/// The browse path text that a browse name is looked up by under its parent:
/// `"<ns>:<name>"` for a name outside namespace 0, `"/<name>"` otherwise.
pub open spec fn browse_path_text(name: QualifiedNameView) -> Seq<char> {
    if name.namespace_index != 0 {
        decimal(name.namespace_index as nat) + seq![':'] + name.text()
    } else {
        seq!['/'] + name.text()
    }
}

/// The relative path that a path text parses to, or `None` where it does not parse.
pub open spec fn parsed_path(path: Seq<char>) -> Option<Seq<PathStepView>> {
    match relative_path_len(path) {
        Some(n) => Some(Seq::new(n as nat, |i: int| relative_path_step(path, i as usize))),
        None => None,
    }
}

/// The relative path that a browse name is looked up by under its parent, or `None`
/// where its path text does not parse.
pub fn browse_name_path(name: &QualifiedName) -> (r: Option<Vec<PathStep>>)
    ensures
        match r {
            Some(v) => parsed_path(browse_path_text(name@)) == Some(v@.map_values(|s: PathStep| s@)),
            None => parsed_path(browse_path_text(name@)) is None,
        },
{
    let text: &str = match &name.name {
        Some(s) => s.as_str(),
        None => {
            proof {
                reveal_strlit("");
            }
            ""
        },
    };
    assert(text@ == name@.text());
    let path = if name.namespace_index != 0 {
        namespaced_name_text(name.namespace_index, text)
    } else {
        rooted_name_text(text)
    };
    assert(path@ == browse_path_text(name@));
    let n = match parse_relative_path_len(path.as_str()) {
        Some(n) => n,
        None => {
            return None;
        },
    };
    let mut steps: Vec<PathStep> = Vec::new();
    let mut i: usize = 0;
    while i < n
        invariant
            0 <= i <= n,
            relative_path_len(path@) == Some(n),
            steps@.len() == i,
            forall|j: int| 0 <= j < i ==> #[trigger] steps@[j]@ == relative_path_step(path@, j as usize),
        decreases n - i,
    {
        steps.push(parse_relative_path_step(path.as_str(), i));
        i += 1;
    }
    assert(steps@.map_values(|s: PathStep| s@) =~= Seq::new(n as nat, |j: int| relative_path_step(path@, j as usize)));
    Some(steps)
}

} // verus!
