use vstd::prelude::*;

verus! {

/// The identifier part of a node id: numeric, string, guid or opaque bytes.
/// A string or byte string identifier may be null (`None`).
#[derive(Debug)]
pub enum Identifier {
    Numeric(u32),
    String(Option<String>),
    Guid([u8; 16]),
    ByteString(Option<Vec<u8>>),
}

/// The mathematical value of an [`Identifier`].
pub enum IdentifierView {
    Numeric(u32),
    String(Option<Seq<char>>),
    Guid(Seq<u8>),
    ByteString(Option<Seq<u8>>),
}

pub open spec fn opt_string_view(s: Option<String>) -> Option<Seq<char>> {
    match s {
        Some(s) => Some(s@),
        None => None,
    }
}

pub open spec fn opt_bytes_view(b: Option<Vec<u8>>) -> Option<Seq<u8>> {
    match b {
        Some(b) => Some(b@),
        None => None,
    }
}

impl View for Identifier {
    type V = IdentifierView;

    open spec fn view(&self) -> IdentifierView {
        match self {
            Identifier::Numeric(n) => IdentifierView::Numeric(*n),
            Identifier::String(s) => IdentifierView::String(opt_string_view(*s)),
            Identifier::Guid(g) => IdentifierView::Guid(g@),
            Identifier::ByteString(b) => IdentifierView::ByteString(opt_bytes_view(*b)),
        }
    }
}

/// An identifier of a node in the address space: a namespace index and an identifier.
#[derive(Debug)]
pub struct NodeId {
    pub namespace: u16,
    pub identifier: Identifier,
}

/// The mathematical value of a [`NodeId`].
pub struct NodeIdView {
    pub namespace: u16,
    pub identifier: IdentifierView,
}

impl NodeIdView {
    /// The null node id is the numeric identifier 0 in namespace 0.
    pub open spec fn is_null(self) -> bool {
        self.namespace == 0 && self.identifier == IdentifierView::Numeric(0)
    }

    /// The numeric identifier in namespace 0 that this node id holds, if it holds one.
    pub open spec fn ns0_numeric(self) -> Option<u32> {
        match self.identifier {
            IdentifierView::Numeric(n) => if self.namespace == 0 { Some(n) } else { None },
            _ => None,
        }
    }
}

/// The node id that is the numeric identifier `n` in namespace 0.
pub open spec fn ns0_node(n: u32) -> NodeIdView {
    NodeIdView { namespace: 0, identifier: IdentifierView::Numeric(n) }
}

impl View for NodeId {
    type V = NodeIdView;

    open spec fn view(&self) -> NodeIdView {
        NodeIdView { namespace: self.namespace, identifier: self.identifier@ }
    }
}

/// A node id that may refer to a node on another server.
#[derive(Debug)]
pub struct ExpandedNodeId {
    pub node_id: NodeId,
    pub namespace_uri: Option<String>,
    pub server_index: u32,
}

/// A name qualified by a namespace index; the name may be null (`None`).
#[derive(Debug)]
pub struct QualifiedName {
    pub namespace_index: u16,
    pub name: Option<String>,
}

pub struct QualifiedNameView {
    pub namespace_index: u16,
    pub name: Option<Seq<char>>,
}

impl View for QualifiedName {
    type V = QualifiedNameView;

    open spec fn view(&self) -> QualifiedNameView {
        QualifiedNameView { namespace_index: self.namespace_index, name: opt_string_view(self.name) }
    }
}

impl QualifiedNameView {
    /// A qualified name is null when its namespace is 0 and its name is null.
    pub open spec fn is_null(self) -> bool {
        self.namespace_index == 0 && self.name is None
    }

    /// The text of the name, where a null name reads as the empty string.
    pub open spec fn text(self) -> Seq<char> {
        match self.name {
            Some(s) => s,
            None => Seq::empty(),
        }
    }
}

/// The node ids that a sequence holds, as a set.
pub open spec fn node_id_set(s: Seq<NodeId>) -> Set<NodeIdView> {
    Set::new(|v: NodeIdView| exists|i: int| 0 <= i < s.len() && s[i]@ == v)
}

pub proof fn lemma_node_id_set_push(s: Seq<NodeId>, x: NodeId)
    ensures
        node_id_set(s.push(x)) == node_id_set(s).insert(x@),
{
    let t = s.push(x);
    assert forall|v: NodeIdView| #[trigger] node_id_set(t).contains(v) == node_id_set(s).insert(x@).contains(v) by {
        if node_id_set(t).contains(v) {
            let i = choose|i: int| 0 <= i < t.len() && t[i]@ == v;
            if i < s.len() {
                assert(s[i]@ == v);
            }
        }
        if node_id_set(s).contains(v) {
            let i = choose|i: int| 0 <= i < s.len() && s[i]@ == v;
            assert(t[i]@ == v);
        }
        if v == x@ {
            assert(t[s.len() as int]@ == v);
        }
    }
    assert(node_id_set(t) =~= node_id_set(s).insert(x@));
}

/// Whether the vector holds the node id.
pub fn contains_node_id(v: &Vec<NodeId>, id: &NodeId) -> (r: bool)
    ensures
        r == node_id_set(v@).contains(id@),
{
    let mut i: usize = 0;
    while i < v.len()
        invariant
            0 <= i <= v@.len(),
            forall|j: int| 0 <= j < i ==> v@[j]@ != id@,
        decreases v@.len() - i,
    {
        if v[i].same_as(id) {
            assert(v@[i as int]@ == id@);
            return true;
        }
        i += 1;
    }
    proof {
        if node_id_set(v@).contains(id@) {
            let k = choose|k: int| 0 <= k < v@.len() && v@[k]@ == id@;
            assert(v@[k]@ == id@);
        }
    }
    false
}

/// Compares two byte slices element by element.
pub fn bytes_equal(a: &[u8], b: &[u8]) -> (r: bool)
    ensures
        r == (a@ == b@),
{
    if a.len() != b.len() {
        return false;
    }
    let mut i: usize = 0;
    while i < a.len()
        invariant
            a.len() == b.len(),
            0 <= i <= a.len(),
            forall|j: int| 0 <= j < i ==> a@[j] == b@[j],
        decreases a.len() - i,
    {
        if a[i] != b[i] {
            assert(a@[i as int] != b@[i as int]);
            return false;
        }
        i += 1;
    }
    assert(a@ =~= b@);
    true
}

fn opt_string_equal(a: &Option<String>, b: &Option<String>) -> (r: bool)
    ensures
        r == (opt_string_view(*a) == opt_string_view(*b)),
{
    match (a, b) {
        (Some(x), Some(y)) => {
            let r = String::eq(x, y);
            assert(r == (x@ == y@));
            r
        },
        (None, None) => true,
        _ => false,
    }
}

fn opt_bytes_equal(a: &Option<Vec<u8>>, b: &Option<Vec<u8>>) -> (r: bool)
    ensures
        r == (opt_bytes_view(*a) == opt_bytes_view(*b)),
{
    match (a, b) {
        (Some(x), Some(y)) => bytes_equal(x.as_slice(), y.as_slice()),
        (None, None) => true,
        _ => false,
    }
}

fn guid_equal(a: &[u8; 16], b: &[u8; 16]) -> (r: bool)
    ensures
        r == (a@ == b@),
{
    bytes_equal(a.as_slice(), b.as_slice())
}

impl Identifier {
    /// Whether two identifiers are the same value.
    pub fn same_as(&self, other: &Identifier) -> (r: bool)
        ensures
            r == (self@ == other@),
    {
        match (self, other) {
            (Identifier::Numeric(a), Identifier::Numeric(b)) => *a == *b,
            (Identifier::String(a), Identifier::String(b)) => opt_string_equal(a, b),
            (Identifier::Guid(a), Identifier::Guid(b)) => guid_equal(a, b),
            (Identifier::ByteString(a), Identifier::ByteString(b)) => opt_bytes_equal(a, b),
            _ => false,
        }
    }

    /// A copy of this identifier.
    pub fn duplicate(&self) -> (r: Identifier)
        ensures
            r@ == self@,
    {
        match self {
            Identifier::Numeric(n) => Identifier::Numeric(*n),
            Identifier::String(s) => Identifier::String(s.clone()),
            Identifier::Guid(g) => Identifier::Guid(*g),
            Identifier::ByteString(b) => Identifier::ByteString(b.clone()),
        }
    }
}

impl NodeId {
    /// The node id for the numeric identifier `n` in namespace `namespace`.
    pub fn numeric(namespace: u16, n: u32) -> (r: NodeId)
        ensures
            r@ == (NodeIdView { namespace, identifier: IdentifierView::Numeric(n) }),
    {
        NodeId { namespace, identifier: Identifier::Numeric(n) }
    }

    /// The null node id.
    pub fn null() -> (r: NodeId)
        ensures
            r@.is_null(),
    {
        NodeId::numeric(0, 0)
    }

    /// Whether this is the null node id.
    pub fn is_null(&self) -> (r: bool)
        ensures
            r == self@.is_null(),
    {
        self.namespace == 0 && match self.identifier {
            Identifier::Numeric(n) => n == 0,
            _ => false,
        }
    }

    /// Whether two node ids are the same value.
    pub fn same_as(&self, other: &NodeId) -> (r: bool)
        ensures
            r == (self@ == other@),
    {
        self.namespace == other.namespace && self.identifier.same_as(&other.identifier)
    }

    /// A copy of this node id.
    pub fn duplicate(&self) -> (r: NodeId)
        ensures
            r@ == self@,
    {
        NodeId { namespace: self.namespace, identifier: self.identifier.duplicate() }
    }
}

impl ExpandedNodeId {
    /// An expanded node id is null when its node id is null.
    pub fn is_null(&self) -> (r: bool)
        ensures
            r == self.node_id@.is_null(),
    {
        self.node_id.is_null()
    }
}

impl QualifiedName {
    /// Whether this qualified name is null.
    pub fn is_null(&self) -> (r: bool)
        ensures
            r == self@.is_null(),
    {
        self.namespace_index == 0 && self.name.is_none()
    }

    /// A copy of this qualified name.
    pub fn duplicate(&self) -> (r: QualifiedName)
        ensures
            r@ == self@,
    {
        QualifiedName { namespace_index: self.namespace_index, name: self.name.clone() }
    }

    /// Whether two qualified names are the same value.
    pub fn same_as(&self, other: &QualifiedName) -> (r: bool)
        ensures
            r == (self@ == other@),
    {
        self.namespace_index == other.namespace_index && opt_string_equal(&self.name, &other.name)
    }
}

} // verus!
