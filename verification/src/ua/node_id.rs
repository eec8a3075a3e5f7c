use vstd::prelude::*;
use vstd::string::*;

verus! {

/// Identifier part of a node ID.
#[derive(Debug)]
pub enum Identifier {
    Numeric(u32),
    String(String),
    Guid(u128),
    ByteString(Vec<u8>),
}

/// Mathematical value of an [`Identifier`].
pub enum IdentifierView {
    Numeric(u32),
    String(Seq<char>),
    Guid(u128),
    ByteString(Seq<u8>),
}

impl View for Identifier {
    type V = IdentifierView;

    open spec fn view(&self) -> IdentifierView {
        match self {
            Identifier::Numeric(n) => IdentifierView::Numeric(*n),
            Identifier::String(s) => IdentifierView::String(s@),
            Identifier::Guid(g) => IdentifierView::Guid(*g),
            Identifier::ByteString(b) => IdentifierView::ByteString(b@),
        }
    }
}

/// OPC UA node ID: a namespace index and an identifier in that namespace.
#[derive(Debug)]
pub struct NodeId {
    pub namespace_index: u16,
    pub identifier: Identifier,
}

/// Mathematical value of a [`NodeId`].
pub struct NodeIdView {
    pub namespace_index: u16,
    pub identifier: IdentifierView,
}

impl View for NodeId {
    type V = NodeIdView;

    open spec fn view(&self) -> NodeIdView {
        NodeIdView { namespace_index: self.namespace_index, identifier: self.identifier@ }
    }
}

/// Compares two byte vectors element by element.
fn bytes_equal(a: &Vec<u8>, b: &Vec<u8>) -> (r: bool)
    ensures
        r == (a@ == b@),
{
    if a.len() != b.len() {
        return false;
    }
    let mut i: usize = 0;
    while i < a.len()
        invariant
            a.len() == b.len(),
            i <= a.len(),
            forall|j: int| 0 <= j < i ==> a@[j] == b@[j],
        decreases a.len() - i,
    {
        if a[i] != b[i] {
            return false;
        }
        i = i + 1;
    }
    assert(a@ =~= b@);
    true
}

/// Copies a byte vector.
fn bytes_copy(a: &Vec<u8>) -> (r: Vec<u8>)
    ensures
        r@ == a@,
{
    let mut r: Vec<u8> = Vec::new();
    let mut i: usize = 0;
    while i < a.len()
        invariant
            i <= a.len(),
            r@ == a@.subrange(0, i as int),
        decreases a.len() - i,
    {
        r.push(a[i]);
        i = i + 1;
        assert(r@ =~= a@.subrange(0, i as int));
    }
    assert(a@.subrange(0, a.len() as int) =~= a@);
    r
}

impl Identifier {
    /// Copies the identifier.
    pub fn duplicate(&self) -> (r: Identifier)
        ensures
            r@ == self@,
    {
        match self {
            Identifier::Numeric(n) => Identifier::Numeric(*n),
            Identifier::String(s) => Identifier::String(s.clone()),
            Identifier::Guid(g) => Identifier::Guid(*g),
            Identifier::ByteString(b) => Identifier::ByteString(bytes_copy(b)),
        }
    }

    /// Compares two identifiers by value.
    pub fn equals(&self, other: &Identifier) -> (r: bool)
        ensures
            r == (self@ == other@),
    {
        match (self, other) {
            (Identifier::Numeric(a), Identifier::Numeric(b)) => *a == *b,
            (Identifier::String(a), Identifier::String(b)) => {
                let e = a.eq(b);
                e
            },
            (Identifier::Guid(a), Identifier::Guid(b)) => *a == *b,
            (Identifier::ByteString(a), Identifier::ByteString(b)) => bytes_equal(a, b),
            _ => false,
        }
    }
}

impl Clone for NodeId {
    fn clone(&self) -> (r: NodeId)
        ensures
            r@ == self@,
    {
        NodeId { namespace_index: self.namespace_index, identifier: self.identifier.duplicate() }
    }
}

impl NodeId {
    /// Creates numeric node ID.
    pub fn numeric(namespace_index: u16, numeric: u32) -> (r: NodeId)
        ensures
            r@ == (NodeIdView {
                namespace_index,
                identifier: IdentifierView::Numeric(numeric),
            }),
    {
        NodeId { namespace_index, identifier: Identifier::Numeric(numeric) }
    }

    /// Creates numeric node ID in namespace 0 (the OPC UA namespace).
    pub fn ns0(numeric: u32) -> (r: NodeId)
        ensures
            r@ == (NodeIdView { namespace_index: 0, identifier: IdentifierView::Numeric(numeric) }),
    {
        NodeId::numeric(0, numeric)
    }

    /// Creates string node ID.
    pub fn string(namespace_index: u16, string: &str) -> (r: NodeId)
        ensures
            r@ == (NodeIdView {
                namespace_index,
                identifier: IdentifierView::String(string@),
            }),
    {
        NodeId { namespace_index, identifier: Identifier::String(string.to_owned()) }
    }

    /// Creates numeric node ID; this always succeeds.
    pub fn new_numeric(namespace_index: u16, numeric: u32) -> (r: Option<NodeId>)
        ensures
            r matches Some(n) && n@ == (NodeIdView {
                namespace_index,
                identifier: IdentifierView::Numeric(numeric),
            }),
    {
        Some(NodeId::numeric(namespace_index, numeric))
    }

    /// Creates string node ID; `None` when the string is empty or contains a NUL character.
    pub fn new_string(namespace_index: u16, chars: &str) -> (r: Option<NodeId>)
        ensures
            r is Some <==> chars@.len() > 0 && !chars@.contains('\0'),
            r matches Some(n) ==> n@ == (NodeIdView {
                namespace_index,
                identifier: IdentifierView::String(chars@),
            }),
    {
        let len = chars.unicode_len();
        if len == 0 {
            return None;
        }
        let mut i: usize = 0;
        while i < len
            invariant
                len == chars@.len(),
                i <= len,
                forall|k: int| 0 <= k < i ==> chars@[k] != '\0',
            decreases len - i,
        {
            if chars.get_char(i) == '\0' {
                return None;
            }
            i = i + 1;
        }
        Some(NodeId::string(namespace_index, chars))
    }

    /// Creates the null node ID (numeric identifier 0 in namespace 0).
    pub fn null() -> (r: NodeId)
        ensures
            r@ == (NodeIdView { namespace_index: 0, identifier: IdentifierView::Numeric(0) }),
    {
        NodeId::numeric(0, 0)
    }

    /// Checks whether this is the null node ID.
    pub fn is_null(&self) -> (r: bool)
        ensures
            r == (self@ == (NodeIdView {
                namespace_index: 0,
                identifier: IdentifierView::Numeric(0),
            })),
    {
        self.namespace_index == 0 && match &self.identifier {
            Identifier::Numeric(n) => *n == 0,
            _ => false,
        }
    }

    /// Gets the namespace index.
    pub fn namespace_index(&self) -> (r: u16)
        ensures
            r == self.namespace_index,
    {
        self.namespace_index
    }

    /// Checks whether the node ID lies in namespace 0.
    pub fn is_ns0(&self) -> (r: bool)
        ensures
            r == (self.namespace_index == 0),
    {
        self.namespace_index == 0
    }

    /// Checks whether the identifier is numeric.
    pub fn is_numeric(&self) -> (r: bool)
        ensures
            r == (self.identifier is Numeric),
    {
        match &self.identifier {
            Identifier::Numeric(_) => true,
            _ => false,
        }
    }

    /// Gets the numeric identifier of a node ID in namespace 0.
    pub fn as_ns0(&self) -> (r: Option<u32>)
        ensures
            r == (if self.namespace_index == 0 && self.identifier is Numeric {
                Some(self.identifier->Numeric_0)
            } else {
                None
            }),
    {
        if self.namespace_index != 0 {
            return None;
        }
        match &self.identifier {
            Identifier::Numeric(n) => Some(*n),
            _ => None,
        }
    }

    /// Compares two node IDs by value.
    pub fn equals(&self, other: &NodeId) -> (r: bool)
        ensures
            r == (self@ == other@),
    {
        self.namespace_index == other.namespace_index && self.identifier.equals(&other.identifier)
    }
}

} // verus!
