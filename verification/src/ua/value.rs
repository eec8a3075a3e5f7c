use vstd::prelude::*;

use super::{DateTime, NodeClass, NodeId, StatusCode};

verus! {

/// Copies a byte slice into a new vector.
pub fn copy_bytes(bytes: &[u8]) -> (r: Vec<u8>)
    ensures
        r@ == bytes@,
{
    let mut r: Vec<u8> = Vec::new();
    let mut i: usize = 0;
    while i < bytes.len()
        invariant
            i <= bytes@.len(),
            r@ == bytes@.subrange(0, i as int),
        decreases bytes@.len() - i,
    {
        r.push(bytes[i]);
        i = i + 1;
        assert(r@ =~= bytes@.subrange(0, i as int));
    }
    assert(bytes@.subrange(0, bytes@.len() as int) =~= bytes@);
    r
}

/// OPC UA byte string. `None` stands for the invalid (null) byte string.
#[derive(Debug, Clone)]
pub struct ByteString(pub Option<Vec<u8>>);

impl ByteString {
    /// Creates byte string holding a copy of `bytes`.
    pub fn new(bytes: &[u8]) -> (r: ByteString)
        ensures
            r.0 matches Some(v) && v@ == bytes@,
    {
        ByteString(Some(copy_bytes(bytes)))
    }

    /// Creates the invalid (null) byte string.
    pub fn invalid() -> (r: ByteString)
        ensures
            r.0 is None,
    {
        ByteString(None)
    }

    /// Checks whether this is the invalid (null) byte string.
    pub fn is_invalid(&self) -> (r: bool)
        ensures
            r == (self.0 is None),
    {
        self.0.is_none()
    }

    /// Gets the bytes, or `None` for the invalid byte string.
    pub fn as_bytes(&self) -> (r: Option<&[u8]>)
        ensures
            r matches Some(b) ==> self.0 matches Some(v) && b@ == v@,
            r is None <==> self.0 is None,
    {
        match &self.0 {
            Some(v) => Some(v.as_slice()),
            None => None,
        }
    }
}

/// Name qualified by a namespace index.
#[derive(Debug, Clone)]
pub struct QualifiedName {
    pub namespace_index: u16,
    pub name: String,
}

impl QualifiedName {
    /// Creates qualified name.
    pub fn new(namespace_index: u16, name: &str) -> (r: QualifiedName)
        ensures
            r.namespace_index == namespace_index,
            r.name@ == name@,
    {
        QualifiedName { namespace_index, name: name.to_owned() }
    }
}

/// Human-readable text with its locale.
#[derive(Debug, Clone)]
pub struct LocalizedText {
    pub locale: String,
    pub text: String,
}

impl LocalizedText {
    /// Creates localized text.
    pub fn new(locale: &str, text: &str) -> (r: LocalizedText)
        ensures
            r.locale@ == locale@,
            r.text@ == text@,
    {
        LocalizedText { locale: locale.to_owned(), text: text.to_owned() }
    }
}

/// Encoded structure together with the ID of its data type encoding.
#[derive(Debug, Clone)]
pub struct ExtensionObject {
    pub type_id: NodeId,
    pub body: Vec<u8>,
}

impl ExtensionObject {
    /// Two extension objects hold the same type ID and the same encoded body.
    pub open spec fn same_as(self, other: ExtensionObject) -> bool {
        self.type_id@ == other.type_id@ && self.body@ == other.body@
    }

    /// Copies the extension object.
    pub fn duplicate(&self) -> (r: ExtensionObject)
        ensures
            r.same_as(*self),
    {
        ExtensionObject { type_id: self.type_id.clone(), body: copy_bytes(self.body.as_slice()) }
    }
}

/// Scalar value of one of the modelled OPC UA data types.
///
/// Floating-point values are not modelled.
#[derive(Debug, Clone)]
pub enum Variant {
    Empty,
    Boolean(bool),
    SByte(i8),
    Byte(u8),
    Int16(i16),
    UInt16(u16),
    Int32(i32),
    UInt32(u32),
    Int64(i64),
    UInt64(u64),
    String(String),
    DateTime(DateTime),
    ByteString(ByteString),
    NodeId(NodeId),
    StatusCode(StatusCode),
    QualifiedName(QualifiedName),
    LocalizedText(LocalizedText),
    NodeClass(NodeClass),
}

impl Variant {
    /// Checks whether the variant holds no value.
    pub fn is_empty(&self) -> (r: bool)
        ensures
            r == (self is Empty),
    {
        match self {
            Variant::Empty => true,
            _ => false,
        }
    }
}

/// Value with status and timestamps, as returned by reads and notifications.
#[derive(Debug, Clone)]
pub struct DataValue {
    pub value: Option<Variant>,
    pub status: Option<StatusCode>,
    pub source_timestamp: Option<DateTime>,
    pub server_timestamp: Option<DateTime>,
    pub source_picoseconds: Option<u16>,
    pub server_picoseconds: Option<u16>,
}

impl DataValue {
    /// Data value holding only `value`.
    pub open spec fn new_spec(value: Variant) -> DataValue {
        DataValue {
            value: Some(value),
            status: None,
            source_timestamp: None,
            server_timestamp: None,
            source_picoseconds: None,
            server_picoseconds: None,
        }
    }

    /// Creates data value holding only `value`.
    pub fn new(value: Variant) -> (r: DataValue)
        ensures
            r == DataValue::new_spec(value),
    {
        DataValue {
            value: Some(value),
            status: None,
            source_timestamp: None,
            server_timestamp: None,
            source_picoseconds: None,
            server_picoseconds: None,
        }
    }

    /// Creates empty data value.
    pub fn init() -> (r: DataValue)
        ensures
            r == (DataValue {
                value: None,
                status: None,
                source_timestamp: None,
                server_timestamp: None,
                source_picoseconds: None,
                server_picoseconds: None,
            }),
    {
        DataValue {
            value: None,
            status: None,
            source_timestamp: None,
            server_timestamp: None,
            source_picoseconds: None,
            server_picoseconds: None,
        }
    }
}

/// Continuation point for browsing further references.
#[derive(Debug, Clone)]
pub struct ContinuationPoint(pub Vec<u8>);

/// Reference from a browsed node to a target node.
#[derive(Debug, Clone)]
pub struct ReferenceDescription {
    pub reference_type_id: NodeId,
    pub is_forward: bool,
    pub node_id: NodeId,
    pub browse_name: QualifiedName,
    pub display_name: LocalizedText,
    pub node_class: NodeClass,
    pub type_definition: NodeId,
}

/// Data type description read from a server.
#[derive(Debug, Clone)]
pub enum DataTypeDescription {
    /// Structure: the data type IDs of its fields, unset when the server sent none.
    Structure { data_type_id: NodeId, field_data_types: Option<Vec<NodeId>> },
    /// Enumeration.
    Enum { data_type_id: NodeId },
}

impl DataTypeDescription {
    pub open spec fn spec_data_type_id(self) -> NodeId {
        match self {
            DataTypeDescription::Structure { data_type_id, .. } => data_type_id,
            DataTypeDescription::Enum { data_type_id } => data_type_id,
        }
    }

    /// Gets the ID of the described data type.
    pub fn data_type_id(&self) -> (r: &NodeId)
        ensures
            *r == self.spec_data_type_id(),
    {
        match self {
            DataTypeDescription::Structure { data_type_id, .. } => data_type_id,
            DataTypeDescription::Enum { data_type_id } => data_type_id,
        }
    }
}

/// Result of browsing one node.
#[derive(Debug, Clone)]
pub struct BrowseResult {
    pub status_code: StatusCode,
    pub continuation_point: Option<ContinuationPoint>,
    /// References found; some servers leave this unset when there are none.
    pub references: Option<Vec<ReferenceDescription>>,
}

/// Result of calling one method.
#[derive(Debug, Clone)]
pub struct CallMethodResult {
    pub status_code: StatusCode,
    pub output_arguments: Option<Vec<Variant>>,
}

/// Target reached by following a browse path.
#[derive(Debug, Clone)]
pub struct BrowsePathTarget {
    /// Node reached.
    pub target_id: NodeId,
    /// Index of the first path element not followed; `u32::MAX` when the whole path was.
    pub remaining_path_index: u32,
}

impl BrowsePathTarget {
    /// Index of the first path element that could not be followed, or `None` when all path
    /// elements were followed.
    pub fn remaining_path_index(&self) -> (r: Option<u32>)
        ensures
            r == (if self.remaining_path_index == u32::MAX {
                None
            } else {
                Some(self.remaining_path_index)
            }),
    {
        if self.remaining_path_index == u32::MAX {
            None
        } else {
            Some(self.remaining_path_index)
        }
    }
}

} // verus!
