use vstd::prelude::*;

use crate::ua::{
    self, AccessLevelExType, AccessLevelType, AccessRestrictionType, AttributeId,
    AttributeWriteMask, ByteString, DateTime, EventNotifierType, ExtensionObject, LocalizedText,
    NodeClass, NodeId, QualifiedName, StatusCode, Variant,
};

verus! {

/// Value type that can be extracted from a scalar [`Variant`].
///
/// Extended types (such as [`AttributeWriteMask`]) are carried in a variant by their underlying
/// integer type.
pub trait DataTypeExt: Sized {
    /// The value held by `v` when it holds a scalar of this type.
    spec fn spec_from_variant(v: Variant) -> Option<Self>;

    /// Extracts a scalar of this type.
    fn from_variant(v: Variant) -> (r: Option<Self>)
        ensures
            r == Self::spec_from_variant(v),
    ;
}

impl DataTypeExt for Variant {
    /// A variant never holds a scalar variant.
    open spec fn spec_from_variant(v: Variant) -> Option<Variant> {
        None
    }

    fn from_variant(v: Variant) -> (r: Option<Variant>) {
        None
    }
}

impl DataTypeExt for bool {
    open spec fn spec_from_variant(v: Variant) -> Option<bool> {
        match v {
            Variant::Boolean(x) => Some(x),
            _ => None,
        }
    }

    fn from_variant(v: Variant) -> (r: Option<bool>) {
        match v {
            Variant::Boolean(x) => Some(x),
            _ => None,
        }
    }
}

impl DataTypeExt for i32 {
    open spec fn spec_from_variant(v: Variant) -> Option<i32> {
        match v {
            Variant::Int32(x) => Some(x),
            _ => None,
        }
    }

    fn from_variant(v: Variant) -> (r: Option<i32>) {
        match v {
            Variant::Int32(x) => Some(x),
            _ => None,
        }
    }
}

impl DataTypeExt for u32 {
    open spec fn spec_from_variant(v: Variant) -> Option<u32> {
        match v {
            Variant::UInt32(x) => Some(x),
            _ => None,
        }
    }

    fn from_variant(v: Variant) -> (r: Option<u32>) {
        match v {
            Variant::UInt32(x) => Some(x),
            _ => None,
        }
    }
}

impl DataTypeExt for u8 {
    open spec fn spec_from_variant(v: Variant) -> Option<u8> {
        match v {
            Variant::Byte(x) => Some(x),
            _ => None,
        }
    }

    fn from_variant(v: Variant) -> (r: Option<u8>) {
        match v {
            Variant::Byte(x) => Some(x),
            _ => None,
        }
    }
}

impl DataTypeExt for String {
    open spec fn spec_from_variant(v: Variant) -> Option<String> {
        match v {
            Variant::String(x) => Some(x),
            _ => None,
        }
    }

    fn from_variant(v: Variant) -> (r: Option<String>) {
        match v {
            Variant::String(x) => Some(x),
            _ => None,
        }
    }
}

impl DataTypeExt for NodeId {
    open spec fn spec_from_variant(v: Variant) -> Option<NodeId> {
        match v {
            Variant::NodeId(x) => Some(x),
            _ => None,
        }
    }

    fn from_variant(v: Variant) -> (r: Option<NodeId>) {
        match v {
            Variant::NodeId(x) => Some(x),
            _ => None,
        }
    }
}

impl DataTypeExt for StatusCode {
    open spec fn spec_from_variant(v: Variant) -> Option<StatusCode> {
        match v {
            Variant::StatusCode(x) => Some(x),
            _ => None,
        }
    }

    fn from_variant(v: Variant) -> (r: Option<StatusCode>) {
        match v {
            Variant::StatusCode(x) => Some(x),
            _ => None,
        }
    }
}

impl DataTypeExt for DateTime {
    open spec fn spec_from_variant(v: Variant) -> Option<DateTime> {
        match v {
            Variant::DateTime(x) => Some(x),
            _ => None,
        }
    }

    fn from_variant(v: Variant) -> (r: Option<DateTime>) {
        match v {
            Variant::DateTime(x) => Some(x),
            _ => None,
        }
    }
}

impl DataTypeExt for ByteString {
    open spec fn spec_from_variant(v: Variant) -> Option<ByteString> {
        match v {
            Variant::ByteString(x) => Some(x),
            _ => None,
        }
    }

    fn from_variant(v: Variant) -> (r: Option<ByteString>) {
        match v {
            Variant::ByteString(x) => Some(x),
            _ => None,
        }
    }
}

impl DataTypeExt for QualifiedName {
    open spec fn spec_from_variant(v: Variant) -> Option<QualifiedName> {
        match v {
            Variant::QualifiedName(x) => Some(x),
            _ => None,
        }
    }

    fn from_variant(v: Variant) -> (r: Option<QualifiedName>) {
        match v {
            Variant::QualifiedName(x) => Some(x),
            _ => None,
        }
    }
}

impl DataTypeExt for LocalizedText {
    open spec fn spec_from_variant(v: Variant) -> Option<LocalizedText> {
        match v {
            Variant::LocalizedText(x) => Some(x),
            _ => None,
        }
    }

    fn from_variant(v: Variant) -> (r: Option<LocalizedText>) {
        match v {
            Variant::LocalizedText(x) => Some(x),
            _ => None,
        }
    }
}

impl DataTypeExt for NodeClass {
    open spec fn spec_from_variant(v: Variant) -> Option<NodeClass> {
        match v {
            Variant::NodeClass(x) => Some(x),
            _ => None,
        }
    }

    fn from_variant(v: Variant) -> (r: Option<NodeClass>) {
        match v {
            Variant::NodeClass(x) => Some(x),
            _ => None,
        }
    }
}

impl DataTypeExt for AttributeWriteMask {
    open spec fn spec_from_variant(v: Variant) -> Option<AttributeWriteMask> {
        match v {
            Variant::UInt32(x) => Some(AttributeWriteMask(x)),
            _ => None,
        }
    }

    fn from_variant(v: Variant) -> (r: Option<AttributeWriteMask>) {
        match v {
            Variant::UInt32(x) => Some(AttributeWriteMask(x)),
            _ => None,
        }
    }
}

impl DataTypeExt for EventNotifierType {
    open spec fn spec_from_variant(v: Variant) -> Option<EventNotifierType> {
        match v {
            Variant::Byte(x) => Some(EventNotifierType(x)),
            _ => None,
        }
    }

    fn from_variant(v: Variant) -> (r: Option<EventNotifierType>) {
        match v {
            Variant::Byte(x) => Some(EventNotifierType(x)),
            _ => None,
        }
    }
}

impl DataTypeExt for AccessLevelType {
    open spec fn spec_from_variant(v: Variant) -> Option<AccessLevelType> {
        match v {
            Variant::Byte(x) => Some(AccessLevelType(x)),
            _ => None,
        }
    }

    fn from_variant(v: Variant) -> (r: Option<AccessLevelType>) {
        match v {
            Variant::Byte(x) => Some(AccessLevelType(x)),
            _ => None,
        }
    }
}

impl DataTypeExt for AccessRestrictionType {
    open spec fn spec_from_variant(v: Variant) -> Option<AccessRestrictionType> {
        match v {
            Variant::UInt16(x) => Some(AccessRestrictionType(x)),
            _ => None,
        }
    }

    fn from_variant(v: Variant) -> (r: Option<AccessRestrictionType>) {
        match v {
            Variant::UInt16(x) => Some(AccessRestrictionType(x)),
            _ => None,
        }
    }
}

impl DataTypeExt for AccessLevelExType {
    open spec fn spec_from_variant(v: Variant) -> Option<AccessLevelExType> {
        match v {
            Variant::UInt32(x) => Some(AccessLevelExType(x)),
            _ => None,
        }
    }

    fn from_variant(v: Variant) -> (r: Option<AccessLevelExType>) {
        match v {
            Variant::UInt32(x) => Some(AccessLevelExType(x)),
            _ => None,
        }
    }
}

/// Node attribute.
///
/// This matches the appropriate result types at compile time when reading attributes from nodes.
pub trait Attribute: Sized {
    /// Attribute data type.
    type Value: DataTypeExt;

    /// The attribute ID.
    spec fn spec_id(&self) -> AttributeId;

    /// Gets attribute ID.
    fn id(&self) -> (r: AttributeId)
        ensures
            r == self.spec_id(),
    ;
}

/// Untyped attribute given by its ID; its values are read as variants.
impl Attribute for AttributeId {
    type Value = Variant;

    open spec fn spec_id(&self) -> AttributeId {
        *self
    }

    fn id(&self) -> (r: AttributeId) {
        *self
    }
}

/// Monitoring filter.
///
/// This is used as extensible parameter of monitored item creation requests.
pub trait MonitoringFilter {
    /// The encoded filter.
    spec fn spec_extension_object(&self) -> ExtensionObject;

    /// Encodes the filter.
    fn to_extension_object(&self) -> (r: ExtensionObject)
        ensures
            r == self.spec_extension_object(),
    ;
}

/// Filter operand.
///
/// This is used as extensible parameter of content filter elements.
pub trait FilterOperand {
    /// The encoded operand.
    spec fn spec_extension_object(&self) -> ExtensionObject;

    /// Encodes the operand.
    fn to_extension_object(&self) -> (r: ExtensionObject)
        ensures
            r == self.spec_extension_object(),
    ;
}

/// Custom certificate verification.
pub trait CustomCertificateVerification {
    /// Verifies the certificate of the other side.
    fn verify_certificate(&self, certificate: &ByteString) -> StatusCode;

    /// Verifies that the certificate matches the application URI.
    fn verify_application_uri(
        &self,
        certificate: &ByteString,
        application_uri: &String,
    ) -> StatusCode;
}

/// Private-key password callback.
///
/// This is used to fetch the password for a given client private key when establishing a
/// connection.
pub trait PrivateKeyPasswordCallback {
    /// Provides private-key password.
    ///
    /// # Errors
    ///
    /// This should return an appropriate error when the password cannot be provided.
    fn private_key_password(&self) -> crate::Result<crate::Password>;
}

/// Extracting a scalar gives back exactly the value that a variant of the type's own kind holds,
/// and nothing from a variant of any other kind.
pub proof fn lemma_scalar_from_variant()
    ensures
        forall|x: bool| #[trigger] <bool as DataTypeExt>::spec_from_variant(Variant::Boolean(x)) == Some(x),
        forall|v: Variant| !(v is Boolean) ==> #[trigger] <bool as DataTypeExt>::spec_from_variant(v) is None,
        forall|x: i32| #[trigger] <i32 as DataTypeExt>::spec_from_variant(Variant::Int32(x)) == Some(x),
        forall|v: Variant| !(v is Int32) ==> #[trigger] <i32 as DataTypeExt>::spec_from_variant(v) is None,
        forall|x: u32| #[trigger] <u32 as DataTypeExt>::spec_from_variant(Variant::UInt32(x)) == Some(x),
        forall|v: Variant| !(v is UInt32) ==> #[trigger] <u32 as DataTypeExt>::spec_from_variant(v) is None,
        forall|x: u8| #[trigger] <u8 as DataTypeExt>::spec_from_variant(Variant::Byte(x)) == Some(x),
        forall|v: Variant| !(v is Byte) ==> #[trigger] <u8 as DataTypeExt>::spec_from_variant(v) is None,
        forall|x: String| #[trigger] <String as DataTypeExt>::spec_from_variant(Variant::String(x)) == Some(x),
        forall|v: Variant| !(v is String) ==> #[trigger] <String as DataTypeExt>::spec_from_variant(v) is None,
        forall|x: NodeId| #[trigger] <NodeId as DataTypeExt>::spec_from_variant(Variant::NodeId(x)) == Some(x),
        forall|v: Variant| !(v is NodeId) ==> #[trigger] <NodeId as DataTypeExt>::spec_from_variant(v) is None,
        forall|x: StatusCode| #[trigger] <StatusCode as DataTypeExt>::spec_from_variant(Variant::StatusCode(x)) == Some(x),
        forall|v: Variant| !(v is StatusCode) ==> #[trigger] <StatusCode as DataTypeExt>::spec_from_variant(v) is None,
        forall|x: DateTime| #[trigger] <DateTime as DataTypeExt>::spec_from_variant(Variant::DateTime(x)) == Some(x),
        forall|v: Variant| !(v is DateTime) ==> #[trigger] <DateTime as DataTypeExt>::spec_from_variant(v) is None,
        forall|x: ByteString| #[trigger] <ByteString as DataTypeExt>::spec_from_variant(Variant::ByteString(x)) == Some(x),
        forall|v: Variant| !(v is ByteString) ==> #[trigger] <ByteString as DataTypeExt>::spec_from_variant(v) is None,
        forall|x: QualifiedName| #[trigger] <QualifiedName as DataTypeExt>::spec_from_variant(Variant::QualifiedName(x)) == Some(x),
        forall|v: Variant| !(v is QualifiedName) ==> #[trigger] <QualifiedName as DataTypeExt>::spec_from_variant(v) is None,
        forall|x: LocalizedText| #[trigger] <LocalizedText as DataTypeExt>::spec_from_variant(Variant::LocalizedText(x)) == Some(x),
        forall|v: Variant| !(v is LocalizedText) ==> #[trigger] <LocalizedText as DataTypeExt>::spec_from_variant(v) is None,
        forall|x: NodeClass| #[trigger] <NodeClass as DataTypeExt>::spec_from_variant(Variant::NodeClass(x)) == Some(x),
        forall|v: Variant| !(v is NodeClass) ==> #[trigger] <NodeClass as DataTypeExt>::spec_from_variant(v) is None,
        forall|x: u32| #[trigger] <AttributeWriteMask as DataTypeExt>::spec_from_variant(Variant::UInt32(x)) == Some(AttributeWriteMask(x)),
        forall|v: Variant| !(v is UInt32) ==> #[trigger] <AttributeWriteMask as DataTypeExt>::spec_from_variant(v) is None,
        forall|x: u8| #[trigger] <EventNotifierType as DataTypeExt>::spec_from_variant(Variant::Byte(x)) == Some(EventNotifierType(x)),
        forall|v: Variant| !(v is Byte) ==> #[trigger] <EventNotifierType as DataTypeExt>::spec_from_variant(v) is None,
        forall|x: u8| #[trigger] <AccessLevelType as DataTypeExt>::spec_from_variant(Variant::Byte(x)) == Some(AccessLevelType(x)),
        forall|v: Variant| !(v is Byte) ==> #[trigger] <AccessLevelType as DataTypeExt>::spec_from_variant(v) is None,
        forall|x: u16| #[trigger] <AccessRestrictionType as DataTypeExt>::spec_from_variant(Variant::UInt16(x)) == Some(AccessRestrictionType(x)),
        forall|v: Variant| !(v is UInt16) ==> #[trigger] <AccessRestrictionType as DataTypeExt>::spec_from_variant(v) is None,
        forall|x: u32| #[trigger] <AccessLevelExType as DataTypeExt>::spec_from_variant(Variant::UInt32(x)) == Some(AccessLevelExType(x)),
        forall|v: Variant| !(v is UInt32) ==> #[trigger] <AccessLevelExType as DataTypeExt>::spec_from_variant(v) is None,
{
}

} // verus!
