//! Typed node attributes.
//!
//! Each type stands for one attribute and fixes the type of its value. Attributes whose values
//! are arrays, floating-point numbers or structures are read untyped through [`ua::AttributeId`].
use vstd::prelude::*;

use crate::ua::{self, AttributeId};
use crate::Attribute;

verus! {

/// Attribute `NodeId`, with values of type `ua::NodeId`.
#[derive(Debug, Clone, Copy)]
pub struct NodeId;

impl Attribute for NodeId {
    type Value = ua::NodeId;

    open spec fn spec_id(&self) -> AttributeId {
        AttributeId::spec_node_id()
    }

    fn id(&self) -> (r: AttributeId) {
        AttributeId::node_id()
    }
}

/// Attribute `NodeClass`, with values of type `ua::NodeClass`.
#[derive(Debug, Clone, Copy)]
pub struct NodeClass;

impl Attribute for NodeClass {
    type Value = ua::NodeClass;

    open spec fn spec_id(&self) -> AttributeId {
        AttributeId::spec_node_class()
    }

    fn id(&self) -> (r: AttributeId) {
        AttributeId::node_class()
    }
}

/// Attribute `BrowseName`, with values of type `ua::QualifiedName`.
#[derive(Debug, Clone, Copy)]
pub struct BrowseName;

impl Attribute for BrowseName {
    type Value = ua::QualifiedName;

    open spec fn spec_id(&self) -> AttributeId {
        AttributeId::spec_browse_name()
    }

    fn id(&self) -> (r: AttributeId) {
        AttributeId::browse_name()
    }
}

/// Attribute `DisplayName`, with values of type `ua::LocalizedText`.
#[derive(Debug, Clone, Copy)]
pub struct DisplayName;

impl Attribute for DisplayName {
    type Value = ua::LocalizedText;

    open spec fn spec_id(&self) -> AttributeId {
        AttributeId::spec_display_name()
    }

    fn id(&self) -> (r: AttributeId) {
        AttributeId::display_name()
    }
}

/// Attribute `Description`, with values of type `ua::LocalizedText`.
#[derive(Debug, Clone, Copy)]
pub struct Description;

impl Attribute for Description {
    type Value = ua::LocalizedText;

    open spec fn spec_id(&self) -> AttributeId {
        AttributeId::spec_description()
    }

    fn id(&self) -> (r: AttributeId) {
        AttributeId::description()
    }
}

/// Attribute `WriteMask`, with values of type `ua::AttributeWriteMask`.
#[derive(Debug, Clone, Copy)]
pub struct WriteMask;

impl Attribute for WriteMask {
    type Value = ua::AttributeWriteMask;

    open spec fn spec_id(&self) -> AttributeId {
        AttributeId::spec_write_mask()
    }

    fn id(&self) -> (r: AttributeId) {
        AttributeId::write_mask()
    }
}

/// Attribute `UserWriteMask`, with values of type `ua::AttributeWriteMask`.
#[derive(Debug, Clone, Copy)]
pub struct UserWriteMask;

impl Attribute for UserWriteMask {
    type Value = ua::AttributeWriteMask;

    open spec fn spec_id(&self) -> AttributeId {
        AttributeId::spec_user_write_mask()
    }

    fn id(&self) -> (r: AttributeId) {
        AttributeId::user_write_mask()
    }
}

/// Attribute `IsAbstract`, with values of type `bool`.
#[derive(Debug, Clone, Copy)]
pub struct IsAbstract;

impl Attribute for IsAbstract {
    type Value = bool;

    open spec fn spec_id(&self) -> AttributeId {
        AttributeId::spec_is_abstract()
    }

    fn id(&self) -> (r: AttributeId) {
        AttributeId::is_abstract()
    }
}

/// Attribute `Symmetric`, with values of type `bool`.
#[derive(Debug, Clone, Copy)]
pub struct Symmetric;

impl Attribute for Symmetric {
    type Value = bool;

    open spec fn spec_id(&self) -> AttributeId {
        AttributeId::spec_symmetric()
    }

    fn id(&self) -> (r: AttributeId) {
        AttributeId::symmetric()
    }
}

/// Attribute `InverseName`, with values of type `ua::LocalizedText`.
#[derive(Debug, Clone, Copy)]
pub struct InverseName;

impl Attribute for InverseName {
    type Value = ua::LocalizedText;

    open spec fn spec_id(&self) -> AttributeId {
        AttributeId::spec_inverse_name()
    }

    fn id(&self) -> (r: AttributeId) {
        AttributeId::inverse_name()
    }
}

/// Attribute `ContainsNoLoops`, with values of type `bool`.
#[derive(Debug, Clone, Copy)]
pub struct ContainsNoLoops;

impl Attribute for ContainsNoLoops {
    type Value = bool;

    open spec fn spec_id(&self) -> AttributeId {
        AttributeId::spec_contains_no_loops()
    }

    fn id(&self) -> (r: AttributeId) {
        AttributeId::contains_no_loops()
    }
}

/// Attribute `EventNotifier`, with values of type `ua::EventNotifierType`.
#[derive(Debug, Clone, Copy)]
pub struct EventNotifier;

impl Attribute for EventNotifier {
    type Value = ua::EventNotifierType;

    open spec fn spec_id(&self) -> AttributeId {
        AttributeId::spec_event_notifier()
    }

    fn id(&self) -> (r: AttributeId) {
        AttributeId::event_notifier()
    }
}

/// Attribute `Value`, with values of type `ua::Variant`.
#[derive(Debug, Clone, Copy)]
pub struct Value;

impl Attribute for Value {
    type Value = ua::Variant;

    open spec fn spec_id(&self) -> AttributeId {
        AttributeId::spec_value()
    }

    fn id(&self) -> (r: AttributeId) {
        AttributeId::value()
    }
}

/// Attribute `DataType`, with values of type `ua::NodeId`.
#[derive(Debug, Clone, Copy)]
pub struct DataType;

impl Attribute for DataType {
    type Value = ua::NodeId;

    open spec fn spec_id(&self) -> AttributeId {
        AttributeId::spec_data_type()
    }

    fn id(&self) -> (r: AttributeId) {
        AttributeId::data_type()
    }
}

/// Attribute `ValueRank`, with values of type `i32`.
#[derive(Debug, Clone, Copy)]
pub struct ValueRank;

impl Attribute for ValueRank {
    type Value = i32;

    open spec fn spec_id(&self) -> AttributeId {
        AttributeId::spec_value_rank()
    }

    fn id(&self) -> (r: AttributeId) {
        AttributeId::value_rank()
    }
}

/// Attribute `AccessLevel`, with values of type `ua::AccessLevelType`.
#[derive(Debug, Clone, Copy)]
pub struct AccessLevel;

impl Attribute for AccessLevel {
    type Value = ua::AccessLevelType;

    open spec fn spec_id(&self) -> AttributeId {
        AttributeId::spec_access_level()
    }

    fn id(&self) -> (r: AttributeId) {
        AttributeId::access_level()
    }
}

/// Attribute `UserAccessLevel`, with values of type `ua::AccessLevelType`.
#[derive(Debug, Clone, Copy)]
pub struct UserAccessLevel;

impl Attribute for UserAccessLevel {
    type Value = ua::AccessLevelType;

    open spec fn spec_id(&self) -> AttributeId {
        AttributeId::spec_user_access_level()
    }

    fn id(&self) -> (r: AttributeId) {
        AttributeId::user_access_level()
    }
}

/// Attribute `Historizing`, with values of type `bool`.
#[derive(Debug, Clone, Copy)]
pub struct Historizing;

impl Attribute for Historizing {
    type Value = bool;

    open spec fn spec_id(&self) -> AttributeId {
        AttributeId::spec_historizing()
    }

    fn id(&self) -> (r: AttributeId) {
        AttributeId::historizing()
    }
}

/// Attribute `Executable`, with values of type `bool`.
#[derive(Debug, Clone, Copy)]
pub struct Executable;

impl Attribute for Executable {
    type Value = bool;

    open spec fn spec_id(&self) -> AttributeId {
        AttributeId::spec_executable()
    }

    fn id(&self) -> (r: AttributeId) {
        AttributeId::executable()
    }
}

/// Attribute `UserExecutable`, with values of type `bool`.
#[derive(Debug, Clone, Copy)]
pub struct UserExecutable;

impl Attribute for UserExecutable {
    type Value = bool;

    open spec fn spec_id(&self) -> AttributeId {
        AttributeId::spec_user_executable()
    }

    fn id(&self) -> (r: AttributeId) {
        AttributeId::user_executable()
    }
}

/// Attribute `AccessRestrictions`, with values of type `ua::AccessRestrictionType`.
#[derive(Debug, Clone, Copy)]
pub struct AccessRestrictions;

impl Attribute for AccessRestrictions {
    type Value = ua::AccessRestrictionType;

    open spec fn spec_id(&self) -> AttributeId {
        AttributeId::spec_access_restrictions()
    }

    fn id(&self) -> (r: AttributeId) {
        AttributeId::access_restrictions()
    }
}

/// Attribute `AccessLevelEx`, with values of type `ua::AccessLevelExType`.
#[derive(Debug, Clone, Copy)]
pub struct AccessLevelEx;

impl Attribute for AccessLevelEx {
    type Value = ua::AccessLevelExType;

    open spec fn spec_id(&self) -> AttributeId {
        AttributeId::spec_access_level_ex()
    }

    fn id(&self) -> (r: AttributeId) {
        AttributeId::access_level_ex()
    }
}

/// Each typed attribute reads the attribute with its OPC UA attribute ID: `NodeId` 1, `NodeClass`
/// 2, `BrowseName` 3, `DisplayName` 4, `Description` 5, and so on up to `AccessLevelEx` 27.
pub proof fn lemma_attribute_ids()
    ensures
        NodeId.spec_id() == AttributeId(1u32),
        NodeClass.spec_id() == AttributeId(2u32),
        BrowseName.spec_id() == AttributeId(3u32),
        DisplayName.spec_id() == AttributeId(4u32),
        Description.spec_id() == AttributeId(5u32),
        WriteMask.spec_id() == AttributeId(6u32),
        UserWriteMask.spec_id() == AttributeId(7u32),
        IsAbstract.spec_id() == AttributeId(8u32),
        Symmetric.spec_id() == AttributeId(9u32),
        InverseName.spec_id() == AttributeId(10u32),
        ContainsNoLoops.spec_id() == AttributeId(11u32),
        EventNotifier.spec_id() == AttributeId(12u32),
        Value.spec_id() == AttributeId(13u32),
        DataType.spec_id() == AttributeId(14u32),
        ValueRank.spec_id() == AttributeId(15u32),
        AccessLevel.spec_id() == AttributeId(17u32),
        UserAccessLevel.spec_id() == AttributeId(18u32),
        Historizing.spec_id() == AttributeId(20u32),
        Executable.spec_id() == AttributeId(21u32),
        UserExecutable.spec_id() == AttributeId(22u32),
        AccessRestrictions.spec_id() == AttributeId(26u32),
        AccessLevelEx.spec_id() == AttributeId(27u32),
{
}

} // verus!
