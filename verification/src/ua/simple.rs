use vstd::prelude::*;

verus! {

/// OPC UA attribute ID.
#[derive(Clone, Copy, PartialEq, Eq, Structural, Debug)]
pub struct AttributeId(pub u32);

impl AttributeId {
    pub open spec fn spec_node_id() -> AttributeId {
        AttributeId(1u32)
    }

    /// Attribute `NodeId`.
    #[verifier::when_used_as_spec(spec_node_id)]
    pub fn node_id() -> (r: AttributeId)
        ensures
            r == Self::spec_node_id(),
    {
        AttributeId(1u32)
    }

    pub open spec fn spec_node_class() -> AttributeId {
        AttributeId(2u32)
    }

    /// Attribute `NodeClass`.
    #[verifier::when_used_as_spec(spec_node_class)]
    pub fn node_class() -> (r: AttributeId)
        ensures
            r == Self::spec_node_class(),
    {
        AttributeId(2u32)
    }

    pub open spec fn spec_browse_name() -> AttributeId {
        AttributeId(3u32)
    }

    /// Attribute `BrowseName`.
    #[verifier::when_used_as_spec(spec_browse_name)]
    pub fn browse_name() -> (r: AttributeId)
        ensures
            r == Self::spec_browse_name(),
    {
        AttributeId(3u32)
    }

    pub open spec fn spec_display_name() -> AttributeId {
        AttributeId(4u32)
    }

    /// Attribute `DisplayName`.
    #[verifier::when_used_as_spec(spec_display_name)]
    pub fn display_name() -> (r: AttributeId)
        ensures
            r == Self::spec_display_name(),
    {
        AttributeId(4u32)
    }

    pub open spec fn spec_description() -> AttributeId {
        AttributeId(5u32)
    }

    /// Attribute `Description`.
    #[verifier::when_used_as_spec(spec_description)]
    pub fn description() -> (r: AttributeId)
        ensures
            r == Self::spec_description(),
    {
        AttributeId(5u32)
    }

    pub open spec fn spec_write_mask() -> AttributeId {
        AttributeId(6u32)
    }

    /// Attribute `WriteMask`.
    #[verifier::when_used_as_spec(spec_write_mask)]
    pub fn write_mask() -> (r: AttributeId)
        ensures
            r == Self::spec_write_mask(),
    {
        AttributeId(6u32)
    }

    pub open spec fn spec_user_write_mask() -> AttributeId {
        AttributeId(7u32)
    }

    /// Attribute `UserWriteMask`.
    #[verifier::when_used_as_spec(spec_user_write_mask)]
    pub fn user_write_mask() -> (r: AttributeId)
        ensures
            r == Self::spec_user_write_mask(),
    {
        AttributeId(7u32)
    }

    pub open spec fn spec_is_abstract() -> AttributeId {
        AttributeId(8u32)
    }

    /// Attribute `IsAbstract`.
    #[verifier::when_used_as_spec(spec_is_abstract)]
    pub fn is_abstract() -> (r: AttributeId)
        ensures
            r == Self::spec_is_abstract(),
    {
        AttributeId(8u32)
    }

    pub open spec fn spec_symmetric() -> AttributeId {
        AttributeId(9u32)
    }

    /// Attribute `Symmetric`.
    #[verifier::when_used_as_spec(spec_symmetric)]
    pub fn symmetric() -> (r: AttributeId)
        ensures
            r == Self::spec_symmetric(),
    {
        AttributeId(9u32)
    }

    pub open spec fn spec_inverse_name() -> AttributeId {
        AttributeId(10u32)
    }

    /// Attribute `InverseName`.
    #[verifier::when_used_as_spec(spec_inverse_name)]
    pub fn inverse_name() -> (r: AttributeId)
        ensures
            r == Self::spec_inverse_name(),
    {
        AttributeId(10u32)
    }

    pub open spec fn spec_contains_no_loops() -> AttributeId {
        AttributeId(11u32)
    }

    /// Attribute `ContainsNoLoops`.
    #[verifier::when_used_as_spec(spec_contains_no_loops)]
    pub fn contains_no_loops() -> (r: AttributeId)
        ensures
            r == Self::spec_contains_no_loops(),
    {
        AttributeId(11u32)
    }

    pub open spec fn spec_event_notifier() -> AttributeId {
        AttributeId(12u32)
    }

    /// Attribute `EventNotifier`.
    #[verifier::when_used_as_spec(spec_event_notifier)]
    pub fn event_notifier() -> (r: AttributeId)
        ensures
            r == Self::spec_event_notifier(),
    {
        AttributeId(12u32)
    }

    pub open spec fn spec_value() -> AttributeId {
        AttributeId(13u32)
    }

    /// Attribute `Value`.
    #[verifier::when_used_as_spec(spec_value)]
    pub fn value() -> (r: AttributeId)
        ensures
            r == Self::spec_value(),
    {
        AttributeId(13u32)
    }

    pub open spec fn spec_data_type() -> AttributeId {
        AttributeId(14u32)
    }

    /// Attribute `DataType`.
    #[verifier::when_used_as_spec(spec_data_type)]
    pub fn data_type() -> (r: AttributeId)
        ensures
            r == Self::spec_data_type(),
    {
        AttributeId(14u32)
    }

    pub open spec fn spec_value_rank() -> AttributeId {
        AttributeId(15u32)
    }

    /// Attribute `ValueRank`.
    #[verifier::when_used_as_spec(spec_value_rank)]
    pub fn value_rank() -> (r: AttributeId)
        ensures
            r == Self::spec_value_rank(),
    {
        AttributeId(15u32)
    }

    pub open spec fn spec_array_dimensions() -> AttributeId {
        AttributeId(16u32)
    }

    /// Attribute `ArrayDimensions`.
    #[verifier::when_used_as_spec(spec_array_dimensions)]
    pub fn array_dimensions() -> (r: AttributeId)
        ensures
            r == Self::spec_array_dimensions(),
    {
        AttributeId(16u32)
    }

    pub open spec fn spec_access_level() -> AttributeId {
        AttributeId(17u32)
    }

    /// Attribute `AccessLevel`.
    #[verifier::when_used_as_spec(spec_access_level)]
    pub fn access_level() -> (r: AttributeId)
        ensures
            r == Self::spec_access_level(),
    {
        AttributeId(17u32)
    }

    pub open spec fn spec_user_access_level() -> AttributeId {
        AttributeId(18u32)
    }

    /// Attribute `UserAccessLevel`.
    #[verifier::when_used_as_spec(spec_user_access_level)]
    pub fn user_access_level() -> (r: AttributeId)
        ensures
            r == Self::spec_user_access_level(),
    {
        AttributeId(18u32)
    }

    pub open spec fn spec_minimum_sampling_interval() -> AttributeId {
        AttributeId(19u32)
    }

    /// Attribute `MinimumSamplingInterval`.
    #[verifier::when_used_as_spec(spec_minimum_sampling_interval)]
    pub fn minimum_sampling_interval() -> (r: AttributeId)
        ensures
            r == Self::spec_minimum_sampling_interval(),
    {
        AttributeId(19u32)
    }

    pub open spec fn spec_historizing() -> AttributeId {
        AttributeId(20u32)
    }

    /// Attribute `Historizing`.
    #[verifier::when_used_as_spec(spec_historizing)]
    pub fn historizing() -> (r: AttributeId)
        ensures
            r == Self::spec_historizing(),
    {
        AttributeId(20u32)
    }

    pub open spec fn spec_executable() -> AttributeId {
        AttributeId(21u32)
    }

    /// Attribute `Executable`.
    #[verifier::when_used_as_spec(spec_executable)]
    pub fn executable() -> (r: AttributeId)
        ensures
            r == Self::spec_executable(),
    {
        AttributeId(21u32)
    }

    pub open spec fn spec_user_executable() -> AttributeId {
        AttributeId(22u32)
    }

    /// Attribute `UserExecutable`.
    #[verifier::when_used_as_spec(spec_user_executable)]
    pub fn user_executable() -> (r: AttributeId)
        ensures
            r == Self::spec_user_executable(),
    {
        AttributeId(22u32)
    }

    pub open spec fn spec_data_type_definition() -> AttributeId {
        AttributeId(23u32)
    }

    /// Attribute `DataTypeDefinition`.
    #[verifier::when_used_as_spec(spec_data_type_definition)]
    pub fn data_type_definition() -> (r: AttributeId)
        ensures
            r == Self::spec_data_type_definition(),
    {
        AttributeId(23u32)
    }

    pub open spec fn spec_role_permissions() -> AttributeId {
        AttributeId(24u32)
    }

    /// Attribute `RolePermissions`.
    #[verifier::when_used_as_spec(spec_role_permissions)]
    pub fn role_permissions() -> (r: AttributeId)
        ensures
            r == Self::spec_role_permissions(),
    {
        AttributeId(24u32)
    }

    pub open spec fn spec_user_role_permissions() -> AttributeId {
        AttributeId(25u32)
    }

    /// Attribute `UserRolePermissions`.
    #[verifier::when_used_as_spec(spec_user_role_permissions)]
    pub fn user_role_permissions() -> (r: AttributeId)
        ensures
            r == Self::spec_user_role_permissions(),
    {
        AttributeId(25u32)
    }

    pub open spec fn spec_access_restrictions() -> AttributeId {
        AttributeId(26u32)
    }

    /// Attribute `AccessRestrictions`.
    #[verifier::when_used_as_spec(spec_access_restrictions)]
    pub fn access_restrictions() -> (r: AttributeId)
        ensures
            r == Self::spec_access_restrictions(),
    {
        AttributeId(26u32)
    }

    pub open spec fn spec_access_level_ex() -> AttributeId {
        AttributeId(27u32)
    }

    /// Attribute `AccessLevelEx`.
    #[verifier::when_used_as_spec(spec_access_level_ex)]
    pub fn access_level_ex() -> (r: AttributeId)
        ensures
            r == Self::spec_access_level_ex(),
    {
        AttributeId(27u32)
    }

    /// Gets the numeric value.
    pub fn as_u32(&self) -> (r: u32)
        ensures
            r == self.0,
    {
        self.0
    }
}

/// Monitoring mode of a monitored item.
#[derive(Clone, Copy, PartialEq, Eq, Structural, Debug)]
pub struct MonitoringMode(pub u32);

impl MonitoringMode {
    pub open spec fn spec_disabled() -> MonitoringMode {
        MonitoringMode(0u32)
    }

    /// Not sampled, not reported.
    #[verifier::when_used_as_spec(spec_disabled)]
    pub fn disabled() -> (r: MonitoringMode)
        ensures
            r == Self::spec_disabled(),
    {
        MonitoringMode(0u32)
    }

    pub open spec fn spec_sampling() -> MonitoringMode {
        MonitoringMode(1u32)
    }

    /// Sampled, not reported.
    #[verifier::when_used_as_spec(spec_sampling)]
    pub fn sampling() -> (r: MonitoringMode)
        ensures
            r == Self::spec_sampling(),
    {
        MonitoringMode(1u32)
    }

    pub open spec fn spec_reporting() -> MonitoringMode {
        MonitoringMode(2u32)
    }

    /// Sampled and reported.
    #[verifier::when_used_as_spec(spec_reporting)]
    pub fn reporting() -> (r: MonitoringMode)
        ensures
            r == Self::spec_reporting(),
    {
        MonitoringMode(2u32)
    }

    /// Gets the numeric value.
    pub fn as_u32(&self) -> (r: u32)
        ensures
            r == self.0,
    {
        self.0
    }
}

/// Timestamps that a read returns.
#[derive(Clone, Copy, PartialEq, Eq, Structural, Debug)]
pub struct TimestampsToReturn(pub u32);

impl TimestampsToReturn {
    pub open spec fn spec_source() -> TimestampsToReturn {
        TimestampsToReturn(0u32)
    }

    /// Source timestamp only.
    #[verifier::when_used_as_spec(spec_source)]
    pub fn source() -> (r: TimestampsToReturn)
        ensures
            r == Self::spec_source(),
    {
        TimestampsToReturn(0u32)
    }

    pub open spec fn spec_server() -> TimestampsToReturn {
        TimestampsToReturn(1u32)
    }

    /// Server timestamp only.
    #[verifier::when_used_as_spec(spec_server)]
    pub fn server() -> (r: TimestampsToReturn)
        ensures
            r == Self::spec_server(),
    {
        TimestampsToReturn(1u32)
    }

    pub open spec fn spec_both() -> TimestampsToReturn {
        TimestampsToReturn(2u32)
    }

    /// Both timestamps.
    #[verifier::when_used_as_spec(spec_both)]
    pub fn both() -> (r: TimestampsToReturn)
        ensures
            r == Self::spec_both(),
    {
        TimestampsToReturn(2u32)
    }

    pub open spec fn spec_neither() -> TimestampsToReturn {
        TimestampsToReturn(3u32)
    }

    /// No timestamps.
    #[verifier::when_used_as_spec(spec_neither)]
    pub fn neither() -> (r: TimestampsToReturn)
        ensures
            r == Self::spec_neither(),
    {
        TimestampsToReturn(3u32)
    }

    /// Gets the numeric value.
    pub fn as_u32(&self) -> (r: u32)
        ensures
            r == self.0,
    {
        self.0
    }
}

/// Security mode of messages on a secure channel.
#[derive(Clone, Copy, PartialEq, Eq, Structural, Debug)]
pub struct MessageSecurityMode(pub u32);

impl MessageSecurityMode {
    pub open spec fn spec_invalid() -> MessageSecurityMode {
        MessageSecurityMode(0u32)
    }

    /// Invalid mode.
    #[verifier::when_used_as_spec(spec_invalid)]
    pub fn invalid() -> (r: MessageSecurityMode)
        ensures
            r == Self::spec_invalid(),
    {
        MessageSecurityMode(0u32)
    }

    pub open spec fn spec_none() -> MessageSecurityMode {
        MessageSecurityMode(1u32)
    }

    /// No security.
    #[verifier::when_used_as_spec(spec_none)]
    pub fn none() -> (r: MessageSecurityMode)
        ensures
            r == Self::spec_none(),
    {
        MessageSecurityMode(1u32)
    }

    pub open spec fn spec_sign() -> MessageSecurityMode {
        MessageSecurityMode(2u32)
    }

    /// Messages are signed.
    #[verifier::when_used_as_spec(spec_sign)]
    pub fn sign() -> (r: MessageSecurityMode)
        ensures
            r == Self::spec_sign(),
    {
        MessageSecurityMode(2u32)
    }

    pub open spec fn spec_sign_and_encrypt() -> MessageSecurityMode {
        MessageSecurityMode(3u32)
    }

    /// Messages are signed and encrypted.
    #[verifier::when_used_as_spec(spec_sign_and_encrypt)]
    pub fn sign_and_encrypt() -> (r: MessageSecurityMode)
        ensures
            r == Self::spec_sign_and_encrypt(),
    {
        MessageSecurityMode(3u32)
    }

    /// Gets the numeric value.
    pub fn as_u32(&self) -> (r: u32)
        ensures
            r == self.0,
    {
        self.0
    }
}

/// Class of a node.
#[derive(Clone, Copy, PartialEq, Eq, Structural, Debug)]
pub struct NodeClass(pub u32);

impl NodeClass {
    pub open spec fn spec_unspecified() -> NodeClass {
        NodeClass(0u32)
    }

    /// No class.
    #[verifier::when_used_as_spec(spec_unspecified)]
    pub fn unspecified() -> (r: NodeClass)
        ensures
            r == Self::spec_unspecified(),
    {
        NodeClass(0u32)
    }

    pub open spec fn spec_object() -> NodeClass {
        NodeClass(1u32)
    }

    /// Object node.
    #[verifier::when_used_as_spec(spec_object)]
    pub fn object() -> (r: NodeClass)
        ensures
            r == Self::spec_object(),
    {
        NodeClass(1u32)
    }

    pub open spec fn spec_variable() -> NodeClass {
        NodeClass(2u32)
    }

    /// Variable node.
    #[verifier::when_used_as_spec(spec_variable)]
    pub fn variable() -> (r: NodeClass)
        ensures
            r == Self::spec_variable(),
    {
        NodeClass(2u32)
    }

    pub open spec fn spec_method() -> NodeClass {
        NodeClass(4u32)
    }

    /// Method node.
    #[verifier::when_used_as_spec(spec_method)]
    pub fn method() -> (r: NodeClass)
        ensures
            r == Self::spec_method(),
    {
        NodeClass(4u32)
    }

    pub open spec fn spec_object_type() -> NodeClass {
        NodeClass(8u32)
    }

    /// Object type node.
    #[verifier::when_used_as_spec(spec_object_type)]
    pub fn object_type() -> (r: NodeClass)
        ensures
            r == Self::spec_object_type(),
    {
        NodeClass(8u32)
    }

    pub open spec fn spec_variable_type() -> NodeClass {
        NodeClass(16u32)
    }

    /// Variable type node.
    #[verifier::when_used_as_spec(spec_variable_type)]
    pub fn variable_type() -> (r: NodeClass)
        ensures
            r == Self::spec_variable_type(),
    {
        NodeClass(16u32)
    }

    pub open spec fn spec_reference_type() -> NodeClass {
        NodeClass(32u32)
    }

    /// Reference type node.
    #[verifier::when_used_as_spec(spec_reference_type)]
    pub fn reference_type() -> (r: NodeClass)
        ensures
            r == Self::spec_reference_type(),
    {
        NodeClass(32u32)
    }

    pub open spec fn spec_data_type() -> NodeClass {
        NodeClass(64u32)
    }

    /// Data type node.
    #[verifier::when_used_as_spec(spec_data_type)]
    pub fn data_type() -> (r: NodeClass)
        ensures
            r == Self::spec_data_type(),
    {
        NodeClass(64u32)
    }

    pub open spec fn spec_view() -> NodeClass {
        NodeClass(128u32)
    }

    /// View node.
    #[verifier::when_used_as_spec(spec_view)]
    pub fn view() -> (r: NodeClass)
        ensures
            r == Self::spec_view(),
    {
        NodeClass(128u32)
    }

    /// Gets the numeric value.
    pub fn as_u32(&self) -> (r: u32)
        ensures
            r == self.0,
    {
        self.0
    }
}

/// Subscription ID assigned by the server.
#[derive(Clone, Copy, PartialEq, Eq, Structural, Debug)]
pub struct SubscriptionId(pub u32);

impl SubscriptionId {
    /// Gets the numeric value.
    pub fn as_u32(&self) -> (r: u32)
        ensures
            r == self.0,
    {
        self.0
    }
}

/// Monitored item ID assigned by the server.
#[derive(Clone, Copy, PartialEq, Eq, Structural, Debug)]
pub struct MonitoredItemId(pub u32);

impl MonitoredItemId {
    /// Gets the numeric value.
    pub fn as_u32(&self) -> (r: u32)
        ensures
            r == self.0,
    {
        self.0
    }
}

/// Mask of writable attributes.
#[derive(Clone, Copy, PartialEq, Eq, Structural, Debug)]
pub struct AttributeWriteMask(pub u32);

impl AttributeWriteMask {
    /// Gets the numeric value.
    pub fn as_u32(&self) -> (r: u32)
        ensures
            r == self.0,
    {
        self.0
    }
}

/// Event notifier bits of a node.
#[derive(Clone, Copy, PartialEq, Eq, Structural, Debug)]
pub struct EventNotifierType(pub u8);

impl EventNotifierType {
    /// Gets the numeric value.
    pub fn as_u8(&self) -> (r: u8)
        ensures
            r == self.0,
    {
        self.0
    }
}

/// Access level bits of a variable.
#[derive(Clone, Copy, PartialEq, Eq, Structural, Debug)]
pub struct AccessLevelType(pub u8);

impl AccessLevelType {
    /// Gets the numeric value.
    pub fn as_u8(&self) -> (r: u8)
        ensures
            r == self.0,
    {
        self.0
    }
}

/// Access restriction bits of a node.
#[derive(Clone, Copy, PartialEq, Eq, Structural, Debug)]
pub struct AccessRestrictionType(pub u16);

impl AccessRestrictionType {
    /// Gets the numeric value.
    pub fn as_u16(&self) -> (r: u16)
        ensures
            r == self.0,
    {
        self.0
    }
}

/// Extended access level bits of a variable.
#[derive(Clone, Copy, PartialEq, Eq, Structural, Debug)]
pub struct AccessLevelExType(pub u32);

impl AccessLevelExType {
    /// Gets the numeric value.
    pub fn as_u32(&self) -> (r: u32)
        ensures
            r == self.0,
    {
        self.0
    }
}

/// Point in time, in 100 nanosecond intervals since 1601-01-01 (UTC).
#[derive(Clone, Copy, PartialEq, Eq, Structural, Debug)]
pub struct DateTime(pub i64);

impl DateTime {
    /// Gets the numeric value.
    pub fn as_i64(&self) -> (r: i64)
        ensures
            r == self.0,
    {
        self.0
    }
}

} // verus!
