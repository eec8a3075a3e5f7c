//! Plain-value models of the OPC UA data types used by the library.
mod node_id;
mod requests;
mod simple;
mod status_code;
mod value;

pub use self::node_id::{Identifier, IdentifierView, NodeId, NodeIdView};
pub use self::requests::{
    BrowseDescription, BrowseNextRequest, BrowseRequest, BrowseResponse, CallMethodRequest,
    CallRequest, CallResponse, CreateMonitoredItemsRequest, CreateMonitoredItemsResponse,
    CreateSubscriptionRequest, CreateSubscriptionResponse, DeleteMonitoredItemsRequest,
    DeleteMonitoredItemsResponse, DeleteSubscriptionsRequest, DeleteSubscriptionsResponse,
    MonitoredItemCreateRequest, MonitoredItemCreateResult, ReadRequest, ReadResponse,
    ReadValueId, RequestHeader, ResponseHeader, WriteRequest, WriteResponse, WriteValue,
};
pub use self::simple::{
    AccessLevelExType, AccessLevelType, AccessRestrictionType, AttributeId, AttributeWriteMask,
    DateTime, EventNotifierType, MessageSecurityMode, MonitoredItemId, MonitoringMode, NodeClass,
    SubscriptionId, TimestampsToReturn,
};
pub use self::status_code::{lemma_severity_exclusive, severity, StatusCode};
pub use self::value::{
    copy_bytes, BrowsePathTarget, BrowseResult, ByteString, CallMethodResult, ContinuationPoint,
    DataTypeDescription, DataValue, ExtensionObject, LocalizedText, QualifiedName,
    ReferenceDescription, Variant,
};
