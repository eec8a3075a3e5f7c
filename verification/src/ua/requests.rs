use vstd::prelude::*;

use super::{
    AttributeId, BrowseResult, CallMethodResult, DataValue, ExtensionObject, MonitoredItemId,
    MonitoringMode, NodeId, StatusCode, SubscriptionId, TimestampsToReturn, Variant,
};
use crate::Duration;

verus! {

/// Header of a service request.
#[derive(Debug, Clone, Copy)]
pub struct RequestHeader {
    /// Timeout hint in milliseconds (0: no timeout).
    pub timeout_hint: u32,
}

impl RequestHeader {
    /// Creates header with no timeout hint.
    pub fn init() -> (r: RequestHeader)
        ensures
            r.timeout_hint == 0,
    {
        RequestHeader { timeout_hint: 0 }
    }
}

/// Header of a service response.
#[derive(Debug, Clone, Copy)]
pub struct ResponseHeader {
    /// Result of the service call as a whole.
    pub service_result: StatusCode,
}

/// Node and attribute to read.
#[derive(Debug, Clone)]
pub struct ReadValueId {
    pub node_id: NodeId,
    pub attribute_id: AttributeId,
}

/// Request of the `Read` service.
#[derive(Debug, Clone)]
pub struct ReadRequest {
    pub request_header: RequestHeader,
    pub timestamps_to_return: TimestampsToReturn,
    pub nodes_to_read: Vec<ReadValueId>,
}

/// Response of the `Read` service.
#[derive(Debug, Clone)]
pub struct ReadResponse {
    pub response_header: ResponseHeader,
    pub results: Option<Vec<DataValue>>,
}

/// Node, attribute and value to write.
#[derive(Debug, Clone)]
pub struct WriteValue {
    pub node_id: NodeId,
    pub attribute_id: AttributeId,
    pub value: DataValue,
}

/// Request of the `Write` service.
#[derive(Debug, Clone)]
pub struct WriteRequest {
    pub request_header: RequestHeader,
    pub nodes_to_write: Vec<WriteValue>,
}

/// Response of the `Write` service.
#[derive(Debug, Clone)]
pub struct WriteResponse {
    pub response_header: ResponseHeader,
    pub results: Option<Vec<StatusCode>>,
}

/// Method to call on an object.
#[derive(Debug, Clone)]
pub struct CallMethodRequest {
    pub object_id: NodeId,
    pub method_id: NodeId,
    pub input_arguments: Vec<Variant>,
}

/// Request of the `Call` service.
#[derive(Debug, Clone)]
pub struct CallRequest {
    pub request_header: RequestHeader,
    pub methods_to_call: Vec<CallMethodRequest>,
}

/// Response of the `Call` service.
#[derive(Debug, Clone)]
pub struct CallResponse {
    pub response_header: ResponseHeader,
    pub results: Option<Vec<CallMethodResult>>,
}

/// Node and references to browse.
#[derive(Debug, Clone)]
pub struct BrowseDescription {
    pub node_id: NodeId,
    /// Direction: 0 forward, 1 inverse, 2 both.
    pub browse_direction: u32,
    pub reference_type_id: NodeId,
    pub include_subtypes: bool,
    pub node_class_mask: u32,
    pub result_mask: u32,
}

impl BrowseDescription {
    /// Description that browses the children of the null node: forward references of the
    /// `HierarchicalReferences` type and its subtypes, all node classes, all result fields.
    pub fn default() -> (r: BrowseDescription)
        ensures
            r.node_id@ == (super::NodeIdView { namespace_index: 0, identifier: super::IdentifierView::Numeric(0) }),
            r.browse_direction == 0,
            r.reference_type_id@ == (super::NodeIdView { namespace_index: 0, identifier: super::IdentifierView::Numeric(33) }),
            r.include_subtypes,
            r.node_class_mask == 0,
            r.result_mask == 63,
    {
        BrowseDescription {
            node_id: NodeId::null(),
            browse_direction: 0,
            reference_type_id: NodeId::ns0(33),
            include_subtypes: true,
            node_class_mask: 0,
            result_mask: 63,
        }
    }

    /// Sets the node to browse.
    pub fn with_node_id(self, node_id: &NodeId) -> (r: BrowseDescription)
        ensures
            r.node_id@ == node_id@,
            r.browse_direction == self.browse_direction,
            r.reference_type_id == self.reference_type_id,
            r.include_subtypes == self.include_subtypes,
            r.node_class_mask == self.node_class_mask,
            r.result_mask == self.result_mask,
    {
        let BrowseDescription {
            node_id: _,
            browse_direction,
            reference_type_id,
            include_subtypes,
            node_class_mask,
            result_mask,
        } = self;
        BrowseDescription {
            node_id: node_id.clone(),
            browse_direction,
            reference_type_id,
            include_subtypes,
            node_class_mask,
            result_mask,
        }
    }
}

/// Request of the `Browse` service.
#[derive(Debug, Clone)]
pub struct BrowseRequest {
    pub request_header: RequestHeader,
    pub nodes_to_browse: Vec<BrowseDescription>,
}

/// Request of the `BrowseNext` service.
#[derive(Debug, Clone)]
pub struct BrowseNextRequest {
    pub request_header: RequestHeader,
    pub release_continuation_points: bool,
    pub continuation_points: Vec<super::ContinuationPoint>,
}

/// Response of the `Browse` and `BrowseNext` services.
#[derive(Debug, Clone)]
pub struct BrowseResponse {
    pub response_header: ResponseHeader,
    pub results: Option<Vec<BrowseResult>>,
}

/// Monitored item to create.
#[derive(Debug, Clone)]
pub struct MonitoredItemCreateRequest {
    pub node_id: NodeId,
    pub attribute_id: AttributeId,
    pub monitoring_mode: MonitoringMode,
    /// Requested sampling interval; `None` asks for the publishing interval of the subscription.
    pub sampling_interval: Option<Duration>,
    pub filter: Option<ExtensionObject>,
    pub queue_size: u32,
    pub discard_oldest: bool,
}

impl MonitoredItemCreateRequest {
    /// Default request for monitoring the value of `node_id`: reporting, sampled every 250 ms,
    /// queue of size 1 that discards the oldest values, no filter.
    pub fn default(node_id: NodeId) -> (r: MonitoredItemCreateRequest)
        ensures
            r.node_id == node_id,
            r.attribute_id == AttributeId::value(),
            r.monitoring_mode == MonitoringMode::reporting(),
            r.sampling_interval matches Some(d) && d@ == 250_000_000,
            r.filter is None,
            r.queue_size == 1,
            r.discard_oldest,
    {
        MonitoredItemCreateRequest {
            node_id,
            attribute_id: AttributeId::value(),
            monitoring_mode: MonitoringMode::reporting(),
            sampling_interval: Some(Duration::from_millis(250)),
            filter: None,
            queue_size: 1,
            discard_oldest: true,
        }
    }
}

/// Request of the `CreateMonitoredItems` service.
#[derive(Debug, Clone)]
pub struct CreateMonitoredItemsRequest {
    pub request_header: RequestHeader,
    pub subscription_id: SubscriptionId,
    pub timestamps_to_return: TimestampsToReturn,
    pub items_to_create: Vec<MonitoredItemCreateRequest>,
}

/// Result of creating one monitored item.
#[derive(Debug, Clone)]
pub struct MonitoredItemCreateResult {
    pub status_code: StatusCode,
    pub monitored_item_id: MonitoredItemId,
    pub revised_queue_size: u32,
}

/// Response of the `CreateMonitoredItems` service.
#[derive(Debug, Clone)]
pub struct CreateMonitoredItemsResponse {
    pub response_header: ResponseHeader,
    pub results: Option<Vec<MonitoredItemCreateResult>>,
}

/// Request of the `DeleteMonitoredItems` service.
#[derive(Debug, Clone)]
pub struct DeleteMonitoredItemsRequest {
    pub request_header: RequestHeader,
    pub subscription_id: SubscriptionId,
    pub monitored_item_ids: Vec<MonitoredItemId>,
}

/// Response of the `DeleteMonitoredItems` service.
#[derive(Debug, Clone)]
pub struct DeleteMonitoredItemsResponse {
    pub response_header: ResponseHeader,
    pub results: Option<Vec<StatusCode>>,
}

/// Request of the `CreateSubscription` service.
#[derive(Debug, Clone)]
pub struct CreateSubscriptionRequest {
    pub request_header: RequestHeader,
    /// Requested publishing interval; `None` asks for the fastest rate the server supports.
    pub requested_publishing_interval: Option<Duration>,
    pub requested_lifetime_count: u32,
    /// Requested maximum keep-alive count (0: the server's choice).
    pub requested_max_keep_alive_count: u32,
    /// Maximum notifications per publish response (0: unlimited).
    pub max_notifications_per_publish: u32,
    pub publishing_enabled: bool,
    pub priority: u8,
}

impl CreateSubscriptionRequest {
    /// Default request: publishing every 500 ms, lifetime count 10000, keep-alive count 10,
    /// unlimited notifications per publish, publishing enabled, priority 0.
    pub fn default() -> (r: CreateSubscriptionRequest)
        ensures
            r.request_header.timeout_hint == 0,
            r.requested_publishing_interval matches Some(d) && d@ == 500_000_000,
            r.requested_lifetime_count == 10000,
            r.requested_max_keep_alive_count == 10,
            r.max_notifications_per_publish == 0,
            r.publishing_enabled,
            r.priority == 0,
    {
        CreateSubscriptionRequest {
            request_header: RequestHeader::init(),
            requested_publishing_interval: Some(Duration::from_millis(500)),
            requested_lifetime_count: 10000,
            requested_max_keep_alive_count: 10,
            max_notifications_per_publish: 0,
            publishing_enabled: true,
            priority: 0,
        }
    }
}

/// Response of the `CreateSubscription` service.
#[derive(Debug, Clone)]
pub struct CreateSubscriptionResponse {
    pub response_header: ResponseHeader,
    pub subscription_id: SubscriptionId,
}

/// Request of the `DeleteSubscriptions` service.
#[derive(Debug, Clone)]
pub struct DeleteSubscriptionsRequest {
    pub request_header: RequestHeader,
    pub subscription_ids: Vec<SubscriptionId>,
}

/// Response of the `DeleteSubscriptions` service.
#[derive(Debug, Clone)]
pub struct DeleteSubscriptionsResponse {
    pub response_header: ResponseHeader,
    pub results: Option<Vec<StatusCode>>,
}

} // verus!
