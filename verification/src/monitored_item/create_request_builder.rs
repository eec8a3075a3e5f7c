use vstd::prelude::*;

use core::marker::PhantomData;

use crate::monitored_item::{DataChange, MonitoredItemAttribute, MonitoredItemKind, Unknown};
use crate::ua::{
    self, AttributeId, CreateMonitoredItemsRequest, ExtensionObject, MonitoredItemCreateRequest,
    MonitoringMode, NodeId, SubscriptionId, TimestampsToReturn,
};
use crate::{attributes, Attribute, Duration, MonitoringFilter};

verus! {

/// Settings gathered by a monitored item builder. Unset options (`None`) keep the defaults of
/// [`MonitoredItemCreateRequest::default`].
pub struct MonitoredItemCreateRequestBuilderView {
    pub node_ids: Seq<NodeId>,
    pub attribute_id: AttributeId,
    pub monitoring_mode: Option<MonitoringMode>,
    pub sampling_interval: Option<Option<Duration>>,
    pub filter: Option<ExtensionObject>,
    pub queue_size: Option<u32>,
    pub discard_oldest: Option<bool>,
}

/// One setting applied to a monitored item builder.
pub enum MonitoredItemSetting {
    AttributeId(AttributeId),
    MonitoringMode(MonitoringMode),
    SamplingInterval(Option<Duration>),
    Filter(ExtensionObject),
    QueueSize(u32),
    DiscardOldest(bool),
}

/// Settings of `b` after applying `setting`: that option is set, all else stays.
pub open spec fn apply_setting(
    b: MonitoredItemCreateRequestBuilderView,
    setting: MonitoredItemSetting,
) -> MonitoredItemCreateRequestBuilderView {
    match setting {
        MonitoredItemSetting::AttributeId(a) => MonitoredItemCreateRequestBuilderView {
            attribute_id: a,
            ..b
        },
        MonitoredItemSetting::MonitoringMode(m) => MonitoredItemCreateRequestBuilderView {
            monitoring_mode: Some(m),
            ..b
        },
        MonitoredItemSetting::SamplingInterval(i) => MonitoredItemCreateRequestBuilderView {
            sampling_interval: Some(i),
            ..b
        },
        MonitoredItemSetting::Filter(f) => MonitoredItemCreateRequestBuilderView {
            filter: Some(f),
            ..b
        },
        MonitoredItemSetting::QueueSize(q) => MonitoredItemCreateRequestBuilderView {
            queue_size: Some(q),
            ..b
        },
        MonitoredItemSetting::DiscardOldest(d) => MonitoredItemCreateRequestBuilderView {
            discard_oldest: Some(d),
            ..b
        },
    }
}

/// Settings of `b` after applying `settings` in order.
pub open spec fn apply_settings(
    b: MonitoredItemCreateRequestBuilderView,
    settings: Seq<MonitoredItemSetting>,
) -> MonitoredItemCreateRequestBuilderView
    decreases settings.len(),
{
    if settings.len() == 0 {
        b
    } else {
        apply_setting(apply_settings(b, settings.drop_last()), settings.last())
    }
}

/// No sequence of settings changes the node IDs of a builder: after any calls of `attribute`,
/// `attribute_id`, `monitoring_mode`, `sampling_interval`, `filter`, `queue_size` and
/// `discard_oldest`, `node_ids()` gives the node IDs the builder was made with, in order.
pub proof fn lemma_settings_keep_node_ids(
    b: MonitoredItemCreateRequestBuilderView,
    settings: Seq<MonitoredItemSetting>,
)
    ensures
        apply_settings(b, settings).node_ids == b.node_ids,
    decreases settings.len(),
{
    if settings.len() > 0 {
        lemma_settings_keep_node_ids(b, settings.drop_last());
    }
}

/// `item` requests monitoring of `node_id` with the settings of `b`, the defaults standing for
/// the unset ones.
pub open spec fn item_matches(
    item: MonitoredItemCreateRequest,
    node_id: NodeId,
    b: MonitoredItemCreateRequestBuilderView,
) -> bool {
    &&& item.node_id == node_id
    &&& item.attribute_id == b.attribute_id
    &&& item.monitoring_mode == match b.monitoring_mode {
        Some(m) => m,
        None => MonitoringMode::spec_reporting(),
    }
    &&& match b.sampling_interval {
        Some(s) => item.sampling_interval == s,
        None => item.sampling_interval matches Some(d) && d@ == 250_000_000,
    }
    &&& match b.filter {
        Some(f) => item.filter matches Some(g) && g.same_as(f),
        None => item.filter is None,
    }
    &&& item.queue_size == match b.queue_size {
        Some(q) => q,
        None => 1,
    }
    &&& item.discard_oldest == match b.discard_oldest {
        Some(d) => d,
        None => true,
    }
}

/// `r` is the creation request for subscription `subscription_id` that the settings `b` make: no
/// timeout hint, source timestamps, and one item per node ID, in order.
pub open spec fn create_request_matches(
    r: CreateMonitoredItemsRequest,
    b: MonitoredItemCreateRequestBuilderView,
    subscription_id: SubscriptionId,
) -> bool {
    &&& r.request_header.timeout_hint == 0
    &&& r.subscription_id == subscription_id
    &&& r.timestamps_to_return == TimestampsToReturn::spec_source()
    &&& r.items_to_create.len() == b.node_ids.len()
    &&& forall|i: int|
        0 <= i < r.items_to_create.len() ==> item_matches(
            #[trigger] r.items_to_create@[i],
            b.node_ids[i],
            b,
        )
}

/// Makes one monitored item creation request per node ID, in order, with the given settings.
pub fn build_items(
    node_ids: Vec<NodeId>,
    attribute_id: AttributeId,
    monitoring_mode: Option<MonitoringMode>,
    sampling_interval: Option<Option<Duration>>,
    filter: Option<ExtensionObject>,
    queue_size: Option<u32>,
    discard_oldest: Option<bool>,
) -> (r: Vec<MonitoredItemCreateRequest>)
    ensures
        r.len() == node_ids.len(),
        forall|i: int|
            0 <= i < r.len() ==> item_matches(
                #[trigger] r@[i],
                node_ids@[i],
                MonitoredItemCreateRequestBuilderView {
                    node_ids: node_ids@,
                    attribute_id,
                    monitoring_mode,
                    sampling_interval,
                    filter,
                    queue_size,
                    discard_oldest,
                },
            ),
{
    let ghost b = MonitoredItemCreateRequestBuilderView {
        node_ids: node_ids@,
        attribute_id,
        monitoring_mode,
        sampling_interval,
        filter,
        queue_size,
        discard_oldest,
    };
    let ghost ids = node_ids@;
    let mut items: Vec<MonitoredItemCreateRequest> = Vec::new();
    // Reverse the node IDs, to take them from the back in their given order.
    let mut src = node_ids;
    let mut rest: Vec<NodeId> = Vec::new();
    while src.len() > 0
        invariant
            src.len() + rest.len() == ids.len(),
            forall|k: int| 0 <= k < src.len() ==> src@[k] == ids[k],
            forall|k: int| 0 <= k < rest.len() ==> rest@[k] == ids[ids.len() - 1 - k],
        decreases src.len(),
    {
        let x = src.pop().unwrap();
        rest.push(x);
    }
    let mut i: usize = 0;
    while rest.len() > 0
        invariant
            i == items.len(),
            i + rest.len() == ids.len(),
            ids.len() <= usize::MAX,
            forall|k: int| 0 <= k < rest.len() ==> rest@[k] == ids[ids.len() - 1 - k],
            forall|k: int| 0 <= k < items.len() ==> item_matches(#[trigger] items@[k], ids[k], b),
            b == (MonitoredItemCreateRequestBuilderView {
                node_ids: ids,
                attribute_id,
                monitoring_mode,
                sampling_interval,
                filter,
                queue_size,
                discard_oldest,
            }),
        decreases rest.len(),
    {
        let ghost before = rest@;
        let node_id = rest.pop().unwrap();
        assert(node_id == ids[i as int]);
        let mut request = MonitoredItemCreateRequest::default(node_id);
        request.attribute_id = attribute_id;
        if let Some(m) = monitoring_mode {
            request.monitoring_mode = m;
        }
        if let Some(s) = sampling_interval {
            request.sampling_interval = s;
        }
        if let Some(f) = &filter {
            request.filter = Some(f.duplicate());
        }
        if let Some(q) = queue_size {
            request.queue_size = q;
        }
        if let Some(d) = discard_oldest {
            request.discard_oldest = d;
        }
        items.push(request);
        i = i + 1;
        assert forall|k: int| 0 <= k < rest.len() implies rest@[k] == ids[ids.len() - 1 - k] by {
            assert(rest@[k] == before[k]);
        }
    }
    items
}

/// Type-safe builder for [`CreateMonitoredItemsRequest`].
#[derive(Debug)]
pub struct MonitoredItemCreateRequestBuilder<K: MonitoredItemKind> {
    node_ids: Vec<NodeId>,
    attribute_id: AttributeId,
    monitoring_mode: Option<MonitoringMode>,
    sampling_interval: Option<Option<Duration>>,
    filter: Option<ExtensionObject>,
    queue_size: Option<u32>,
    discard_oldest: Option<bool>,
    _kind: PhantomData<K>,
}

impl<K: MonitoredItemKind> View for MonitoredItemCreateRequestBuilder<K> {
    type V = MonitoredItemCreateRequestBuilderView;

    closed spec fn view(&self) -> MonitoredItemCreateRequestBuilderView {
        MonitoredItemCreateRequestBuilderView {
            node_ids: self.node_ids@,
            attribute_id: self.attribute_id,
            monitoring_mode: self.monitoring_mode,
            sampling_interval: self.sampling_interval,
            filter: self.filter,
            queue_size: self.queue_size,
            discard_oldest: self.discard_oldest,
        }
    }
}

impl MonitoredItemCreateRequestBuilder<DataChange<attributes::Value>> {
    /// Creates builder for monitoring the value attribute of the given nodes, all settings unset.
    pub fn new(node_ids: Vec<NodeId>) -> (r: Self)
        ensures
            r@ == (MonitoredItemCreateRequestBuilderView {
                node_ids: node_ids@,
                attribute_id: AttributeId::spec_value(),
                monitoring_mode: None,
                sampling_interval: None,
                filter: None,
                queue_size: None,
                discard_oldest: None,
            }),
    {
        MonitoredItemCreateRequestBuilder {
            node_ids,
            attribute_id: AttributeId::value(),
            monitoring_mode: None,
            sampling_interval: None,
            filter: None,
            queue_size: None,
            discard_oldest: None,
            _kind: PhantomData,
        }
    }
}

impl<K: MonitoredItemKind> MonitoredItemCreateRequestBuilder<K> {
    /// Sets attribute, with the typestate that matches it.
    ///
    /// Monitored items emit [`DataValue`](crate::DataValue) of the appropriate subtype matching the
    /// given attribute; for attribute `EventNotifier` they emit event fields instead.
    pub fn attribute<T: MonitoredItemAttribute>(self, attribute: T) -> (r:
        MonitoredItemCreateRequestBuilder<T::Kind>)
        ensures
            r@ == apply_setting(self@, MonitoredItemSetting::AttributeId(attribute.spec_id())),
    {
        let MonitoredItemCreateRequestBuilder {
            node_ids,
            attribute_id: _,
            monitoring_mode,
            sampling_interval,
            filter,
            queue_size,
            discard_oldest,
            _kind,
        } = self;
        MonitoredItemCreateRequestBuilder {
            node_ids,
            attribute_id: attribute.id(),
            monitoring_mode,
            sampling_interval,
            filter,
            queue_size,
            discard_oldest,
            _kind: PhantomData,
        }
    }

    /// Sets attribute ID, yielding untyped values.
    pub fn attribute_id(self, attribute_id: AttributeId) -> (r: MonitoredItemCreateRequestBuilder<
        Unknown,
    >)
        ensures
            r@ == apply_setting(self@, MonitoredItemSetting::AttributeId(attribute_id)),
    {
        let MonitoredItemCreateRequestBuilder {
            node_ids,
            attribute_id: _,
            monitoring_mode,
            sampling_interval,
            filter,
            queue_size,
            discard_oldest,
            _kind,
        } = self;
        MonitoredItemCreateRequestBuilder {
            node_ids,
            attribute_id,
            monitoring_mode,
            sampling_interval,
            filter,
            queue_size,
            discard_oldest,
            _kind: PhantomData,
        }
    }

    /// Sets monitoring mode. Default value is reporting.
    pub fn monitoring_mode(self, monitoring_mode: MonitoringMode) -> (r: Self)
        ensures
            r@ == apply_setting(self@, MonitoredItemSetting::MonitoringMode(monitoring_mode)),
    {
        let mut s = self;
        s.monitoring_mode = Some(monitoring_mode);
        s
    }

    /// Sets sampling interval. Default value is 250 ms.
    pub fn sampling_interval(self, sampling_interval: Option<Duration>) -> (r: Self)
        ensures
            r@ == apply_setting(self@, MonitoredItemSetting::SamplingInterval(sampling_interval)),
    {
        let mut s = self;
        s.sampling_interval = Some(sampling_interval);
        s
    }

    /// Sets filter. Default value is no filter.
    pub fn filter<F: MonitoringFilter>(self, filter: F) -> (r: Self)
        ensures
            r@ == apply_setting(self@, MonitoredItemSetting::Filter(filter.spec_extension_object())),
    {
        let mut s = self;
        s.filter = Some(filter.to_extension_object());
        s
    }

    /// Sets requested size of the monitored item queue. Default value is 1.
    pub fn queue_size(self, queue_size: u32) -> (r: Self)
        ensures
            r@ == apply_setting(self@, MonitoredItemSetting::QueueSize(queue_size)),
    {
        let mut s = self;
        s.queue_size = Some(queue_size);
        s
    }

    /// Sets discard policy. Default value is `true`.
    pub fn discard_oldest(self, discard_oldest: bool) -> (r: Self)
        ensures
            r@ == apply_setting(self@, MonitoredItemSetting::DiscardOldest(discard_oldest)),
    {
        let mut s = self;
        s.discard_oldest = Some(discard_oldest);
        s
    }

    /// Gets all node ids.
    pub fn node_ids(&self) -> (r: &[NodeId])
        ensures
            r@ == self@.node_ids,
    {
        self.node_ids.as_slice()
    }

    /// Builds the request: one item per node ID, in order, for the given subscription.
    pub fn build(self, subscription_id: SubscriptionId) -> (r: CreateMonitoredItemsRequest)
        ensures
            create_request_matches(r, self@, subscription_id),
    {
        let MonitoredItemCreateRequestBuilder {
            node_ids,
            attribute_id,
            monitoring_mode,
            sampling_interval,
            filter,
            queue_size,
            discard_oldest,
            _kind: _,
        } = self;
        let items_to_create = build_items(
            node_ids,
            attribute_id,
            monitoring_mode,
            sampling_interval,
            filter,
            queue_size,
            discard_oldest,
        );
        CreateMonitoredItemsRequest {
            request_header: ua::RequestHeader::init(),
            subscription_id,
            timestamps_to_return: TimestampsToReturn::source(),
            items_to_create,
        }
    }
}

} // verus!
