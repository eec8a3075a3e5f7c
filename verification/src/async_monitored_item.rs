//! Monitored item creation: the deprecated builder, and the interpretation of the server's
//! response.
use vstd::prelude::*;

use crate::monitored_item::{
    create_request_matches, DataChange, MonitoredItemAttribute, MonitoredItemCreateRequestBuilder,
    MonitoredItemCreateRequestBuilderView, MonitoredItemKind, Unknown,
};
use crate::ua::{
    self, AttributeId, CreateMonitoredItemsRequest, CreateMonitoredItemsResponse,
    DeleteMonitoredItemsRequest, MonitoredItemCreateRequest, MonitoredItemCreateResult,
    MonitoredItemId, MonitoringMode, NodeId, SubscriptionId, TimestampsToReturn,
};
use crate::{attributes, Attribute, Duration, Error, MonitoringFilter, Result};

verus! {

/// Reverses a vector.
pub fn reverse_vec<T>(v: Vec<T>) -> (r: Vec<T>)
    ensures
        r@ == v@.reverse(),
{
    let ghost orig = v@;
    let mut src = v;
    let mut r: Vec<T> = Vec::new();
    while src.len() > 0
        invariant
            src.len() + r.len() == orig.len(),
            forall|k: int| 0 <= k < src.len() ==> src@[k] == orig[k],
            forall|k: int| 0 <= k < r.len() ==> r@[k] == orig[orig.len() - 1 - k],
        decreases src.len(),
    {
        let x = src.pop().unwrap();
        r.push(x);
    }
    assert(r@ =~= orig.reverse());
    r
}

/// Builder for monitored items (superseded by [`MonitoredItemCreateRequestBuilder`]).
#[derive(Debug)]
pub struct MonitoredItemBuilder<K: MonitoredItemKind>(MonitoredItemCreateRequestBuilder<K>);

impl<K: MonitoredItemKind> View for MonitoredItemBuilder<K> {
    type V = MonitoredItemCreateRequestBuilderView;

    open spec fn view(&self) -> MonitoredItemCreateRequestBuilderView {
        self.spec_inner()@
    }
}

impl<K: MonitoredItemKind> MonitoredItemBuilder<K> {
    /// The request builder that holds the settings.
    pub closed spec fn spec_inner(self) -> MonitoredItemCreateRequestBuilder<K> {
        self.0
    }
}

impl<K: MonitoredItemKind> From<MonitoredItemBuilder<K>> for MonitoredItemCreateRequestBuilder<K> {
    /// Carries the settings of the superseded builder over, unchanged.
    fn from(builder: MonitoredItemBuilder<K>) -> (r: Self) {
        builder.0
    }
}

impl<K: MonitoredItemKind> vstd::std_specs::convert::FromSpecImpl<MonitoredItemBuilder<K>> for MonitoredItemCreateRequestBuilder<K> {
    open spec fn obeys_from_spec() -> bool {
        true
    }

    open spec fn from_spec(v: MonitoredItemBuilder<K>) -> Self {
        v.spec_inner()
    }
}

/// Converting the superseded builder keeps all its settings: the converted builder builds, for
/// every subscription, the request that the superseded builder would have made.
pub proof fn lemma_from_builder_same_request<K: MonitoredItemKind>(
    b: MonitoredItemBuilder<K>,
    subscription_id: SubscriptionId,
    r: CreateMonitoredItemsRequest,
)
    ensures
        <MonitoredItemCreateRequestBuilder<K> as vstd::std_specs::convert::FromSpec<
            MonitoredItemBuilder<K>,
        >>::from_spec(b)@ == b@,
        create_request_matches(r, b@, subscription_id) <==> create_request_matches(
            r,
            <MonitoredItemCreateRequestBuilder<K> as vstd::std_specs::convert::FromSpec<
                MonitoredItemBuilder<K>,
            >>::from_spec(b)@,
            subscription_id,
        ),
{
}

impl MonitoredItemBuilder<DataChange<attributes::Value>> {
    /// Creates builder for monitoring the value attribute of the given nodes, all settings unset.
    pub fn new(node_ids: Vec<NodeId>) -> (r: Self)
        ensures
            r@ == (MonitoredItemCreateRequestBuilderView {
                node_ids: node_ids@,
                attribute_id: AttributeId::spec_value(),
                monitoring_mode: None,
                sampling_interval: None,
                filter: None,
                queue_size: None,
                discard_oldest: None,
            }),
    {
        MonitoredItemBuilder(MonitoredItemCreateRequestBuilder::new(node_ids))
    }
}

impl<K: MonitoredItemKind> MonitoredItemBuilder<K> {
    /// Sets attribute, with the typestate that matches it.
    pub fn attribute<T: MonitoredItemAttribute>(self, attribute: T) -> (r: MonitoredItemBuilder<
        T::Kind,
    >)
        ensures
            r@ == (MonitoredItemCreateRequestBuilderView { attribute_id: attribute.spec_id(), ..self@ }),
    {
        MonitoredItemBuilder(self.0.attribute(attribute))
    }

    /// Sets attribute ID, yielding untyped values.
    pub fn attribute_id(self, attribute_id: AttributeId) -> (r: MonitoredItemBuilder<Unknown>)
        ensures
            r@ == (MonitoredItemCreateRequestBuilderView { attribute_id, ..self@ }),
    {
        MonitoredItemBuilder(self.0.attribute_id(attribute_id))
    }

    /// Sets monitoring mode. Default value is reporting.
    pub fn monitoring_mode(self, monitoring_mode: MonitoringMode) -> (r: Self)
        ensures
            r@ == (MonitoredItemCreateRequestBuilderView {
                monitoring_mode: Some(monitoring_mode),
                ..self@
            }),
    {
        MonitoredItemBuilder(self.0.monitoring_mode(monitoring_mode))
    }

    /// Sets sampling interval. Default value is 250 ms.
    pub fn sampling_interval(self, sampling_interval: Option<Duration>) -> (r: Self)
        ensures
            r@ == (MonitoredItemCreateRequestBuilderView {
                sampling_interval: Some(sampling_interval),
                ..self@
            }),
    {
        MonitoredItemBuilder(self.0.sampling_interval(sampling_interval))
    }

    /// Sets filter. Default value is no filter.
    pub fn filter<F: MonitoringFilter>(self, filter: F) -> (r: Self)
        ensures
            r@ == (MonitoredItemCreateRequestBuilderView {
                filter: Some(filter.spec_extension_object()),
                ..self@
            }),
    {
        MonitoredItemBuilder(self.0.filter(filter))
    }

    /// Sets requested size of the monitored item queue. Default value is 1.
    pub fn queue_size(self, queue_size: u32) -> (r: Self)
        ensures
            r@ == (MonitoredItemCreateRequestBuilderView { queue_size: Some(queue_size), ..self@ }),
    {
        MonitoredItemBuilder(self.0.queue_size(queue_size))
    }

    /// Sets discard policy. Default value is `true`.
    pub fn discard_oldest(self, discard_oldest: bool) -> (r: Self)
        ensures
            r@ == (MonitoredItemCreateRequestBuilderView {
                discard_oldest: Some(discard_oldest),
                ..self@
            }),
    {
        MonitoredItemBuilder(self.0.discard_oldest(discard_oldest))
    }

    /// Turns the settings into a creation request for the given subscription.
    pub fn into_request(self, subscription_id: SubscriptionId) -> (r: CreateMonitoredItemsRequest)
        ensures
            create_request_matches(r, self@, subscription_id),
    {
        self.0.build(subscription_id)
    }
}

/// Callback that a monitored item needs: events for attribute `EventNotifier`, data changes
/// otherwise.
#[derive(Debug, Clone, Copy, PartialEq, Eq, Structural)]
pub enum NotificationCallback {
    DataChange,
    Event,
}

impl NotificationCallback {
    /// Picks the callback for a monitored item creation request.
    pub fn new(request: &MonitoredItemCreateRequest) -> (r: NotificationCallback)
        ensures
            r == (if request.attribute_id == AttributeId::spec_event_notifier() {
                NotificationCallback::Event
            } else {
                NotificationCallback::DataChange
            }),
    {
        if request.attribute_id == AttributeId::event_notifier() {
            NotificationCallback::Event
        } else {
            NotificationCallback::DataChange
        }
    }
}

/// IDs of the items that the server created successfully, in order.
pub open spec fn good_item_ids(results: Seq<MonitoredItemCreateResult>) -> Seq<MonitoredItemId>
    decreases results.len(),
{
    if results.len() == 0 {
        Seq::empty()
    } else {
        let prev = good_item_ids(results.drop_last());
        if results.last().status_code.spec_is_good() {
            prev.push(results.last().monitored_item_id)
        } else {
            prev
        }
    }
}

/// Pairs the results of a monitored item creation with the receivers set up for the items.
///
/// `result_count` is the number of items requested. When the server's results are unset this
/// fails. When their number, or the number of receivers, differs from it, items cannot be matched
/// with their node IDs: this fails too, and gives the request that deletes the items that were
/// created. Otherwise each element is the item's result with its receiver, or the error for its
/// status code.
pub fn pair_create_results<R>(
    response: CreateMonitoredItemsResponse,
    rxs: Vec<R>,
    result_count: usize,
    subscription_id: SubscriptionId,
) -> (r: core::result::Result<
    Vec<Result<(MonitoredItemCreateResult, R)>>,
    (Error, Option<DeleteMonitoredItemsRequest>),
>)
    ensures
        match response.results {
            None => r == Err::<Vec<Result<(MonitoredItemCreateResult, R)>>, _>(
                (Error::Internal("expected monitoring item results"), None::<DeleteMonitoredItemsRequest>),
            ),
            Some(results) => if results.len() != result_count || rxs.len() != result_count {
                r matches Err((e, Some(request))) && e == Error::Internal(
                    "unexpected number of monitored items",
                ) && request.subscription_id == subscription_id && request.monitored_item_ids@
                    == good_item_ids(results@)
            } else {
                r matches Ok(v) && v.len() == result_count && forall|i: int|
                    0 <= i < v.len() ==> match #[trigger] v@[i] {
                        Ok((result, rx)) => results@[i].status_code.spec_is_good() && result
                            == results@[i] && rx == rxs@[i],
                        Err(e) => !results@[i].status_code.spec_is_good() && e == Error::Server(
                            results@[i].status_code,
                        ),
                    }
            },
        },
{
    let Some(results) = response.results else {
        return Err((Error::internal("expected monitoring item results"), None));
    };
    if results.len() != result_count || rxs.len() != result_count {
        let mut ids: Vec<MonitoredItemId> = Vec::new();
        let mut i: usize = 0;
        while i < results.len()
            invariant
                i <= results.len(),
                ids@ == good_item_ids(results@.subrange(0, i as int)),
            decreases results.len() - i,
        {
            let ghost prefix = results@.subrange(0, i as int);
            if results[i].status_code.is_good() {
                ids.push(results[i].monitored_item_id);
            }
            i = i + 1;
            assert(results@.subrange(0, i as int).drop_last() =~= prefix);
        }
        assert(results@.subrange(0, results.len() as int) =~= results@);
        let request = DeleteMonitoredItemsRequest {
            request_header: ua::RequestHeader::init(),
            subscription_id,
            monitored_item_ids: ids,
        };
        return Err((Error::internal("unexpected number of monitored items"), Some(request)));
    }
    let ghost rs = results@;
    let ghost xs = rxs@;
    let mut results_rev = reverse_vec(results);
    let mut rxs_rev = reverse_vec(rxs);
    let mut out: Vec<Result<(MonitoredItemCreateResult, R)>> = Vec::new();
    while results_rev.len() > 0
        invariant
            results_rev.len() == rxs_rev.len(),
            out.len() + results_rev.len() == result_count,
            rs.len() == result_count,
            xs.len() == result_count,
            forall|k: int| 0 <= k < results_rev.len() ==> results_rev@[k] == rs[rs.len() - 1 - k],
            forall|k: int| 0 <= k < rxs_rev.len() ==> rxs_rev@[k] == xs[xs.len() - 1 - k],
            forall|i: int|
                0 <= i < out.len() ==> match #[trigger] out@[i] {
                    Ok((result, rx)) => rs[i].status_code.spec_is_good() && result == rs[i] && rx
                        == xs[i],
                    Err(e) => !rs[i].status_code.spec_is_good() && e == Error::Server(
                        rs[i].status_code,
                    ),
                },
        decreases results_rev.len(),
    {
        let ghost i = out.len() as int;
        let result = results_rev.pop().unwrap();
        let rx = rxs_rev.pop().unwrap();
        assert(result == rs[i]);
        assert(rx == xs[i]);
        match Error::verify_good(&result.status_code) {
            Ok(()) => out.push(Ok((result, rx))),
            Err(e) => out.push(Err(e)),
        }
    }
    Ok(out)
}

} // verus!
