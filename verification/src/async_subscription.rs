//! Subscription creation: the builder of requests, and the subscription handle.
use vstd::prelude::*;

use crate::ua::{self, CreateSubscriptionRequest, DeleteSubscriptionsRequest, SubscriptionId};
use crate::{Duration, Error, Result};

verus! {

/// Settings gathered by a [`SubscriptionBuilder`]; unset options (`None`) keep the defaults of
/// [`CreateSubscriptionRequest::default`].
pub struct SubscriptionBuilderView {
    pub requested_publishing_interval: Option<Option<Duration>>,
    pub requested_lifetime_count: Option<u32>,
    pub requested_max_keep_alive_count: Option<Option<u32>>,
    pub max_notifications_per_publish: Option<Option<u32>>,
    pub publishing_enabled: Option<bool>,
    pub priority: Option<u8>,
}

/// Builder for subscription creation requests.
///
/// Counts given as `Some(n)` must be non-zero: `None` stands for "no limit" or "server's choice".
#[derive(Debug)]
pub struct SubscriptionBuilder {
    requested_publishing_interval: Option<Option<Duration>>,
    requested_lifetime_count: Option<u32>,
    requested_max_keep_alive_count: Option<Option<u32>>,
    max_notifications_per_publish: Option<Option<u32>>,
    publishing_enabled: Option<bool>,
    priority: Option<u8>,
}

impl View for SubscriptionBuilder {
    type V = SubscriptionBuilderView;

    closed spec fn view(&self) -> SubscriptionBuilderView {
        SubscriptionBuilderView {
            requested_publishing_interval: self.requested_publishing_interval,
            requested_lifetime_count: self.requested_lifetime_count,
            requested_max_keep_alive_count: self.requested_max_keep_alive_count,
            max_notifications_per_publish: self.max_notifications_per_publish,
            publishing_enabled: self.publishing_enabled,
            priority: self.priority,
        }
    }
}

/// Count that the request carries for an optional non-zero count: 0 for `None`.
pub open spec fn count_or_zero(count: Option<u32>) -> u32 {
    match count {
        Some(n) => n,
        None => 0,
    }
}

impl Default for SubscriptionBuilder {
    fn default() -> (r: SubscriptionBuilder)
        ensures
            r@ == (SubscriptionBuilderView {
                requested_publishing_interval: None,
                requested_lifetime_count: None,
                requested_max_keep_alive_count: None,
                max_notifications_per_publish: None,
                publishing_enabled: None,
                priority: None,
            }),
    {
        SubscriptionBuilder::new()
    }
}

impl SubscriptionBuilder {
    /// Creates builder with all settings unset.
    pub fn new() -> (r: SubscriptionBuilder)
        ensures
            r@ == (SubscriptionBuilderView {
                requested_publishing_interval: None,
                requested_lifetime_count: None,
                requested_max_keep_alive_count: None,
                max_notifications_per_publish: None,
                publishing_enabled: None,
                priority: None,
            }),
    {
        SubscriptionBuilder {
            requested_publishing_interval: None,
            requested_lifetime_count: None,
            requested_max_keep_alive_count: None,
            max_notifications_per_publish: None,
            publishing_enabled: None,
            priority: None,
        }
    }

    /// Sets requested publishing interval. Default value is 500 ms.
    pub fn requested_publishing_interval(self, requested_publishing_interval: Option<Duration>) -> (r:
        Self)
        ensures
            r@ == (SubscriptionBuilderView {
                requested_publishing_interval: Some(requested_publishing_interval),
                ..self@
            }),
    {
        let mut s = self;
        s.requested_publishing_interval = Some(requested_publishing_interval);
        s
    }

    /// Sets requested lifetime count. Default value is 10000.
    pub fn requested_lifetime_count(self, requested_lifetime_count: u32) -> (r: Self)
        ensures
            r@ == (SubscriptionBuilderView {
                requested_lifetime_count: Some(requested_lifetime_count),
                ..self@
            }),
    {
        let mut s = self;
        s.requested_lifetime_count = Some(requested_lifetime_count);
        s
    }

    /// Sets requested maximum keep-alive count. Default value is 10.
    pub fn requested_max_keep_alive_count(self, requested_max_keep_alive_count: Option<u32>) -> (r:
        Self)
        requires
            requested_max_keep_alive_count != Some(0u32),
        ensures
            r@ == (SubscriptionBuilderView {
                requested_max_keep_alive_count: Some(requested_max_keep_alive_count),
                ..self@
            }),
    {
        let mut s = self;
        s.requested_max_keep_alive_count = Some(requested_max_keep_alive_count);
        s
    }

    /// Sets maximum number of notifications that the client wishes to receive in a single publish
    /// response. Default value is `None` (unlimited).
    pub fn max_notifications_per_publish(self, max_notifications_per_publish: Option<u32>) -> (r:
        Self)
        requires
            max_notifications_per_publish != Some(0u32),
        ensures
            r@ == (SubscriptionBuilderView {
                max_notifications_per_publish: Some(max_notifications_per_publish),
                ..self@
            }),
    {
        let mut s = self;
        s.max_notifications_per_publish = Some(max_notifications_per_publish);
        s
    }

    /// Enables or disables publishing. Default value is `true`.
    pub fn publishing_enabled(self, publishing_enabled: bool) -> (r: Self)
        ensures
            r@ == (SubscriptionBuilderView { publishing_enabled: Some(publishing_enabled), ..self@ }),
    {
        let mut s = self;
        s.publishing_enabled = Some(publishing_enabled);
        s
    }

    /// Sets relative priority of the subscription. Default value is 0.
    pub fn priority(self, priority: u8) -> (r: Self)
        ensures
            r@ == (SubscriptionBuilderView { priority: Some(priority), ..self@ }),
    {
        let mut s = self;
        s.priority = Some(priority);
        s
    }

    /// Turns the settings into a creation request.
    pub fn into_request(self) -> (r: CreateSubscriptionRequest)
        ensures
            r.request_header.timeout_hint == 0,
            match self@.requested_publishing_interval {
                Some(i) => r.requested_publishing_interval == i,
                None => r.requested_publishing_interval matches Some(d) && d@ == 500_000_000,
            },
            r.requested_lifetime_count == match self@.requested_lifetime_count {
                Some(n) => n,
                None => 10000,
            },
            r.requested_max_keep_alive_count == match self@.requested_max_keep_alive_count {
                Some(n) => count_or_zero(n),
                None => 10,
            },
            r.max_notifications_per_publish == match self@.max_notifications_per_publish {
                Some(n) => count_or_zero(n),
                None => 0,
            },
            r.publishing_enabled == match self@.publishing_enabled {
                Some(b) => b,
                None => true,
            },
            r.priority == match self@.priority {
                Some(p) => p,
                None => 0,
            },
    {
        let mut request = CreateSubscriptionRequest::default();
        if let Some(i) = self.requested_publishing_interval {
            request.requested_publishing_interval = i;
        }
        if let Some(n) = self.requested_lifetime_count {
            request.requested_lifetime_count = n;
        }
        if let Some(n) = self.requested_max_keep_alive_count {
            request.requested_max_keep_alive_count = match n {
                Some(k) => k,
                None => 0,
            };
        }
        if let Some(n) = self.max_notifications_per_publish {
            request.max_notifications_per_publish = match n {
                Some(k) => k,
                None => 0,
            };
        }
        if let Some(b) = self.publishing_enabled {
            request.publishing_enabled = b;
        }
        if let Some(p) = self.priority {
            request.priority = p;
        }
        request
    }
}

/// Subscription: the ID the server assigned, with the handle `C` of its client.
#[derive(Debug)]
pub struct AsyncSubscription<C> {
    client: C,
    subscription_id: SubscriptionId,
}

impl<C> AsyncSubscription<C> {
    pub closed spec fn spec_client(self) -> C {
        self.client
    }

    pub closed spec fn spec_subscription_id(self) -> SubscriptionId {
        self.subscription_id
    }

    /// Creates subscription handle.
    pub fn new(client: C, subscription_id: SubscriptionId) -> (r: AsyncSubscription<C>)
        ensures
            r.spec_client() == client,
            r.spec_subscription_id() == subscription_id,
    {
        AsyncSubscription { client, subscription_id }
    }

    /// Gets the client handle.
    pub fn client(&self) -> (r: &C)
        ensures
            *r == self.spec_client(),
    {
        &self.client
    }

    /// Gets the subscription ID.
    pub fn subscription_id(&self) -> (r: SubscriptionId)
        ensures
            r == self.spec_subscription_id(),
    {
        self.subscription_id
    }

    /// Request that deletes the subscription at the server.
    pub fn delete_request(&self) -> (r: DeleteSubscriptionsRequest)
        ensures
            r.subscription_ids@ == seq![self.spec_subscription_id()],
    {
        let mut ids: Vec<SubscriptionId> = Vec::new();
        ids.push(self.subscription_id);
        assert(ids@ =~= seq![self.subscription_id]);
        DeleteSubscriptionsRequest { request_header: ua::RequestHeader::init(), subscription_ids: ids }
    }
}

/// Takes the single result of creating one monitored item.
///
/// This fails when there is not exactly one result, and passes on the result's error.
pub fn single_result<T>(results: Vec<Result<T>>) -> (r: Result<T>)
    ensures
        results.len() == 1 ==> r == results@[0],
        results.len() != 1 ==> r == Err::<T, Error>(
            Error::Internal("expected exactly one monitored item"),
        ),
{
    if results.len() != 1 {
        return Err(Error::internal("expected exactly one monitored item"));
    }
    let mut results = results;
    results.pop().unwrap()
}

} // verus!
