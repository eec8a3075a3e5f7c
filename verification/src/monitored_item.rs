//! Values of monitored items, their typestates, and handles that keep them alive.
mod create_request_builder;

pub use self::create_request_builder::{
    apply_setting, apply_settings, build_items, create_request_matches, item_matches,
    lemma_settings_keep_node_ids, MonitoredItemSetting, MonitoredItemCreateRequestBuilder,
    MonitoredItemCreateRequestBuilderView,
};

use vstd::prelude::*;

use core::marker::PhantomData;

use crate::ua::{self, DeleteMonitoredItemsRequest, MonitoredItemId, SubscriptionId, Variant};
use crate::{attributes, Attribute, DataValue, Error, Result};

verus! {

/// Payload of a monitored item notification.
#[derive(Debug, Clone)]
enum MonitoredItemValueInner {
    /// Data change payload, emitted for attributes other than `EventNotifier`.
    DataChange { value: ua::DataValue },
    /// Event payload, emitted for attribute `EventNotifier`.
    Event { fields: Vec<Variant> },
}

/// Value emitted from monitored item notification.
#[derive(Debug, Clone)]
pub struct MonitoredItemValue(MonitoredItemValueInner);

impl MonitoredItemValue {
    /// The data change payload, if this is one.
    pub closed spec fn spec_data_change(self) -> Option<ua::DataValue> {
        match self.0 {
            MonitoredItemValueInner::DataChange { value } => Some(value),
            MonitoredItemValueInner::Event { .. } => None,
        }
    }

    /// The event payload, if this is one.
    pub closed spec fn spec_event(self) -> Option<Seq<Variant>> {
        match self.0 {
            MonitoredItemValueInner::DataChange { .. } => None,
            MonitoredItemValueInner::Event { fields } => Some(fields@),
        }
    }

    /// Creates data change payload.
    pub fn data_change(value: ua::DataValue) -> (r: MonitoredItemValue)
        ensures
            r.spec_data_change() == Some(value),
            r.spec_event() is None,
    {
        MonitoredItemValue(MonitoredItemValueInner::DataChange { value })
    }

    /// Creates event payload.
    pub fn event(fields: Vec<Variant>) -> (r: MonitoredItemValue)
        ensures
            r.spec_event() == Some(fields@),
            r.spec_data_change() is None,
    {
        MonitoredItemValue(MonitoredItemValueInner::Event { fields })
    }

    /// Gets data change payload.
    ///
    /// This returns `None` for event monitored items.
    pub fn value(&self) -> (r: Option<&ua::DataValue>)
        ensures
            r is Some <==> self.spec_data_change() is Some,
            r matches Some(v) ==> *v == self.spec_data_change()->0,
    {
        match &self.0 {
            MonitoredItemValueInner::DataChange { value } => Some(value),
            MonitoredItemValueInner::Event { .. } => None,
        }
    }

    /// Gets event payload.
    ///
    /// This returns `None` for data change monitored items.
    pub fn fields(&self) -> (r: Option<&[Variant]>)
        ensures
            r is Some <==> self.spec_event() is Some,
            r matches Some(f) ==> f@ == self.spec_event()->0,
    {
        match &self.0 {
            MonitoredItemValueInner::DataChange { .. } => None,
            MonitoredItemValueInner::Event { fields } => Some(fields.as_slice()),
        }
    }

    /// Extracts data change payload.
    pub fn into_data_change(self) -> (r: Option<ua::DataValue>)
        ensures
            r == self.spec_data_change(),
    {
        match self.0 {
            MonitoredItemValueInner::DataChange { value } => Some(value),
            MonitoredItemValueInner::Event { .. } => None,
        }
    }

    /// Extracts event payload.
    pub fn into_event(self) -> (r: Option<Vec<Variant>>)
        ensures
            r is Some <==> self.spec_event() is Some,
            r matches Some(f) ==> Some(f@) == self.spec_event(),
    {
        match self.0 {
            MonitoredItemValueInner::DataChange { .. } => None,
            MonitoredItemValueInner::Event { fields } => Some(fields),
        }
    }
}

/// Every notification is either a data change or an event, never both.
pub proof fn lemma_value_kind_exclusive(v: MonitoredItemValue)
    ensures
        v.spec_data_change() is Some <==> v.spec_event() is None,
{
}

/// Typestate trait: which notifications a monitored item yields, and as which type.
pub trait MonitoredItemKind: Sized {
    /// Type of the values yielded.
    type Value;

    /// Notifications that this kind of monitored item receives.
    spec fn spec_accepts(value: MonitoredItemValue) -> bool;

    /// `r` is what `value` is turned into.
    spec fn spec_maps_to(value: MonitoredItemValue, r: Self::Value) -> bool;

    /// Turns notification into value.
    fn map_value(value: MonitoredItemValue) -> (r: Self::Value)
        requires
            Self::spec_accepts(value),
        ensures
            Self::spec_maps_to(value, r),
    ;
}

/// Typestate for [`MonitoredItemKind`] that yields data change notifications of attribute `T`.
#[derive(Debug)]
pub struct DataChange<T: Attribute>(PhantomData<T>);

impl<T: Attribute> MonitoredItemKind for DataChange<T> {
    type Value = DataValue<T::Value>;

    open spec fn spec_accepts(value: MonitoredItemValue) -> bool {
        value.spec_data_change() is Some
    }

    open spec fn spec_maps_to(value: MonitoredItemValue, r: DataValue<T::Value>) -> bool {
        value.spec_data_change() == Some(r.spec_inner())
    }

    fn map_value(value: MonitoredItemValue) -> (r: DataValue<T::Value>) {
        match value.0 {
            MonitoredItemValueInner::DataChange { value } => DataValue::new(value),
            MonitoredItemValueInner::Event { .. } => {
                assert(false);
                DataValue::new(ua::DataValue::init())
            },
        }
    }
}

/// Typestate for [`MonitoredItemKind`] that yields event notifications.
#[derive(Debug)]
pub struct Event;

impl MonitoredItemKind for Event {
    type Value = Vec<Variant>;

    open spec fn spec_accepts(value: MonitoredItemValue) -> bool {
        value.spec_event() is Some
    }

    open spec fn spec_maps_to(value: MonitoredItemValue, r: Vec<Variant>) -> bool {
        value.spec_event() == Some(r@)
    }

    fn map_value(value: MonitoredItemValue) -> (r: Vec<Variant>) {
        match value.0 {
            MonitoredItemValueInner::DataChange { .. } => {
                assert(false);
                Vec::new()
            },
            MonitoredItemValueInner::Event { fields } => fields,
        }
    }
}

/// Typestate for [`MonitoredItemKind`] that yields notifications of either kind.
#[derive(Debug)]
pub struct Unknown;

impl MonitoredItemKind for Unknown {
    type Value = MonitoredItemValue;

    open spec fn spec_accepts(value: MonitoredItemValue) -> bool {
        true
    }

    open spec fn spec_maps_to(value: MonitoredItemValue, r: MonitoredItemValue) -> bool {
        r == value
    }

    fn map_value(value: MonitoredItemValue) -> (r: MonitoredItemValue) {
        value
    }
}

/// Attribute for monitored items, with the matching typestate.
pub trait MonitoredItemAttribute: Attribute {
    /// Matching [`MonitoredItemKind`] implementation for attribute.
    type Kind: MonitoredItemKind;
}

impl MonitoredItemAttribute for attributes::NodeId {
    type Kind = DataChange<attributes::NodeId>;
}

impl MonitoredItemAttribute for attributes::NodeClass {
    type Kind = DataChange<attributes::NodeClass>;
}

impl MonitoredItemAttribute for attributes::BrowseName {
    type Kind = DataChange<attributes::BrowseName>;
}

impl MonitoredItemAttribute for attributes::DisplayName {
    type Kind = DataChange<attributes::DisplayName>;
}

impl MonitoredItemAttribute for attributes::Description {
    type Kind = DataChange<attributes::Description>;
}

impl MonitoredItemAttribute for attributes::WriteMask {
    type Kind = DataChange<attributes::WriteMask>;
}

impl MonitoredItemAttribute for attributes::UserWriteMask {
    type Kind = DataChange<attributes::UserWriteMask>;
}

impl MonitoredItemAttribute for attributes::IsAbstract {
    type Kind = DataChange<attributes::IsAbstract>;
}

impl MonitoredItemAttribute for attributes::Symmetric {
    type Kind = DataChange<attributes::Symmetric>;
}

impl MonitoredItemAttribute for attributes::InverseName {
    type Kind = DataChange<attributes::InverseName>;
}

impl MonitoredItemAttribute for attributes::ContainsNoLoops {
    type Kind = DataChange<attributes::ContainsNoLoops>;
}

/// Attribute `EventNotifier` yields events rather than data changes.
impl MonitoredItemAttribute for attributes::EventNotifier {
    type Kind = Event;
}

impl MonitoredItemAttribute for attributes::Value {
    type Kind = DataChange<attributes::Value>;
}

impl MonitoredItemAttribute for attributes::DataType {
    type Kind = DataChange<attributes::DataType>;
}

impl MonitoredItemAttribute for attributes::ValueRank {
    type Kind = DataChange<attributes::ValueRank>;
}

impl MonitoredItemAttribute for attributes::AccessLevel {
    type Kind = DataChange<attributes::AccessLevel>;
}

impl MonitoredItemAttribute for attributes::UserAccessLevel {
    type Kind = DataChange<attributes::UserAccessLevel>;
}

impl MonitoredItemAttribute for attributes::Historizing {
    type Kind = DataChange<attributes::Historizing>;
}

impl MonitoredItemAttribute for attributes::Executable {
    type Kind = DataChange<attributes::Executable>;
}

impl MonitoredItemAttribute for attributes::UserExecutable {
    type Kind = DataChange<attributes::UserExecutable>;
}

impl MonitoredItemAttribute for attributes::AccessRestrictions {
    type Kind = DataChange<attributes::AccessRestrictions>;
}

impl MonitoredItemAttribute for attributes::AccessLevelEx {
    type Kind = DataChange<attributes::AccessLevelEx>;
}

/// Handle for a single monitored item.
///
/// Keeps the monitored item at the server alive until either deleted or dropped. `C` is the
/// handle of the client that owns the subscription.
#[derive(Debug)]
pub struct MonitoredItemHandle<C> {
    client: C,
    subscription_id: SubscriptionId,
    monitored_item_id: Option<MonitoredItemId>,
}

/// Outcome of [`MonitoredItemHandle::before_delete`]: the ID is taken from a live handle and a
/// request to delete it is made; a handle already deleted is left as it is and an internal error
/// comes back.
pub open spec fn before_delete_post<C>(
    old: MonitoredItemHandle<C>,
    new: MonitoredItemHandle<C>,
    r: Result<(DeleteMonitoredItemsRequest, MonitoredItemId)>,
) -> bool {
    &&& new.spec_client() == old.spec_client()
    &&& new.spec_subscription_id() == old.spec_subscription_id()
    &&& new.spec_monitored_item_id() is None
    &&& match old.spec_monitored_item_id() {
        Some(id) => r matches Ok((request, rid)) && rid == id && request.subscription_id
            == old.spec_subscription_id() && request.monitored_item_ids@ == seq![id],
        None => r == Err::<(DeleteMonitoredItemsRequest, MonitoredItemId), Error>(
            Error::Internal("already deleted"),
        ),
    }
}

impl<C> MonitoredItemHandle<C> {
    pub closed spec fn spec_client(self) -> C {
        self.client
    }

    pub closed spec fn spec_subscription_id(self) -> SubscriptionId {
        self.subscription_id
    }

    /// The ID of the monitored item; `None` once deleted.
    pub closed spec fn spec_monitored_item_id(self) -> Option<MonitoredItemId> {
        self.monitored_item_id
    }

    /// Creates handle for a live monitored item.
    pub fn new(client: C, subscription_id: SubscriptionId, monitored_item_id: MonitoredItemId) -> (r:
        MonitoredItemHandle<C>)
        ensures
            r.spec_client() == client,
            r.spec_subscription_id() == subscription_id,
            r.spec_monitored_item_id() == Some(monitored_item_id),
    {
        MonitoredItemHandle { client, subscription_id, monitored_item_id: Some(monitored_item_id) }
    }

    /// Gets the client handle.
    pub fn client(&self) -> (r: &C)
        ensures
            *r == self.spec_client(),
    {
        &self.client
    }

    /// Takes the ID for deleting the monitored item, and makes the deletion request.
    ///
    /// This fails when the item has been deleted before.
    pub fn before_delete(&mut self) -> (r: Result<(DeleteMonitoredItemsRequest, MonitoredItemId)>)
        ensures
            before_delete_post(*old(self), *final(self), r),
    {
        let Some(monitored_item_id) = self.monitored_item_id.take() else {
            return Err(Error::internal("already deleted"));
        };
        let mut ids: Vec<MonitoredItemId> = Vec::new();
        ids.push(monitored_item_id);
        let request = DeleteMonitoredItemsRequest {
            request_header: ua::RequestHeader::init(),
            subscription_id: self.subscription_id,
            monitored_item_ids: ids,
        };
        assert(request.monitored_item_ids@ =~= seq![monitored_item_id]);
        Ok((request, monitored_item_id))
    }

    /// Reverts the changes of [`before_delete()`](Self::before_delete) for retrying.
    pub fn after_delete_failed(&mut self, monitored_item_id: MonitoredItemId)
        requires
            old(self).spec_monitored_item_id() is None,
        ensures
            final(self).spec_client() == old(self).spec_client(),
            final(self).spec_subscription_id() == old(self).spec_subscription_id(),
            final(self).spec_monitored_item_id() == Some(monitored_item_id),
    {
        self.monitored_item_id = Some(monitored_item_id);
    }
}

/// A failed deletion that is rolled back leaves the handle as it was before.
pub proof fn lemma_delete_rollback<C>(
    h0: MonitoredItemHandle<C>,
    h1: MonitoredItemHandle<C>,
    h2: MonitoredItemHandle<C>,
    r: Result<(DeleteMonitoredItemsRequest, MonitoredItemId)>,
)
    requires
        before_delete_post(h0, h1, r),
        r matches Ok((_, id)) && h2.spec_client() == h1.spec_client()
            && h2.spec_subscription_id() == h1.spec_subscription_id()
            && h2.spec_monitored_item_id() == Some(id),
    ensures
        h2.spec_client() == h0.spec_client(),
        h2.spec_subscription_id() == h0.spec_subscription_id(),
        h2.spec_monitored_item_id() == h0.spec_monitored_item_id(),
{
}

/// A monitored item is deleted at most once: after a deletion request has been made, asking
/// again fails with an internal error.
pub proof fn lemma_delete_once<C>(
    h0: MonitoredItemHandle<C>,
    h1: MonitoredItemHandle<C>,
    r1: Result<(DeleteMonitoredItemsRequest, MonitoredItemId)>,
    h2: MonitoredItemHandle<C>,
    r2: Result<(DeleteMonitoredItemsRequest, MonitoredItemId)>,
)
    requires
        before_delete_post(h0, h1, r1),
        before_delete_post(h1, h2, r2),
    ensures
        r2 == Err::<(DeleteMonitoredItemsRequest, MonitoredItemId), Error>(
            Error::Internal("already deleted"),
        ),
        h2.spec_monitored_item_id() is None,
{
}

} // verus!
