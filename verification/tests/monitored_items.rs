use open62541::ua::{
    AttributeId, CreateMonitoredItemsResponse, DataValue, MonitoredItemCreateRequest,
    MonitoredItemCreateResult, MonitoredItemId, MonitoringMode, NodeId, ResponseHeader, TimestampsToReturn,
    StatusCode, SubscriptionId, Variant,
};
use open62541::{
    attributes, pair_create_results, reverse_vec, single_result, DataChange, Duration, Error,
    Event, MonitoredItemBuilder, MonitoredItemCreateRequestBuilder, MonitoredItemHandle,
    MonitoredItemKind, MonitoredItemValue, NotificationCallback, Unknown,
};

#[test]
fn request_builder_uses_defaults_for_unset_options() {
    let builder = MonitoredItemCreateRequestBuilder::new(vec![NodeId::numeric(1, 1), NodeId::numeric(1, 2)]);
    assert_eq!(builder.node_ids().len(), 2);
    let request = builder.build(SubscriptionId(7));
    assert_eq!(request.subscription_id, SubscriptionId(7));
    assert_eq!(request.items_to_create.len(), 2);
    for (item, numeric) in request.items_to_create.iter().zip([1u32, 2]) {
        assert!(item.node_id.equals(&NodeId::numeric(1, numeric)));
        assert_eq!(item.attribute_id, AttributeId::value());
        assert_eq!(item.monitoring_mode, MonitoringMode::reporting());
        assert_eq!(item.sampling_interval, Some(Duration::from_millis(250)));
        assert!(item.filter.is_none());
        assert_eq!(item.queue_size, 1);
        assert!(item.discard_oldest);
    }
}

#[test]
fn request_builder_applies_settings() {
    let request = MonitoredItemCreateRequestBuilder::new(vec![NodeId::numeric(2, 9)])
        .attribute(attributes::EventNotifier)
        .monitoring_mode(MonitoringMode::sampling())
        .sampling_interval(None)
        .queue_size(10)
        .discard_oldest(false)
        .build(SubscriptionId(3));
    let item = &request.items_to_create[0];
    assert_eq!(item.attribute_id, AttributeId::event_notifier());
    assert_eq!(item.monitoring_mode, MonitoringMode::sampling());
    assert_eq!(item.sampling_interval, None);
    assert_eq!(item.queue_size, 10);
    assert!(!item.discard_oldest);
}

#[test]
fn request_builder_with_attribute_id() {
    let request = MonitoredItemCreateRequestBuilder::new(vec![NodeId::numeric(2, 9)])
        .attribute_id(AttributeId::browse_name())
        .sampling_interval(Some(Duration::from_millis(1000)))
        .build(SubscriptionId(1));
    assert_eq!(request.items_to_create[0].attribute_id, AttributeId::browse_name());
    assert_eq!(request.items_to_create[0].sampling_interval, Some(Duration::from_secs(1)));
}

#[test]
fn superseded_builder_makes_same_request() {
    let old = MonitoredItemBuilder::new(vec![NodeId::numeric(1, 4)]).queue_size(5);
    let request = old.into_request(SubscriptionId(2));
    assert_eq!(request.items_to_create[0].queue_size, 5);
    assert_eq!(request.items_to_create[0].attribute_id, AttributeId::value());

    let converted: MonitoredItemCreateRequestBuilder<_> =
        MonitoredItemBuilder::new(vec![NodeId::numeric(1, 4)]).discard_oldest(false).into();
    let request = converted.build(SubscriptionId(2));
    assert!(!request.items_to_create[0].discard_oldest);
}

#[test]
fn notification_callback_follows_attribute() {
    let mut request = MonitoredItemCreateRequest::default(NodeId::numeric(1, 1));
    assert_eq!(NotificationCallback::new(&request), NotificationCallback::DataChange);
    request.attribute_id = AttributeId::event_notifier();
    assert_eq!(NotificationCallback::new(&request), NotificationCallback::Event);
}

fn result(status_code: StatusCode, id: u32) -> MonitoredItemCreateResult {
    MonitoredItemCreateResult { status_code, monitored_item_id: MonitoredItemId(id), revised_queue_size: 1 }
}

#[test]
fn create_results_are_paired_with_receivers() {
    let response = CreateMonitoredItemsResponse {
        response_header: ResponseHeader { service_result: StatusCode::good() },
        results: Some(vec![result(StatusCode::good(), 11), result(StatusCode::bad_not_found(), 0)]),
    };
    let paired = pair_create_results(response, vec!["a", "b"], 2, SubscriptionId(1)).expect("counts match");
    assert_eq!(paired.len(), 2);
    match &paired[0] {
        Ok((r, rx)) => {
            assert_eq!(r.monitored_item_id, MonitoredItemId(11));
            assert_eq!(*rx, "a");
        }
        Err(_) => panic!("first item is good"),
    }
    assert!(matches!(paired[1], Err(Error::Server(s)) if s == StatusCode::bad_not_found()));
}

#[test]
fn create_results_of_wrong_count_delete_created_items() {
    let response = CreateMonitoredItemsResponse {
        response_header: ResponseHeader { service_result: StatusCode::good() },
        results: Some(vec![
            result(StatusCode::good(), 11),
            result(StatusCode::bad_not_found(), 12),
            result(StatusCode::good(), 13),
        ]),
    };
    match pair_create_results(response, vec![(), ()], 2, SubscriptionId(4)) {
        Err((Error::Internal(m), Some(request))) => {
            assert_eq!(m, "unexpected number of monitored items");
            assert_eq!(request.subscription_id, SubscriptionId(4));
            assert_eq!(request.monitored_item_ids, vec![MonitoredItemId(11), MonitoredItemId(13)]);
        }
        _ => panic!("expected mismatch"),
    }
    let unset = CreateMonitoredItemsResponse {
        response_header: ResponseHeader { service_result: StatusCode::good() },
        results: None,
    };
    assert!(matches!(
        pair_create_results(unset, Vec::<()>::new(), 0, SubscriptionId(4)),
        Err((Error::Internal("expected monitoring item results"), None))
    ));
}

#[test]
fn single_result_requires_exactly_one() {
    assert_eq!(single_result(vec![Ok::<u32, Error>(5)]).ok(), Some(5));
    assert!(matches!(
        single_result(Vec::<Result<u32, Error>>::new()),
        Err(Error::Internal("expected exactly one monitored item"))
    ));
    assert!(matches!(
        single_result(vec![Ok::<u32, Error>(1), Ok(2)]),
        Err(Error::Internal("expected exactly one monitored item"))
    ));
}

#[test]
fn handle_deletes_once_and_can_retry_after_failure() {
    let mut handle = MonitoredItemHandle::new("client", SubscriptionId(8), MonitoredItemId(21));
    assert_eq!(*handle.client(), "client");
    let (request, id) = handle.before_delete().expect("first deletion");
    assert_eq!(id, MonitoredItemId(21));
    assert_eq!(request.subscription_id, SubscriptionId(8));
    assert_eq!(request.monitored_item_ids, vec![MonitoredItemId(21)]);
    assert!(matches!(handle.before_delete(), Err(Error::Internal("already deleted"))));
    handle.after_delete_failed(id);
    let (_, id_again) = handle.before_delete().expect("retry after failure");
    assert_eq!(id_again, MonitoredItemId(21));
}

#[test]
fn monitored_item_values() {
    let change = MonitoredItemValue::data_change(DataValue::new(Variant::Int32(1)));
    assert!(change.value().is_some());
    assert!(change.fields().is_none());
    let value = DataChange::<attributes::Value>::map_value(change);
    assert!(matches!(value.value(), Some(Variant::Int32(1))));

    let event = MonitoredItemValue::event(vec![Variant::Boolean(true)]);
    assert!(event.value().is_none());
    assert_eq!(event.fields().map(<[Variant]>::len), Some(1));
    let fields = Event::map_value(event);
    assert_eq!(fields.len(), 1);

    let unknown = Unknown::map_value(MonitoredItemValue::event(Vec::new()));
    assert!(unknown.into_event().is_some());
}

#[test]
fn reverse_vec_reverses() {
    assert_eq!(reverse_vec(vec![1, 2, 3]), vec![3, 2, 1]);
    assert_eq!(reverse_vec(Vec::<u8>::new()), Vec::<u8>::new());
}

#[test]
fn superseded_and_current_builders_make_equal_requests() {
    let old = MonitoredItemBuilder::new(vec![NodeId::numeric(1, 4), NodeId::numeric(1, 5)])
        .queue_size(3)
        .into_request(SubscriptionId(6));
    let converted: MonitoredItemCreateRequestBuilder<_> =
        MonitoredItemBuilder::new(vec![NodeId::numeric(1, 4), NodeId::numeric(1, 5)]).queue_size(3).into();
    let new = converted.build(SubscriptionId(6));
    assert_eq!(old.timestamps_to_return, TimestampsToReturn::source());
    assert_eq!(new.timestamps_to_return, TimestampsToReturn::source());
    assert_eq!(old.request_header.timeout_hint, 0);
    assert_eq!(new.request_header.timeout_hint, 0);
    assert_eq!(old.subscription_id, new.subscription_id);
    assert_eq!(old.items_to_create.len(), new.items_to_create.len());
    for (a, b) in old.items_to_create.iter().zip(&new.items_to_create) {
        assert!(a.node_id.equals(&b.node_id));
        assert_eq!(a.queue_size, b.queue_size);
        assert_eq!(a.attribute_id, b.attribute_id);
    }
}

#[test]
fn settings_keep_node_ids() {
    let builder = MonitoredItemCreateRequestBuilder::new(vec![NodeId::numeric(1, 3), NodeId::string(2, "x")])
        .queue_size(4)
        .attribute_id(AttributeId::display_name())
        .monitoring_mode(MonitoringMode::disabled())
        .sampling_interval(None)
        .discard_oldest(false)
        .queue_size(9);
    let ids = builder.node_ids();
    assert_eq!(ids.len(), 2);
    assert!(ids[0].equals(&NodeId::numeric(1, 3)));
    assert!(ids[1].equals(&NodeId::string(2, "x")));
    assert_eq!(builder.build(SubscriptionId(1)).items_to_create[1].queue_size, 9);
}
