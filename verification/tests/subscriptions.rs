use open62541::ua::{CreateSubscriptionRequest, SubscriptionId};
use open62541::{AsyncSubscription, Duration, SubscriptionBuilder};

#[test]
fn subscription_defaults() {
    let request = SubscriptionBuilder::default().into_request();
    assert_eq!(request.requested_publishing_interval, Some(Duration::from_millis(500)));
    assert_eq!(request.requested_lifetime_count, 10_000);
    assert_eq!(request.requested_max_keep_alive_count, 10);
    assert_eq!(request.max_notifications_per_publish, 0);
    assert!(request.publishing_enabled);
    assert_eq!(request.priority, 0);

    let plain = CreateSubscriptionRequest::default();
    assert_eq!(plain.requested_publishing_interval, request.requested_publishing_interval);
    assert_eq!(plain.requested_lifetime_count, request.requested_lifetime_count);
}

#[test]
fn subscription_settings() {
    let request = SubscriptionBuilder::new()
        .requested_publishing_interval(Some(Duration::from_secs(2)))
        .requested_lifetime_count(50)
        .requested_max_keep_alive_count(Some(7))
        .max_notifications_per_publish(Some(100))
        .publishing_enabled(false)
        .priority(3)
        .into_request();
    assert_eq!(request.requested_publishing_interval, Some(Duration::from_millis(2000)));
    assert_eq!(request.requested_lifetime_count, 50);
    assert_eq!(request.requested_max_keep_alive_count, 7);
    assert_eq!(request.max_notifications_per_publish, 100);
    assert!(!request.publishing_enabled);
    assert_eq!(request.priority, 3);
}

#[test]
fn subscription_unset_counts_become_zero() {
    let request = SubscriptionBuilder::new()
        .requested_publishing_interval(None)
        .requested_max_keep_alive_count(None)
        .max_notifications_per_publish(None)
        .into_request();
    assert_eq!(request.requested_publishing_interval, None);
    assert_eq!(request.requested_max_keep_alive_count, 0);
    assert_eq!(request.max_notifications_per_publish, 0);
}

#[test]
fn subscription_handle_deletes_its_id() {
    let subscription = AsyncSubscription::new(17u8, SubscriptionId(99));
    assert_eq!(*subscription.client(), 17);
    assert_eq!(subscription.subscription_id(), SubscriptionId(99));
    let request = subscription.delete_request();
    assert_eq!(request.subscription_ids, vec![SubscriptionId(99)]);
}

#[test]
fn subscription_request_has_no_timeout_hint_and_last_setting_wins() {
    let request = SubscriptionBuilder::new().priority(1).priority(4).publishing_enabled(false).into_request();
    assert_eq!(request.request_header.timeout_hint, 0);
    assert_eq!(request.priority, 4);
    assert!(!request.publishing_enabled);
    assert_eq!(request.requested_lifetime_count, 10_000);
    assert_eq!(CreateSubscriptionRequest::default().request_header.timeout_hint, 0);
}
