//! Verified core of an OPC UA client and server library built around the open62541 C library.
//!
//! The types in [`ua`] hold, as plain values, the parts of OPC UA data types that the library's
//! logic reads and writes. The functions here build requests, interpret responses and maintain
//! the state of handles; the transport (the C library) is driven from outside.
mod async_client;
mod async_monitored_item;
mod async_subscription;
pub mod attributes;
mod client;
mod data_type_array;
mod data_value;
mod duration;
mod error;
mod monitored_item;
pub mod server;
mod service;
mod ssl;
mod traits;
pub mod ua;

pub use self::async_client::{
    background_step, deps_in_range, has_cycle, is_dependency_walk,
    lemma_topological_order_exists, walk_step, browse_many_request, browse_many_results, browse_next_request,
    browse_request, browse_result, browse_result_matches, call_method_request, call_method_result,
    is_topological_order, is_well_known_data_type, lemma_plan_lists_new_descriptions_once,
    plan_new_data_types, read_attribute_result, read_attributes_pairs,
    read_many_attributes_request, read_many_attributes_result, run_iterate_timeout_millis,
    to_browse_result, topological_sort, write_value_request, write_value_result, BackgroundStep,
    BrowseResult, RUN_ITERATE_TIMEOUT_MILLIS,
};
pub use self::async_monitored_item::{
    good_item_ids, lemma_from_builder_same_request, pair_create_results, reverse_vec, MonitoredItemBuilder, NotificationCallback,
};
pub use self::async_subscription::{
    count_or_zero, single_result, AsyncSubscription, SubscriptionBuilder, SubscriptionBuilderView,
};
pub use self::client::{
    millis, ApplicationDescription, CertificateVerification, ClientBuilder, ClientConfig,
    UserIdentityToken,
};
pub use self::data_type_array::{
    flatten, lemma_flatten_prefix, DataTypeArray, INITIAL_ARRAY_CAPACITY,
};
pub use self::data_value::DataValue;
pub use self::duration::Duration;
pub use self::error::{Error, Result};
pub use self::monitored_item::{
    apply_setting, apply_settings, before_delete_post, build_items, create_request_matches,
    item_matches, lemma_settings_keep_node_ids, MonitoredItemSetting, lemma_delete_once, lemma_delete_rollback,
    lemma_value_kind_exclusive, DataChange, Event, MonitoredItemAttribute,
    MonitoredItemCreateRequestBuilder, MonitoredItemCreateRequestBuilderView, MonitoredItemHandle,
    MonitoredItemKind, MonitoredItemValue, Unknown,
};
pub use self::server::{
    call_status, callback_status, constructor_status_code, data_source_status_code, decimal,
    digit_char,
    fill_output_arguments, lemma_call_status_good, lemma_callback_status_good,
    lemma_data_source_status, lemma_method_callback_status, lemma_node_type_lifecycle_once,
    method_callback_status_code, namespace_lookup_result, port_url, Argument, Attributes,
    DataSource, DataSourceError, DataSourceReadContext, DataSourceResult, DataSourceWriteContext,
    DefaultAccessControl, LifecycleManager, MethodAttributes, MethodCallback,
    MethodCallbackContext, MethodCallbackError, MethodCallbackResult, MethodNode,
    MethodNodeArgumentsNodeIds, Node, NodeTypeLifecycle, ObjectAttributes, ObjectNode,
    ServerBuilder, ServerConfig, ServerSecurity, VariableAttributes, VariableNode,
};
pub use self::service::{array_result, service_response_result, ServiceRequest, ServiceResponse};
pub use self::ssl::{fetch_certificate_result, Certificate, Password, PrivateKey};
pub use self::traits::{
    Attribute, CustomCertificateVerification, DataTypeExt, FilterOperand, MonitoringFilter,
    PrivateKeyPasswordCallback,
};

use vstd::prelude::*;

verus! {

/// IANA-assigned OPC UA port number.
pub const DEFAULT_PORT_NUMBER: u16 = 4840;

} // verus!
