use open62541::ua::{
    AttributeId, BrowseDescription, BrowseResponse, BrowseResult, CallMethodResult, CallResponse,
    ContinuationPoint, DataValue, LocalizedText, NodeClass, NodeId, QualifiedName, ReadResponse,
    ReferenceDescription, ResponseHeader, StatusCode, TimestampsToReturn, Variant, WriteResponse,
};
use open62541::{
    attributes, background_step, browse_many_request, browse_many_results, browse_next_request,
    browse_request, browse_result, call_method_request, call_method_result,
    read_attribute_result, read_attributes_pairs, read_many_attributes_request,
    read_many_attributes_result, run_iterate_timeout_millis, service_response_result,
    to_browse_result, write_value_request, write_value_result, BackgroundStep, Duration, Error,
    RUN_ITERATE_TIMEOUT_MILLIS,
};

fn good_header() -> ResponseHeader {
    ResponseHeader { service_result: StatusCode::good() }
}

fn reference(numeric: u32) -> ReferenceDescription {
    ReferenceDescription {
        reference_type_id: NodeId::ns0(35),
        is_forward: true,
        node_id: NodeId::numeric(1, numeric),
        browse_name: QualifiedName::new(1, "Child"),
        display_name: LocalizedText::new("en", "Child"),
        node_class: NodeClass::variable(),
        type_definition: NodeId::ns0(63),
    }
}

#[test]
fn read_request_lists_node_attributes_with_both_timestamps() {
    let pairs = read_attributes_pairs(
        &NodeId::numeric(1, 42),
        &[AttributeId::value(), AttributeId::browse_name()],
    );
    assert_eq!(pairs.len(), 2);
    let request = read_many_attributes_request(&pairs);
    assert_eq!(request.timestamps_to_return, TimestampsToReturn::both());
    assert_eq!(request.nodes_to_read.len(), 2);
    assert!(request.nodes_to_read[0].node_id.equals(&NodeId::numeric(1, 42)));
    assert_eq!(request.nodes_to_read[0].attribute_id, AttributeId::value());
    assert_eq!(request.nodes_to_read[1].attribute_id, AttributeId::browse_name());
    assert_eq!(AttributeId::value().as_u32(), 13);
}

#[test]
fn read_results_are_passed_on_in_order() {
    let response = ReadResponse {
        response_header: good_header(),
        results: Some(vec![
            DataValue::new(Variant::Int32(7)),
            DataValue::new(Variant::Boolean(true)),
        ]),
    };
    let values = read_many_attributes_result(response, 2).expect("two results");
    assert_eq!(values.len(), 2);
    assert!(matches!(values[0].value(), Some(Variant::Int32(7))));
    assert!(matches!(values[1].value(), Some(Variant::Boolean(true))));
}

#[test]
fn read_results_of_wrong_count_are_rejected() {
    let response = ReadResponse {
        response_header: good_header(),
        results: Some(vec![DataValue::new(Variant::Int32(7))]),
    };
    match read_many_attributes_result(response, 2) {
        Err(Error::Internal(m)) => assert_eq!(m, "unexpected number of read results"),
        _ => panic!("expected error"),
    }
    let unset = ReadResponse { response_header: good_header(), results: None };
    match read_many_attributes_result(unset, 0) {
        Err(Error::Internal(m)) => assert_eq!(m, "read should return results"),
        _ => panic!("expected error"),
    }
}

#[test]
fn read_attribute_takes_the_single_value() {
    let response = ReadResponse {
        response_header: good_header(),
        results: Some(vec![DataValue::new(Variant::Boolean(false))]),
    };
    let values = read_many_attributes_result(response, 1).expect("one result");
    let value = read_attribute_result::<attributes::Value>(values).expect("value");
    assert!(matches!(value.value(), Some(Variant::Boolean(false))));
    match read_attribute_result::<attributes::Value>(Vec::new()) {
        Err(Error::Internal(m)) => assert_eq!(m, "should contain exactly one attribute"),
        _ => panic!("expected error"),
    }
}

#[test]
fn write_request_targets_value_attribute() {
    let request = write_value_request(&NodeId::numeric(1, 5), DataValue::new(Variant::UInt16(3)));
    assert_eq!(request.nodes_to_write.len(), 1);
    assert!(request.nodes_to_write[0].node_id.equals(&NodeId::numeric(1, 5)));
    assert_eq!(request.nodes_to_write[0].attribute_id, AttributeId::value());
    assert!(matches!(request.nodes_to_write[0].value.value, Some(Variant::UInt16(3))));
}

#[test]
fn write_result_follows_first_status() {
    let ok = WriteResponse { response_header: good_header(), results: Some(vec![StatusCode::good()]) };
    assert!(write_value_result(&ok).is_ok());
    let bad = WriteResponse {
        response_header: good_header(),
        results: Some(vec![StatusCode::bad_not_found()]),
    };
    assert!(matches!(write_value_result(&bad), Err(Error::Server(s)) if s == StatusCode::bad_not_found()));
    let empty = WriteResponse { response_header: good_header(), results: Some(Vec::new()) };
    assert!(matches!(write_value_result(&empty), Err(Error::Internal("write should return a result"))));
    let unset = WriteResponse { response_header: good_header(), results: None };
    assert!(matches!(write_value_result(&unset), Err(Error::Internal("write should return results"))));
}

#[test]
fn call_request_and_result() {
    let request = call_method_request(&NodeId::numeric(1, 1), &NodeId::numeric(1, 2), vec![Variant::Int32(4)]);
    assert_eq!(request.methods_to_call.len(), 1);
    assert!(request.methods_to_call[0].object_id.equals(&NodeId::numeric(1, 1)));
    assert!(request.methods_to_call[0].method_id.equals(&NodeId::numeric(1, 2)));
    assert_eq!(request.methods_to_call[0].input_arguments.len(), 1);

    let response = CallResponse {
        response_header: good_header(),
        results: Some(vec![CallMethodResult {
            status_code: StatusCode::good(),
            output_arguments: Some(vec![Variant::Int32(16)]),
        }]),
    };
    let outputs = call_method_result(response).expect("good call");
    assert_eq!(outputs.len(), 1);
    assert!(matches!(outputs[0], Variant::Int32(16)));

    let no_outputs = CallResponse {
        response_header: good_header(),
        results: Some(vec![CallMethodResult { status_code: StatusCode::good(), output_arguments: None }]),
    };
    assert_eq!(call_method_result(no_outputs).expect("good call").len(), 0);

    let failed = CallResponse {
        response_header: good_header(),
        results: Some(vec![CallMethodResult {
            status_code: StatusCode::bad_not_supported(),
            output_arguments: None,
        }]),
    };
    assert!(matches!(call_method_result(failed), Err(Error::Server(s)) if s == StatusCode::bad_not_supported()));
    let empty = CallResponse { response_header: good_header(), results: Some(Vec::new()) };
    assert!(matches!(call_method_result(empty), Err(Error::Internal("call should return a result"))));
    let unset = CallResponse { response_header: good_header(), results: None };
    assert!(matches!(call_method_result(unset), Err(Error::Internal("call should return results"))));
}

#[test]
fn browse_result_without_references_is_empty() {
    let result = BrowseResult { status_code: StatusCode::good(), continuation_point: None, references: None };
    let (references, continuation_point) = to_browse_result(result).expect("good result");
    assert!(references.is_empty());
    assert!(continuation_point.is_none());
}

#[test]
fn browse_result_passes_references_and_continuation_point() {
    let result = BrowseResult {
        status_code: StatusCode::good(),
        continuation_point: Some(ContinuationPoint(vec![1, 2, 3])),
        references: Some(vec![reference(10), reference(11)]),
    };
    let (references, continuation_point) = to_browse_result(result).expect("good result");
    assert_eq!(references.len(), 2);
    assert!(references[1].node_id.equals(&NodeId::numeric(1, 11)));
    assert_eq!(continuation_point.expect("set").0, vec![1, 2, 3]);
}

#[test]
fn browse_result_with_bad_status_fails() {
    let result = BrowseResult {
        status_code: StatusCode::bad_not_found(),
        continuation_point: None,
        references: Some(vec![reference(1)]),
    };
    assert!(matches!(to_browse_result(result), Err(Error::Server(s)) if s == StatusCode::bad_not_found()));
}

#[test]
fn browse_requests() {
    let description = BrowseDescription::default().with_node_id(&NodeId::ns0(85));
    let request = browse_request(description);
    assert_eq!(request.nodes_to_browse.len(), 1);
    assert!(request.nodes_to_browse[0].node_id.equals(&NodeId::ns0(85)));

    let many = browse_many_request(vec![BrowseDescription::default(), BrowseDescription::default()]);
    assert_eq!(many.nodes_to_browse.len(), 2);

    let next = browse_next_request(vec![ContinuationPoint(vec![9])]);
    assert!(!next.release_continuation_points);
    assert_eq!(next.continuation_points.len(), 1);
}

#[test]
fn browse_response_results() {
    let response = BrowseResponse {
        response_header: good_header(),
        results: Some(vec![BrowseResult {
            status_code: StatusCode::good(),
            continuation_point: None,
            references: Some(vec![reference(3)]),
        }]),
    };
    let (references, _) = browse_result(response).expect("one result");
    assert_eq!(references.len(), 1);

    let unset = BrowseResponse { response_header: good_header(), results: None };
    assert!(matches!(browse_result(unset), Err(Error::Internal("browse should return results"))));
    let empty = BrowseResponse { response_header: good_header(), results: Some(Vec::new()) };
    assert!(matches!(browse_result(empty), Err(Error::Internal("browse should return a result"))));
}

#[test]
fn browse_many_results_keep_order_and_count() {
    let response = BrowseResponse {
        response_header: good_header(),
        results: Some(vec![
            BrowseResult { status_code: StatusCode::good(), continuation_point: None, references: None },
            BrowseResult { status_code: StatusCode::bad_not_found(), continuation_point: None, references: None },
        ]),
    };
    let results = browse_many_results(response, 2).expect("two results");
    assert!(results[0].is_ok());
    assert!(matches!(results[1], Err(Error::Server(s)) if s == StatusCode::bad_not_found()));

    let mismatch = BrowseResponse { response_header: good_header(), results: Some(Vec::new()) };
    assert!(matches!(
        browse_many_results(mismatch, 1),
        Err(Error::Internal("unexpected number of browse results"))
    ));
}

#[test]
fn service_result_is_checked() {
    let good = WriteResponse { response_header: good_header(), results: None };
    assert!(service_response_result(good).is_ok());
    let bad = WriteResponse {
        response_header: ResponseHeader { service_result: StatusCode::bad_internal_error() },
        results: None,
    };
    assert!(matches!(
        service_response_result(bad),
        Err(Error::Server(s)) if s == StatusCode::bad_internal_error()
    ));
}

#[test]
fn background_task_steps() {
    assert!(matches!(background_step(StatusCode::good()), BackgroundStep::Continue));
    assert!(matches!(background_step(StatusCode::bad_disconnect()), BackgroundStep::Disconnected));
    assert!(matches!(
        background_step(StatusCode::bad_connection_closed()),
        BackgroundStep::ConnectionClosed
    ));
    assert!(matches!(
        background_step(StatusCode::bad_internal_error()),
        BackgroundStep::Failed(Error::Server(s)) if s == StatusCode::bad_internal_error()
    ));
    assert_eq!(StatusCode::bad_disconnect().code(), 0x80AD_0000);
    assert_eq!(StatusCode::bad_connection_closed().code(), 0x80AE_0000);
}

#[test]
fn run_iterate_timeout_is_saturated_milliseconds() {
    assert_eq!(run_iterate_timeout_millis(&Duration::from_millis(RUN_ITERATE_TIMEOUT_MILLIS)), 200);
    assert_eq!(run_iterate_timeout_millis(&Duration::from_secs(u64::MAX)), u32::MAX);
    assert_eq!(run_iterate_timeout_millis(&Duration::from_millis(4_294_967_295)), u32::MAX);
    assert_eq!(run_iterate_timeout_millis(&Duration::from_millis(4_294_967_294)), 4_294_967_294);
}
