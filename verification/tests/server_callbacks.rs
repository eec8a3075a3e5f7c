use open62541::server::{
    DataSource, DataSourceError, DataSourceReadContext, DataSourceResult, DataSourceWriteContext,
    MethodCallback, MethodCallbackContext, MethodCallbackError, MethodCallbackResult,
};
use open62541::ua::{DataValue, NodeId, StatusCode, Variant};
use open62541::{
    array_result, data_source_status_code, fetch_certificate_result, method_callback_status_code,
    Certificate, Error,
};

struct Counter(i32);

impl DataSource for Counter {
    fn read(&mut self, context: &mut DataSourceReadContext) -> DataSourceResult {
        self.0 += 1;
        context.set_variant(Variant::Int32(self.0));
        Ok(())
    }
}

struct Doubler;

impl MethodCallback for Doubler {
    fn call(&mut self, context: &mut MethodCallbackContext) -> MethodCallbackResult {
        let Some(Variant::Int32(n)) = context.input_arguments().first() else {
            return Err(MethodCallbackError::from_status_code(StatusCode::bad_not_supported()));
        };
        let doubled = vec![Variant::Int32(n * 2)];
        context
            .set_output_arguments(doubled)
            .map_err(|()| MethodCallbackError::from(StatusCode::bad_internal_error()))
    }
}

#[test]
fn data_source_read_sets_value() {
    let mut source = Counter(0);
    let mut context = DataSourceReadContext::new(DataValue::init());
    let outcome = source.read(&mut context);
    assert!(outcome.is_ok());
    assert!(matches!(context.value().value, Some(Variant::Int32(1))));
    assert_eq!(data_source_status_code(Some(outcome)), StatusCode::good());
    assert!(matches!(context.into_value().value, Some(Variant::Int32(1))));
}

#[test]
fn data_source_write_is_not_supported_by_default() {
    let mut source = Counter(0);
    let mut context = DataSourceWriteContext::new(DataValue::new(Variant::Int32(5)));
    assert!(matches!(context.value().value, Some(Variant::Int32(5))));
    let outcome = source.write(&mut context);
    assert!(matches!(outcome, Err(DataSourceError::StatusCode(s)) if s == StatusCode::bad_not_supported()));
    assert_eq!(data_source_status_code(Some(outcome)), StatusCode::bad_not_supported());
}

#[test]
fn data_source_set_value_replaces_whole_value() {
    let mut context = DataSourceReadContext::new(DataValue::new(Variant::Boolean(true)));
    let mut value = DataValue::new(Variant::UInt32(3));
    value.status = Some(StatusCode::uncertain());
    context.set_value(value);
    assert!(matches!(context.value().value, Some(Variant::UInt32(3))));
    assert_eq!(context.value().status, Some(StatusCode::uncertain()));
}

#[test]
fn callback_outcomes_become_status_codes() {
    assert_eq!(data_source_status_code(None), StatusCode::bad_internal_error());
    assert_eq!(
        data_source_status_code(Some(Err(DataSourceError::from_error(Error::internal("x"))))),
        StatusCode::bad()
    );
    assert_eq!(method_callback_status_code(Some(Ok(()))), StatusCode::good());
    assert_eq!(method_callback_status_code(None), StatusCode::bad_internal_error());
    assert_eq!(
        method_callback_status_code(Some(Err(MethodCallbackError::NotSupported))),
        StatusCode::bad_not_supported()
    );
}

#[test]
fn method_callback_fills_outputs() {
    let mut context = MethodCallbackContext::new(
        NodeId::numeric(1, 7),
        vec![Variant::Int32(21)],
        vec![Variant::Empty],
    );
    assert!(context.object_id().equals(&NodeId::numeric(1, 7)));
    let outcome = Doubler.call(&mut context);
    assert!(outcome.is_ok());
    assert_eq!(method_callback_status_code(Some(outcome)), StatusCode::good());
    let outputs = context.into_output_arguments();
    assert_eq!(outputs.len(), 1);
    assert!(matches!(outputs[0], Variant::Int32(42)));
}

#[test]
fn method_callback_rejects_wrong_number_of_outputs() {
    let mut context = MethodCallbackContext::new(NodeId::numeric(1, 7), vec![Variant::Int32(1)], Vec::new());
    let outcome = Doubler.call(&mut context);
    assert_eq!(method_callback_status_code(Some(outcome)), StatusCode::bad_internal_error());
    assert!(context.into_output_arguments().is_empty());

    let mut missing = MethodCallbackContext::new(NodeId::numeric(1, 7), Vec::new(), vec![Variant::Empty]);
    let outcome = Doubler.call(&mut missing);
    assert_eq!(method_callback_status_code(Some(outcome)), StatusCode::bad_not_supported());
}

#[test]
fn method_callback_error_from_status_code() {
    let error = MethodCallbackError::from(StatusCode::good());
    assert_eq!(error.into_status_code(), StatusCode::bad_internal_error());
    let error = MethodCallbackError::from(StatusCode::bad_not_found());
    assert_eq!(error.into_status_code(), StatusCode::bad_not_found());
}

#[test]
fn array_results() {
    assert_eq!(array_result(StatusCode::good(), Some(vec![1, 2]), "missing").ok(), Some(vec![1, 2]));
    assert!(matches!(array_result::<u8>(StatusCode::good(), None, "missing"), Err(Error::Internal("missing"))));
    assert!(matches!(
        array_result(StatusCode::bad_not_found(), Some(vec![1]), "missing"),
        Err(Error::Server(s)) if s == StatusCode::bad_not_found()
    ));
}

#[test]
fn fetched_certificate() {
    let certificate = fetch_certificate_result(Some(Certificate::from_bytes(&[3, 4]))).expect("received");
    assert_eq!(certificate.as_bytes(), &[3, 4]);
    assert!(matches!(fetch_certificate_result(None), Err(Error::Internal("did not receive certificate"))));
}

#[test]
fn constructor_status_follows_lifecycle() {
    assert_eq!(open62541::constructor_status_code(None), StatusCode::bad_internal_error());
    assert_eq!(open62541::constructor_status_code(Some(StatusCode::good())), StatusCode::good());
    assert_eq!(
        open62541::constructor_status_code(Some(StatusCode::bad_not_found())),
        StatusCode::bad_not_found()
    );
}
