use open62541::ua::StatusCode;
use open62541::Error;

#[test]
fn status_code_severity() {
    assert!(StatusCode::good().is_good());
    assert!(StatusCode::uncertain().is_uncertain());
    assert!(StatusCode::bad_internal_error().is_bad());
    assert!(!StatusCode::bad_not_found().is_good());
}

#[test]
fn verify_good_passes_good_status() {
    assert!(Error::verify_good(&StatusCode::good()).is_ok());
    match Error::verify_good(&StatusCode::bad_not_found()) {
        Err(Error::Server(code)) => assert_eq!(code, StatusCode::bad_not_found()),
        _ => panic!("expected server error"),
    }
}
