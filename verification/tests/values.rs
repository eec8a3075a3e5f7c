use open62541::ua::{
    AttributeId, BrowsePathTarget, DataValue as UaDataValue, DateTime, Identifier, NodeId, StatusCode, Variant,
};
use open62541::{DataTypeExt, DataValue, Duration, Error};

#[test]
fn node_id_constructors() {
    let numeric = NodeId::new_numeric(1, 42).expect("numeric");
    assert_eq!(numeric.namespace_index(), 1);
    assert!(numeric.is_numeric());
    assert_eq!(numeric.as_ns0(), None);
    assert_eq!(NodeId::ns0(2253).as_ns0(), Some(2253));
    assert!(NodeId::ns0(2253).is_ns0());

    let string = NodeId::new_string(2, "Pump").expect("string");
    assert!(matches!(&string.identifier, Identifier::String(s) if s == "Pump"));
    assert!(string.equals(&NodeId::string(2, "Pump")));
    assert!(!string.equals(&NodeId::string(3, "Pump")));
    assert!(NodeId::new_string(2, "").is_none());
    assert!(NodeId::new_string(2, "a\0b").is_none());

    assert!(NodeId::null().is_null());
    assert!(!NodeId::ns0(1).is_null());
    assert!(!NodeId::string(0, "0").is_null());
}

#[test]
fn node_id_clone_is_equal() {
    let id = NodeId::string(4, "Tank");
    assert!(id.clone().equals(&id));
    let guid = NodeId { namespace_index: 1, identifier: Identifier::Guid(7) };
    assert!(guid.clone().equals(&guid));
    assert!(!guid.equals(&NodeId::numeric(1, 7)));
}

#[test]
fn typed_data_value_accessors() {
    let inner = UaDataValue {
        value: Some(Variant::UInt32(17)),
        status: Some(StatusCode::uncertain()),
        source_timestamp: Some(DateTime(5)),
        server_timestamp: None,
        source_picoseconds: Some(3),
        server_picoseconds: None,
    };
    let value: DataValue<u32> = DataValue::new(inner);
    assert!(matches!(value.value(), Some(Variant::UInt32(17))));
    assert_eq!(value.status(), Some(StatusCode::uncertain()));
    assert_eq!(value.source_timestamp().map(DateTime::as_i64), Some(5));
    assert!(value.server_timestamp().is_none());
    assert_eq!(value.source_picoseconds(), Some(3));
    assert_eq!(value.server_picoseconds(), None);
    assert_eq!(value.into_scalar_value(), Some(17));

    let mismatched: DataValue<bool> = DataValue::new(UaDataValue::new(Variant::UInt32(1)));
    assert_eq!(mismatched.into_scalar_value(), None);
    let unset: DataValue<bool> = DataValue::new(UaDataValue::init());
    assert!(unset.value().is_none());
    assert_eq!(unset.into_scalar_value(), None);
}

#[test]
fn scalar_values_from_variants() {
    assert_eq!(bool::from_variant(Variant::Boolean(true)), Some(true));
    assert_eq!(i32::from_variant(Variant::Int32(-4)), Some(-4));
    assert_eq!(i32::from_variant(Variant::UInt32(4)), None);
    assert_eq!(String::from_variant(Variant::String("x".to_string())), Some("x".to_string()));
}

#[test]
fn status_code_classes() {
    assert!(StatusCode::new(0x0000_0000).is_good());
    assert!(StatusCode::new(0x4000_0000).is_uncertain());
    assert!(StatusCode::new(0x8000_0000).is_bad());
    assert!(StatusCode::new(0xC000_0000).is_bad());
    assert_eq!(Error::new(StatusCode::bad()).status_code(), StatusCode::bad());
    assert_eq!(Error::internal("x").status_code(), StatusCode::bad());
}

#[test]
fn durations() {
    let d = Duration::from_millis(1500);
    assert_eq!(d.as_secs(), 1);
    assert_eq!(d.subsec_nanos(), 500_000_000);
    assert_eq!(d.as_millis(), 1500);
    assert_eq!(Duration::from_secs(3).as_millis(), 3000);
    assert_eq!(Duration::from_millis(u64::MAX).as_millis(), u64::MAX as u128);
    assert_eq!(AttributeId::event_notifier().as_u32(), 12);
}

#[test]
fn browse_path_target_remaining_index() {
    let done = BrowsePathTarget { target_id: NodeId::ns0(2262), remaining_path_index: u32::MAX };
    assert_eq!(done.remaining_path_index(), None);
    let partial = BrowsePathTarget { target_id: NodeId::ns0(2256), remaining_path_index: 1 };
    assert_eq!(partial.remaining_path_index(), Some(1));
}
