use open62541::server::{self, ServerSecurity};
use open62541::ua::{
    BrowseResult, LocalizedText, NodeClass, NodeId, QualifiedName, StatusCode, Variant,
};
use open62541::{
    fill_output_arguments, namespace_lookup_result, Attributes, DataSourceError,
    DefaultAccessControl, Error, LifecycleManager, MethodAttributes, MethodCallbackError,
    MethodNodeArgumentsNodeIds, Node, ObjectAttributes, ServerBuilder, VariableAttributes,
    DEFAULT_PORT_NUMBER,
};

#[test]
fn default_server_is_minimal_on_default_port() {
    let config = ServerBuilder::default().into_config();
    assert_eq!(config.port_number, DEFAULT_PORT_NUMBER);
    assert_eq!(DEFAULT_PORT_NUMBER, 4840);
    assert!(matches!(config.security, ServerSecurity::Minimal { certificate: None }));
    assert!(config.server_urls.is_empty());
    assert!(!config.accept_all);
}

#[test]
fn port_sets_single_url() {
    let config = ServerBuilder::default()
        .server_urls(&["opc.tcp://a:1", "opc.tcp://b:2"])
        .port(4841)
        .into_config();
    assert_eq!(config.server_urls, vec!["opc.tcp://:4841".to_string()]);
    let zero = ServerBuilder::default().port(0).into_config();
    assert_eq!(zero.server_urls, vec!["opc.tcp://:0".to_string()]);
    let max = ServerBuilder::default().port(65535).into_config();
    assert_eq!(max.server_urls, vec!["opc.tcp://:65535".to_string()]);
}

#[test]
fn server_urls_are_kept_in_order() {
    let config = ServerBuilder::minimal(4000, Some(&[1, 2, 3]))
        .server_urls(&["opc.tcp://localhost:4000", "opc.tcp://[::1]:4000"])
        .accept_all()
        .into_config();
    assert_eq!(config.port_number, 4000);
    assert_eq!(
        config.server_urls,
        vec!["opc.tcp://localhost:4000".to_string(), "opc.tcp://[::1]:4000".to_string()]
    );
    assert!(config.accept_all);
    match config.security {
        ServerSecurity::Minimal { certificate: Some(c) } => assert_eq!(c, vec![1, 2, 3]),
        _ => panic!("expected minimal security with certificate"),
    }
}

#[test]
fn try_server_urls_refuses_nul() {
    assert!(ServerBuilder::default().try_server_urls(&["opc.tcp://x\0:1"]).is_none());
    let builder = ServerBuilder::default().try_server_urls(&["opc.tcp://x:1"]).expect("no NUL");
    assert_eq!(builder.into_config().server_urls, vec!["opc.tcp://x:1".to_string()]);
}

#[test]
fn security_policies_keep_certificate_and_key() {
    let config = ServerBuilder::default_with_security_policies(4840, &[9, 9], &[7]).into_config();
    match config.security {
        ServerSecurity::WithSecurityPolicies { certificate, private_key } => {
            assert_eq!(certificate, vec![9, 9]);
            assert_eq!(private_key, vec![7]);
        }
        _ => panic!("expected security policies"),
    }
    let secure = ServerBuilder::default_with_secure_security_policies(4840, &[1], &[2]).into_config();
    assert!(matches!(secure.security, ServerSecurity::WithSecureSecurityPolicies { .. }));
}

#[test]
fn local_browse_result_needs_references() {
    let missing = BrowseResult { status_code: StatusCode::good(), continuation_point: None, references: None };
    assert!(matches!(
        server::to_browse_result(missing),
        Err(Error::Internal("browse should return references"))
    ));
    let empty = BrowseResult { status_code: StatusCode::good(), continuation_point: None, references: Some(Vec::new()) };
    assert!(server::to_browse_result(empty).is_ok());
    let bad = BrowseResult { status_code: StatusCode::bad_not_found(), continuation_point: None, references: None };
    assert!(matches!(server::to_browse_result(bad), Err(Error::Server(s)) if s == StatusCode::bad_not_found()));
}

#[test]
fn namespace_lookup() {
    assert_eq!(namespace_lookup_result(StatusCode::good(), 2), Some(2));
    assert_eq!(namespace_lookup_result(StatusCode::good(), 65535), Some(65535));
    assert_eq!(namespace_lookup_result(StatusCode::good(), 65536), None);
    assert_eq!(namespace_lookup_result(StatusCode::bad_not_found(), 2), None);
}

#[test]
fn data_source_errors_never_report_success() {
    let from_good = DataSourceError::from_status_code(StatusCode::good());
    assert_eq!(from_good.into_status_code(), StatusCode::bad_internal_error());
    let from_bad = DataSourceError::from_status_code(StatusCode::bad_not_found());
    assert_eq!(from_bad.into_status_code(), StatusCode::bad_not_found());
    let from_error = DataSourceError::from_error(Error::internal("oops"));
    assert_eq!(from_error.into_status_code(), StatusCode::bad());
    let from_server = DataSourceError::from_error(Error::new(StatusCode::bad_not_supported()));
    assert_eq!(from_server.into_status_code(), StatusCode::bad_not_supported());
}

#[test]
fn method_callback_errors_never_report_success() {
    assert_eq!(
        MethodCallbackError::from_status_code(StatusCode::good()).into_status_code(),
        StatusCode::bad_internal_error()
    );
    assert_eq!(
        MethodCallbackError::from_status_code(StatusCode::bad_not_found()).into_status_code(),
        StatusCode::bad_not_found()
    );
    assert_eq!(MethodCallbackError::NotSupported.into_status_code(), StatusCode::bad_not_supported());
    assert_eq!(StatusCode::bad_not_supported().code(), 0x803D_0000);
    assert_eq!(StatusCode::bad_internal_error().code(), 0x8002_0000);
}

#[test]
fn output_arguments_must_match_in_number() {
    let mut outputs = vec![Variant::Empty, Variant::Empty];
    assert!(fill_output_arguments(&mut outputs, vec![Variant::Int32(1)]).is_err());
    assert!(outputs.iter().all(Variant::is_empty));
    assert!(fill_output_arguments(&mut outputs, vec![Variant::Int32(1), Variant::Boolean(true)]).is_ok());
    assert!(matches!(outputs[0], Variant::Int32(1)));
    assert!(matches!(outputs[1], Variant::Boolean(true)));
}

#[test]
fn access_control_keeps_logins() {
    let user = String::from("user");
    let password = String::from("secret");
    let logins = [(&user, &password)];
    let access_control = DefaultAccessControl::new(false, &logins);
    assert!(!access_control.allow_anonymous());
    assert_eq!(access_control.username_password_login().len(), 1);
    assert_eq!(access_control.username_password_login()[0].0, "user");
}

#[test]
fn method_argument_node_ids_start_null() {
    let ids = MethodNodeArgumentsNodeIds::init();
    assert!(ids.input.is_null());
    assert!(ids.output.is_null());
}

#[test]
fn node_builders() {
    let node: Node<ObjectAttributes, ()> = Node::new(
        NodeId::ns0(85),
        NodeId::ns0(35),
        QualifiedName::new(1, "Thing"),
        ObjectAttributes::init().with_display_name(&LocalizedText::new("en", "Thing")),
    )
    .with_requested_new_node_id(NodeId::numeric(1, 1000))
    .with_type_definition(NodeId::ns0(58));
    assert!(node.parent_node_id().equals(&NodeId::ns0(85)));
    assert!(node.reference_type_id().equals(&NodeId::ns0(35)));
    assert_eq!(node.browse_name().name, "Thing");
    assert!(node.type_definition().equals(&NodeId::ns0(58)));
    assert!(node.requested_new_node_id().expect("set").equals(&NodeId::numeric(1, 1000)));
    assert_eq!(node.attributes().node_class(), NodeClass::object());
    assert_eq!(node.attributes().display_name.as_ref().expect("set").text, "Thing");
    assert!(node.context.is_none());

    let init: Node<VariableAttributes, ()> = Node::init();
    assert!(init.parent_node_id().is_null());
    assert!(init.type_definition().is_null());
    assert!(init.requested_new_node_id().is_none());
    assert_eq!(init.attributes().node_class(), NodeClass::variable());
    assert_eq!(MethodAttributes::init().node_class(), NodeClass::method());
}

#[test]
fn variable_attributes_setters() {
    let attributes = VariableAttributes::init()
        .with_data_type(&NodeId::ns0(6))
        .with_value_rank(-1);
    assert!(attributes.data_type.as_ref().expect("set").equals(&NodeId::ns0(6)));
    assert_eq!(attributes.value_rank, -1);
}

#[test]
fn lifecycle_is_set_on_server_once() {
    let type_id = NodeId::numeric(1, 2000);
    let manager: LifecycleManager<'_, &str> = LifecycleManager::init();
    assert!(matches!(manager.node_context(), Err(Error::Internal(_))));
    let manager = LifecycleManager::init().with_lifecycle("ctx");
    assert!(matches!(manager.take_node_type_lifecycle(), Err(Error::Internal(_))));

    let manager = LifecycleManager::init().with_type_node(&type_id).with_lifecycle("ctx");
    let node: Node<ObjectAttributes, &str> =
        Node::new(NodeId::ns0(85), NodeId::ns0(35), QualifiedName::new(1, "N"), ObjectAttributes::init());
    let node = manager.node_with_lifecycle(node).expect("context given");
    assert_eq!(node.context, Some("ctx"));

    let (manager, id, _lifecycle) = manager.take_node_type_lifecycle().expect("first time");
    assert!(id.equals(&type_id));
    assert!(matches!(manager.take_node_type_lifecycle(), Err(Error::Internal(_))));
}

#[test]
fn lifecycle_needs_context_for_nodes() {
    let manager: LifecycleManager<'_, u8> = LifecycleManager::init();
    let node: Node<ObjectAttributes, u8> =
        Node::new(NodeId::ns0(85), NodeId::ns0(35), QualifiedName::new(1, "N"), ObjectAttributes::init());
    assert!(matches!(manager.node_with_lifecycle(node), Err(Error::Internal(_))));
}
