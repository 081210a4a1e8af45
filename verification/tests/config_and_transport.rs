use up_transport_vsomeip::determinations::RegistrationType;
use up_transport_vsomeip::message_conversions::UMessageType;
use up_transport_vsomeip::status::StatusCode;
use up_transport_vsomeip::transport::{
    app_initialization_result, app_name_for_client_id, check_send, initialize_vsomeip_app_as_needed,
    register_for_returning_response_if_point_to_point_listener_and_sending_request,
    register_listener_start, register_point_to_point_listener, send_start, unregister_point_to_point_listener,
    AppInitialization, ListenerRegistration,
};
use up_transport_vsomeip::application_registry::ApplicationRegistry;
use up_transport_vsomeip::attributes::UAttributesValues;
use up_transport_vsomeip::uri::{any_uuri, Uri};
use up_transport_vsomeip::vsomeip_config::{
    deserialize_hex_u16, worker_thread_count, HexParseError, RuntimeConfig, ServiceConfig,
    VsomeipApplicationConfig, DEFAULT_NUM_THREADS,
};

fn uri(authority: &str, ue_id: u32, ue_version_major: u32, resource_id: u32) -> Uri {
    Uri { authority_name: authority.to_string(), ue_id, ue_version_major, resource_id }
}

#[test]
fn test_deserialize_hex_u16() {
    let json = r#"{"value": "0x1A3F"}"#;
    let parsed: serde_json::Value = serde_json::from_str(json).unwrap();
    let text = parsed["value"].as_str().unwrap();
    let deserialized = deserialize_hex_u16(text);
    assert!(deserialized.is_ok());
    assert_eq!(deserialized.unwrap(), 0x1A3F);
}

#[test]
fn hex_ids_follow_from_str_radix() {
    assert_eq!(deserialize_hex_u16("0xABCD"), Ok(0xABCD));
    assert_eq!(deserialize_hex_u16("1234"), Ok(0x1234));
    assert_eq!(deserialize_hex_u16("0x0x12"), Ok(0x12));
    assert_eq!(deserialize_hex_u16("+ff"), Ok(0xFF));
    assert_eq!(deserialize_hex_u16("0xffff"), Ok(0xFFFF));
    assert_eq!(deserialize_hex_u16("0x"), Err(HexParseError::Empty));
    assert_eq!(deserialize_hex_u16(""), Err(HexParseError::Empty));
    assert_eq!(deserialize_hex_u16("+"), Err(HexParseError::InvalidDigit));
    assert_eq!(deserialize_hex_u16("0X12"), Err(HexParseError::InvalidDigit));
    assert_eq!(deserialize_hex_u16("-1"), Err(HexParseError::InvalidDigit));
    assert_eq!(deserialize_hex_u16("0x10000"), Err(HexParseError::PosOverflow));
    assert_eq!(deserialize_hex_u16("1g"), Err(HexParseError::InvalidDigit));
}

#[test]
fn hex_ids_agree_with_std_on_samples() {
    for s in ["0", "1", "fF", "0x7fff", "abcd", "ABCDE", "12 ", " 12", "0x0x0xA", "+", "-", "0x+1", "++1"] {
        let trimmed = s.trim_start_matches("0x");
        let std_result = u16::from_str_radix(trimmed, 16).ok();
        assert_eq!(deserialize_hex_u16(s).ok(), std_result, "input {s:?}");
    }
}

#[test]
fn application_config_holds_name_and_id() {
    let config = VsomeipApplicationConfig::new("TestApp", 0x1234);
    assert_eq!(config.name, "TestApp");
    assert_eq!(config.id, 0x1234);
    let service = ServiceConfig { service: 0xABCD, instance: 0x1234 };
    assert_eq!(service.service, 0xABCD);
    assert_eq!(service.instance, 0x1234);
}

#[test]
fn runtime_threads_default_to_ten() {
    assert_eq!(worker_thread_count(None), DEFAULT_NUM_THREADS);
    assert_eq!(DEFAULT_NUM_THREADS, 10);
    assert_eq!(worker_thread_count(Some(RuntimeConfig { num_threads: 3 })), 3);
}

#[test]
fn applications_are_named_by_their_decimal_client_id() {
    assert_eq!(app_name_for_client_id(0), "0");
    assert_eq!(app_name_for_client_id(7), "7");
    assert_eq!(app_name_for_client_id(10), "10");
    assert_eq!(app_name_for_client_id(0x1234), "4660");
    assert_eq!(app_name_for_client_id(0xFFFF), "65535");
}

#[test]
fn app_is_started_only_when_missing() {
    match initialize_vsomeip_app_as_needed(&RegistrationType::Request(42), Ok("existing".to_string())) {
        AppInitialization::Existing(name) => assert_eq!(name, "existing"),
        _ => panic!("expected the existing application"),
    }
    match initialize_vsomeip_app_as_needed(&RegistrationType::Publish(42), Err(StatusCode::NOT_FOUND)) {
        AppInitialization::Start { client_id, app_name } => {
            assert_eq!(client_id, 42);
            assert_eq!(app_name, "42");
        }
        _ => panic!("expected a start"),
    }
    assert_eq!(app_initialization_result("42".to_string(), Ok(())), Ok("42".to_string()));
    assert_eq!(
        app_initialization_result("42".to_string(), Err(StatusCode::DEADLINE_EXCEEDED)),
        Err(StatusCode::INTERNAL)
    );
}

#[test]
fn messages_are_checked_before_sending() {
    let src = Some(uri("foo", 0x1234, 1, 0x8001));
    let sink = Some(uri("bar", 0x4321, 1, 0x0001));
    assert_eq!(check_send(false, Some(UMessageType::Publish), true, &src, &None), Err(StatusCode::INVALID_ARGUMENT));
    assert_eq!(check_send(true, None, true, &src, &None), Err(StatusCode::INTERNAL));
    assert_eq!(check_send(true, Some(UMessageType::Notification), true, &src, &None), Err(StatusCode::UNIMPLEMENTED));
    assert_eq!(check_send(true, Some(UMessageType::Unspecified), true, &src, &None), Err(StatusCode::INVALID_ARGUMENT));
    assert_eq!(check_send(true, Some(UMessageType::Request), false, &src, &sink), Err(StatusCode::INVALID_ARGUMENT));
    assert_eq!(check_send(true, Some(UMessageType::Publish), true, &None, &None), Err(StatusCode::INVALID_ARGUMENT));
    assert_eq!(
        check_send(true, Some(UMessageType::Publish), true, &Some(any_uuri()), &None),
        Err(StatusCode::INVALID_ARGUMENT)
    );
    assert_eq!(
        check_send(true, Some(UMessageType::Request), true, &src, &Some(uri("*", 1, 1, 1))),
        Err(StatusCode::INVALID_ARGUMENT)
    );
    assert_eq!(check_send(true, Some(UMessageType::Publish), true, &src, &None), Ok(RegistrationType::Publish(0x1234)));
    assert_eq!(check_send(true, Some(UMessageType::Request), true, &src, &sink), Ok(RegistrationType::Request(0x1234)));
}

#[test]
fn point_to_point_listener_is_registered_once_per_application() {
    let apps = vec![VsomeipApplicationConfig::new("a", 0x10), VsomeipApplicationConfig::new("b", 0x20)];
    let mut p2p = None;
    let authority = "me".to_string();
    assert_eq!(
        register_point_to_point_listener(&authority, false, &mut p2p, 7, &apps).err(),
        Some(StatusCode::NOT_FOUND)
    );
    assert_eq!(p2p, None);
    let regs = register_point_to_point_listener(&authority, true, &mut p2p, 7, &apps).unwrap();
    assert_eq!(p2p, Some(7));
    assert_eq!(regs.len(), 2);
    assert_eq!(regs[1].client_id, 0x20);
    assert_eq!(regs[1].app_name, "b");
    assert_eq!(regs[1].source, any_uuri());
    assert_eq!(regs[1].sink, uri("me", 0x20, 0xFF, 0xFFFF));
    assert_eq!(regs[1].registration_type, RegistrationType::Request(0x20));
    assert_eq!(
        register_point_to_point_listener(&authority, true, &mut p2p, 8, &apps).err(),
        Some(StatusCode::ALREADY_EXISTS)
    );
    assert_eq!(p2p, Some(7));

    assert_eq!(unregister_point_to_point_listener(&authority, true, &p2p, 8, &apps).err(), Some(StatusCode::INVALID_ARGUMENT));
    assert_eq!(unregister_point_to_point_listener(&authority, true, &None, 7, &apps).err(), Some(StatusCode::ALREADY_EXISTS));
    assert_eq!(unregister_point_to_point_listener(&authority, false, &p2p, 7, &apps).err(), Some(StatusCode::NOT_FOUND));
    let pairs = unregister_point_to_point_listener(&authority, true, &p2p, 7, &apps).unwrap();
    assert_eq!(pairs, vec![(any_uuri(), uri("me", 0x10, 0xFF, 0xFFFF)), (any_uuri(), uri("me", 0x20, 0xFF, 0xFFFF))]);
}

#[test]
fn response_listener_follows_requests_when_point_to_point() {
    let src = Some(uri("foo", 0x10, 1, 0));
    let sink = Some(uri("bar", 0x20, 1, 0x0421));
    assert!(matches!(
        register_for_returning_response_if_point_to_point_listener_and_sending_request(&None, RegistrationType::Request(0x10), &src, &sink),
        Ok(None)
    ));
    assert!(matches!(
        register_for_returning_response_if_point_to_point_listener_and_sending_request(&Some(3), RegistrationType::Publish(0x10), &src, &None),
        Ok(None)
    ));
    assert!(matches!(
        register_for_returning_response_if_point_to_point_listener_and_sending_request(&Some(3), RegistrationType::Request(0x10), &src, &None),
        Err(StatusCode::INVALID_ARGUMENT)
    ));
    let reg = register_for_returning_response_if_point_to_point_listener_and_sending_request(&Some(3), RegistrationType::Request(0x10), &src, &sink)
        .unwrap()
        .unwrap();
    assert_eq!(reg.source, sink.unwrap());
    assert_eq!(reg.sink, src.unwrap());
    assert_eq!(reg.registration_type, RegistrationType::Response(0x10));
    assert_eq!(reg.listener, 3);
}

#[test]
fn listener_registrations_go_to_their_application() {
    let mut apps = ApplicationRegistry::new();
    apps.add_client_id_app_name(0x0300, &"svc".to_string()).unwrap();
    // a request listener on a sink of uEntity 0x0300: served by the known application
    let r = register_listener_start(&apps, &uri("*", 0xFFFF, 0xFF, 0xFFFF), &Some(uri("me", 0x0300, 1, 0x0421)), 7);
    match r {
        ListenerRegistration::Served { registration_type, app: AppInitialization::Existing(name) } => {
            assert_eq!(registration_type, RegistrationType::Request(0x0300));
            assert_eq!(name, "svc");
        }
        _ => panic!("expected the known application"),
    }
    // a publish listener: served by the transport's own uEntity, whose application starts first
    let r = register_listener_start(&apps, &uri("bar", 0x1234, 1, 0x8001), &None, 0x0042);
    match r {
        ListenerRegistration::Served { registration_type, app: AppInitialization::Start { client_id, app_name } } => {
            assert_eq!(registration_type, RegistrationType::Publish(0x0042));
            assert_eq!(client_id, 0x0042);
            assert_eq!(app_name, "66");
        }
        _ => panic!("expected an application to start"),
    }
    // the streamer use case goes to the point-to-point listener
    let r = register_listener_start(&apps, &any_uuri(), &Some(uri("me", 0xFFFF, 0xFF, 0xFFFF)), 7);
    assert!(matches!(r, ListenerRegistration::PointToPoint));
}

#[test]
fn sending_starts_the_application_of_the_source() {
    let apps = ApplicationRegistry::new();
    let id = up_rust::UUID::build();
    let attributes = UAttributesValues {
        id: Some((id.msb, id.lsb)),
        type_code: 1,
        source: Some(uri("foo", 0x0002_0105, 1, 0x8001)),
        sink: None,
        priority: 0,
        ttl: None,
        commstatus: None,
        reqid: None,
    };
    match send_start(&apps, &Some(attributes)) {
        Ok((RegistrationType::Publish(0x0105), AppInitialization::Start { client_id: 0x0105, app_name })) => {
            assert_eq!(app_name, "261");
        }
        other => panic!("unexpected: {:?}", other.is_ok()),
    }
    assert!(matches!(send_start(&apps, &None), Err(StatusCode::INVALID_ARGUMENT)));
}
