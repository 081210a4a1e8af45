use up_transport_vsomeip::determinations::RegistrationType;
use up_transport_vsomeip::message_conversions::{
    convert_umsg_to_vsomeip_msg_and_send, convert_vsomeip_header, InboundKind, MessageTypeE, ReturnCode,
    UMessageParts, UMessageType, VsomeipHeader, VsomeipOutbound,
};
use up_transport_vsomeip::application_state_availability_handler_registry::InMemoryApplicationStateAvailabilityHandlerRegistry;
use up_transport_vsomeip::rpc_correlation::InMemoryRpcCorrelationRegistry;
use up_transport_vsomeip::status::StatusCode;
use up_transport_vsomeip::transport_engine::{
    await_engine_result, event_loop_step, register_listener_internal, send_internal,
    unregister_listener_internal, TransportCommand, EngineReply, EngineStep, VsomeipAction,
};
use up_transport_vsomeip::uri::Uri;
use up_transport_vsomeip::vsomeip_offered_requested::VsomeipOfferedRequestedRegistry;

fn uri(authority: &str, ue_id: u32, ue_version_major: u32, resource_id: u32) -> Uri {
    Uri { authority_name: authority.to_string(), ue_id, ue_version_major, resource_id }
}

fn parts(message_type: UMessageType, source: Option<Uri>, sink: Option<Uri>) -> UMessageParts {
    UMessageParts { message_type, source, sink, id: None, reqid: None, commstatus: None }
}

fn header(message_type: MessageTypeE, request_id: u32) -> VsomeipHeader {
    VsomeipHeader {
        message_type,
        request_id,
        service_id: 0x1234,
        instance_id: 1,
        method_id: 0x0421,
        client_id: (request_id >> 16) as u16,
        session_id: (request_id & 0xFFFF) as u16,
        interface_version: 2,
    }
}

#[test]
fn publish_offers_its_event_only_the_first_time() {
    let mut rpc = InMemoryRpcCorrelationRegistry::new();
    let mut offered = VsomeipOfferedRequestedRegistry::new();
    let m = parts(UMessageType::Publish, Some(uri("foo", 0x0002_1234, 0x0103, 0x8001)), None);
    let first = convert_umsg_to_vsomeip_msg_and_send(&mut rpc, &mut offered, &m, 0x10).unwrap();
    assert_eq!(
        first,
        VsomeipOutbound::Notify {
            service_id: 0x1234,
            instance_id: 1,
            event_id: 0x8001,
            interface_version: 3,
            offer_event_first: true
        }
    );
    let second = convert_umsg_to_vsomeip_msg_and_send(&mut rpc, &mut offered, &m, 0x10).unwrap();
    assert!(matches!(second, VsomeipOutbound::Notify { offer_event_first: false, .. }));
    assert!(offered.is_event_offered(0x1234, 1, 0x8001));
}

#[test]
fn message_without_source_is_refused() {
    let mut rpc = InMemoryRpcCorrelationRegistry::new();
    let mut offered = VsomeipOfferedRequestedRegistry::new();
    let m = parts(UMessageType::Publish, None, None);
    assert_eq!(
        convert_umsg_to_vsomeip_msg_and_send(&mut rpc, &mut offered, &m, 1),
        Err(StatusCode::INVALID_ARGUMENT)
    );
}

#[test]
fn request_and_response_correlate_across_the_round_trip() {
    let mut rpc = InMemoryRpcCorrelationRegistry::new();
    let mut offered = VsomeipOfferedRequestedRegistry::new();
    let mut request = parts(
        UMessageType::Request,
        Some(uri("foo", 0x0010, 1, 0)),
        Some(uri("bar", 0x0003_5678, 0x02, 0x0421)),
    );
    request.id = Some(0xABCD);
    let out = convert_umsg_to_vsomeip_msg_and_send(&mut rpc, &mut offered, &request, 0x0042).unwrap();
    assert_eq!(
        out,
        VsomeipOutbound::Request {
            service_id: 0x5678,
            instance_id: 1,
            method_id: 0x0421,
            interface_version: 2,
            request_id: 0x0042_0001
        }
    );
    // the response comes back for the same SOME/IP request id
    let inbound = convert_vsomeip_header(
        &mut rpc,
        &"foo".to_string(),
        &"remote".to_string(),
        &header(MessageTypeE::MT_RESPONSE, 0x0042_0001),
    )
    .unwrap();
    assert_eq!(inbound.kind, InboundKind::Response { reqid: 0xABCD, commstatus: StatusCode::OK });
    assert_eq!(inbound.sink, Some(uri("foo", 0x0042, 1, 0)));
    assert_eq!(inbound.source, uri("remote", 0x1234, 2, 0x0421));
    // and only once
    let again = convert_vsomeip_header(
        &mut rpc,
        &"foo".to_string(),
        &"remote".to_string(),
        &header(MessageTypeE::MT_RESPONSE, 0x0042_0001),
    );
    assert!(matches!(again, Err(StatusCode::NOT_FOUND)));
}

#[test]
fn error_response_carries_internal_status() {
    let mut rpc = InMemoryRpcCorrelationRegistry::new();
    rpc.insert_ue_request_correlation(0x0001_0002, 9).unwrap();
    let inbound = convert_vsomeip_header(
        &mut rpc,
        &"foo".to_string(),
        &"remote".to_string(),
        &header(MessageTypeE::MT_ERROR, 0x0001_0002),
    )
    .unwrap();
    assert_eq!(inbound.kind, InboundKind::Response { reqid: 9, commstatus: StatusCode::INTERNAL });
}

#[test]
fn request_without_sink_or_id_is_refused() {
    let mut rpc = InMemoryRpcCorrelationRegistry::new();
    let mut offered = VsomeipOfferedRequestedRegistry::new();
    let no_sink = parts(UMessageType::Request, Some(uri("foo", 1, 1, 0)), None);
    assert_eq!(
        convert_umsg_to_vsomeip_msg_and_send(&mut rpc, &mut offered, &no_sink, 1),
        Err(StatusCode::INVALID_ARGUMENT)
    );
    let no_id = parts(UMessageType::Request, Some(uri("foo", 1, 1, 0)), Some(uri("bar", 2, 1, 1)));
    assert_eq!(
        convert_umsg_to_vsomeip_msg_and_send(&mut rpc, &mut offered, &no_id, 1),
        Err(StatusCode::INVALID_ARGUMENT)
    );
    // no session id was taken by the refused requests
    assert_eq!(rpc.retrieve_session_id(1), 1);
}

#[test]
fn incoming_request_is_answered_to_its_client_and_session() {
    let mut rpc = InMemoryRpcCorrelationRegistry::new();
    let mut offered = VsomeipOfferedRequestedRegistry::new();
    let inbound = convert_vsomeip_header(
        &mut rpc,
        &"me".to_string(),
        &"remote".to_string(),
        &header(MessageTypeE::MT_REQUEST, 0x0077_0005),
    )
    .unwrap();
    assert_eq!(inbound.kind, InboundKind::Request { ttl: 1000 });
    assert_eq!(inbound.sink, Some(uri("me", 0x1234, 2, 0x0421)));
    assert_eq!(inbound.source, uri("remote", 0x0077, 1, 0));
    // the caller remembers the id the built message got
    rpc.insert_me_request_correlation(555, 0x0077_0005).unwrap();

    let mut response = parts(UMessageType::Response, Some(uri("me", 0x1234, 2, 0x0421)), Some(uri("remote", 0x77, 1, 0)));
    response.reqid = Some(555);
    response.commstatus = Some(0);
    let out = convert_umsg_to_vsomeip_msg_and_send(&mut rpc, &mut offered, &response, 1).unwrap();
    assert_eq!(
        out,
        VsomeipOutbound::Response {
            service_id: 0x1234,
            instance_id: 1,
            method_id: 0x0421,
            interface_version: 2,
            client_id: 0x0077,
            session_id: 0x0005,
            return_code: ReturnCode::E_OK,
            message_type: MessageTypeE::MT_RESPONSE
        }
    );
    let mut failed = parts(UMessageType::Response, Some(uri("me", 0x1234, 2, 0x0421)), None);
    failed.reqid = Some(555);
    assert_eq!(
        convert_umsg_to_vsomeip_msg_and_send(&mut rpc, &mut offered, &failed, 1),
        Err(StatusCode::NOT_FOUND)
    );
}

#[test]
fn failed_response_is_sent_as_error() {
    let mut rpc = InMemoryRpcCorrelationRegistry::new();
    let mut offered = VsomeipOfferedRequestedRegistry::new();
    rpc.insert_me_request_correlation(1, 0x0002_0003).unwrap();
    let mut response = parts(UMessageType::Response, Some(uri("me", 0x10, 1, 0x20)), None);
    response.reqid = Some(1);
    response.commstatus = Some(13);
    let out = convert_umsg_to_vsomeip_msg_and_send(&mut rpc, &mut offered, &response, 1).unwrap();
    assert!(matches!(
        out,
        VsomeipOutbound::Response { return_code: ReturnCode::E_NOT_OK, message_type: MessageTypeE::MT_ERROR, .. }
    ));
}

#[test]
fn notification_and_unknown_types() {
    let mut rpc = InMemoryRpcCorrelationRegistry::new();
    let inbound = convert_vsomeip_header(
        &mut rpc,
        &"me".to_string(),
        &"remote".to_string(),
        &header(MessageTypeE::MT_NOTIFICATION, 0),
    )
    .unwrap();
    assert_eq!(inbound.kind, InboundKind::Publish);
    assert_eq!(inbound.sink, None);
    assert_eq!(inbound.source, uri("remote", 0x1234, 1, 0x0421));
    let unknown = convert_vsomeip_header(
        &mut rpc,
        &"me".to_string(),
        &"remote".to_string(),
        &header(MessageTypeE::MT_REQUEST_ACK, 0),
    );
    assert!(matches!(unknown, Err(StatusCode::OUT_OF_RANGE)));
}

#[test]
fn send_internal_refuses_unspecified_and_notification() {
    let mut rpc = InMemoryRpcCorrelationRegistry::new();
    let mut offered = VsomeipOfferedRequestedRegistry::new();
    let src = Some(uri("foo", 1, 1, 0x8001));
    for t in [UMessageType::Unspecified, UMessageType::Notification] {
        assert_eq!(
            send_internal(&parts(t, src.clone(), None), &mut rpc, &mut offered, 1),
            Err(StatusCode::INVALID_ARGUMENT)
        );
    }
}

#[test]
fn register_publish_listener_subscribes_once() {
    let mut offered = VsomeipOfferedRequestedRegistry::new();
    let src = uri("remote", 0x0001_1234, 1, 0x8001);
    let first = register_listener_internal(&mut offered, &src, &None, RegistrationType::Publish(1), 3).unwrap();
    assert_eq!(
        first,
        vec![
            VsomeipAction::RequestService { service_id: 0x1234, instance_id: 1, major: 0xFF, minor: 0xFFFF_FFFF },
            VsomeipAction::RequestEvent { service_id: 0x1234, instance_id: 1, event_id: 0x8001 },
            VsomeipAction::Subscribe { service_id: 0x1234, instance_id: 1, major: 0xFF, event_id: 0x8001 },
            VsomeipAction::RegisterMessageHandler { service_id: 0x1234, instance_id: 1, method_id: 0x8001, message_handler_id: 3 },
        ]
    );
    let second = register_listener_internal(&mut offered, &src, &None, RegistrationType::Publish(1), 4).unwrap();
    assert_eq!(
        second,
        vec![VsomeipAction::RegisterMessageHandler { service_id: 0x1234, instance_id: 1, method_id: 0x8001, message_handler_id: 4 }]
    );
}

#[test]
fn register_request_listener_offers_the_sink_service() {
    let mut offered = VsomeipOfferedRequestedRegistry::new();
    let src = uri("*", 0xFFFF, 0xFF, 0xFFFF);
    let sink = uri("me", 0x5678, 0x03, 0x0421);
    let actions = register_listener_internal(&mut offered, &src, &Some(sink.clone()), RegistrationType::Request(0x5678), 9).unwrap();
    assert_eq!(
        actions,
        vec![
            VsomeipAction::OfferService { service_id: 0x5678, instance_id: 1, major: 3, minor: 0 },
            VsomeipAction::RegisterMessageHandler { service_id: 0x5678, instance_id: 0xFFFF, method_id: 0x0421, message_handler_id: 9 },
        ]
    );
    assert_eq!(
        unregister_listener_internal(&src, &Some(sink), RegistrationType::Request(0x5678)),
        Ok(VsomeipAction::UnregisterMessageHandler { service_id: 0x5678, instance_id: 0xFFFF, method_id: 0x0421 })
    );
    assert_eq!(
        register_listener_internal(&mut offered, &src, &None, RegistrationType::Request(1), 9),
        Err(StatusCode::INVALID_ARGUMENT)
    );
    assert_eq!(
        register_listener_internal(&mut offered, &src, &None, RegistrationType::AllPointToPoint(0xFFFF), 9),
        Err(StatusCode::INTERNAL)
    );
}

#[test]
fn register_response_listener_requests_the_source_service() {
    let mut offered = VsomeipOfferedRequestedRegistry::new();
    let src = uri("remote", 0x4444, 1, 0x0010);
    let sink = uri("me", 0x0042, 1, 0);
    let actions = register_listener_internal(&mut offered, &src, &Some(sink.clone()), RegistrationType::Response(0x42), 2).unwrap();
    assert_eq!(
        actions,
        vec![
            VsomeipAction::RequestService { service_id: 0x4444, instance_id: 0xFFFF, major: 0xFF, minor: 0xFFFF_FFFF },
            VsomeipAction::RegisterMessageHandler { service_id: 0x4444, instance_id: 0xFFFF, method_id: 0x0010, message_handler_id: 2 },
        ]
    );
    assert_eq!(
        unregister_listener_internal(&src, &None, RegistrationType::Response(0x42)),
        Err(StatusCode::INVALID_ARGUMENT)
    );
    assert_eq!(
        unregister_listener_internal(&src, &None, RegistrationType::Publish(0x42)),
        Ok(VsomeipAction::UnregisterMessageHandler { service_id: 0x4444, instance_id: 0xFFFF, method_id: 0x0010 })
    );
}

#[test]
fn engine_step_without_application_fails_internally() {
    let mut rpc = InMemoryRpcCorrelationRegistry::new();
    let mut offered = VsomeipOfferedRequestedRegistry::new();
    let mut handlers = InMemoryApplicationStateAvailabilityHandlerRegistry::new(1);
    let cmd = TransportCommand::StopVsomeipApp;
    assert!(matches!(
        event_loop_step(&mut rpc, &mut offered, &mut handlers, &cmd, None),
        EngineStep::Fail(StatusCode::INTERNAL)
    ));
    assert!(matches!(event_loop_step(&mut rpc, &mut offered, &mut handlers, &cmd, Some(3)), EngineStep::Stop));
    let mut m = parts(UMessageType::Request, Some(uri("foo", 1, 1, 0)), Some(uri("bar", 2, 1, 1)));
    m.id = Some(4);
    let send = TransportCommand::Send { message: m };
    match event_loop_step(&mut rpc, &mut offered, &mut handlers, &send, Some(0x0005)) {
        EngineStep::Send(VsomeipOutbound::Request { request_id, .. }) => assert_eq!(request_id, 0x0005_0001),
        _ => panic!("expected a request to send"),
    }
}

#[test]
fn engine_starts_only_missing_applications() {
    let mut rpc = InMemoryRpcCorrelationRegistry::new();
    let mut offered = VsomeipOfferedRequestedRegistry::new();
    let mut handlers = InMemoryApplicationStateAvailabilityHandlerRegistry::new(1);
    let start = TransportCommand::StartVsomeipApp;
    assert!(matches!(
        event_loop_step(&mut rpc, &mut offered, &mut handlers, &start, Some(3)),
        EngineStep::Fail(StatusCode::ALREADY_EXISTS)
    ));
    assert!(matches!(
        event_loop_step(&mut rpc, &mut offered, &mut handlers, &start, None),
        EngineStep::StartApp { state_handler_id: 0 }
    ));
    // the one state handler slot is taken until the start is finished
    assert!(matches!(
        event_loop_step(&mut rpc, &mut offered, &mut handlers, &start, None),
        EngineStep::Fail(StatusCode::RESOURCE_EXHAUSTED)
    ));
}

#[test]
fn engine_reply_outcomes() {
    assert_eq!(await_engine_result(EngineReply::Received(Ok(()))), Ok(()));
    assert_eq!(
        await_engine_result(EngineReply::Received(Err(StatusCode::NOT_FOUND))),
        Err(StatusCode::NOT_FOUND)
    );
    assert_eq!(await_engine_result(EngineReply::ChannelClosed), Err(StatusCode::INTERNAL));
    assert_eq!(await_engine_result(EngineReply::TimedOut), Err(StatusCode::DEADLINE_EXCEEDED));
}
