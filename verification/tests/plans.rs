use up_rust::UUID;
use up_transport_vsomeip::application_registry::ApplicationRegistry;
use up_transport_vsomeip::application_state_availability_handler_registry::InMemoryApplicationStateAvailabilityHandlerRegistry;
use up_transport_vsomeip::attributes::UAttributesValues;
use up_transport_vsomeip::determinations::RegistrationType;
use up_transport_vsomeip::listener_config_map::listener_config;
use up_transport_vsomeip::message_conversions::{UMessageParts, UMessageType, VsomeipOutbound};
use up_transport_vsomeip::message_handler_registry::InMemoryMessageHandlerRegistry;
use up_transport_vsomeip::rpc_correlation::InMemoryRpcCorrelationRegistry;
use up_transport_vsomeip::status::StatusCode;
use up_transport_vsomeip::transport::receive;
use up_transport_vsomeip::transport_engine::{event_loop, EngineStep, TransportCommand};
use up_transport_vsomeip::transport_plan::{
    plan_next, register_begin, register_listener_engine_step, send_begin, unregister_begin, unregister_finish,
    RegisterStart, TransportAction, UnregisterStart,
};
use up_transport_vsomeip::uri::Uri;
use up_transport_vsomeip::vsomeip_offered_requested::VsomeipOfferedRequestedRegistry;

fn uri(authority: &str, ue_id: u32, ue_version_major: u32, resource_id: u32) -> Uri {
    Uri { authority_name: authority.to_string(), ue_id, ue_version_major, resource_id }
}

fn request_attributes() -> UAttributesValues {
    let id = UUID::build();
    UAttributesValues {
        id: Some((id.msb, id.lsb)),
        type_code: 2,
        source: Some(uri("foo", 0x0010, 1, 0)),
        sink: Some(uri("bar", 0x0003_5678, 2, 0x0421)),
        priority: 5,
        ttl: Some(1000),
        commstatus: None,
        reqid: None,
    }
}

#[test]
fn sending_starts_the_app_registers_the_response_and_sends() {
    let mut apps = ApplicationRegistry::new();
    let (mut plan, first) = send_begin(&apps, &Some(9), &Some(request_attributes()));
    match first {
        TransportAction::StartApp { client_id, app_name } => {
            assert_eq!(client_id, 0x0010);
            assert_eq!(app_name, "16");
        }
        _ => panic!("expected the application to start first"),
    }
    match plan_next(&mut plan, &mut apps, Ok(())) {
        TransportAction::RegisterResponseListener(reg) => {
            assert_eq!(reg.source, uri("bar", 0x0003_5678, 2, 0x0421));
            assert_eq!(reg.sink, uri("foo", 0x0010, 1, 0));
            assert_eq!(reg.registration_type, RegistrationType::Response(0x0010));
            assert_eq!(reg.listener, 9);
        }
        _ => panic!("expected the response listener next"),
    }
    // the started application is recorded
    assert_eq!(apps.find_app_name(0x0010), Ok("16".to_string()));
    match plan_next(&mut plan, &mut apps, Ok(())) {
        TransportAction::Engine { app_name, command: TransportCommand::Send { message } } => {
            assert_eq!(app_name, "16");
            assert_eq!(message.message_type, UMessageType::Request);
        }
        _ => panic!("expected the message to go to the engine"),
    }
    assert!(matches!(plan_next(&mut plan, &mut apps, Ok(())), TransportAction::Done(Ok(()))));
}

#[test]
fn a_failed_start_ends_the_send_with_internal() {
    let mut apps = ApplicationRegistry::new();
    let (mut plan, first) = send_begin(&apps, &None, &Some(request_attributes()));
    assert!(matches!(first, TransportAction::StartApp { .. }));
    assert!(matches!(
        plan_next(&mut plan, &mut apps, Err(StatusCode::DEADLINE_EXCEEDED)),
        TransportAction::Done(Err(StatusCode::INTERNAL))
    ));
    assert_eq!(apps.find_app_name(0x0010), Err(StatusCode::NOT_FOUND));
    // a message without attributes is refused at once
    let (_, first) = send_begin(&apps, &None, &None);
    assert!(matches!(first, TransportAction::Done(Err(StatusCode::INVALID_ARGUMENT))));
}

#[test]
fn a_send_for_a_running_app_goes_to_the_engine_and_errors_pass_through() {
    let mut apps = ApplicationRegistry::new();
    apps.add_client_id_app_name(0x0010, &"app".to_string()).unwrap();
    let (mut plan, first) = send_begin(&apps, &None, &Some(request_attributes()));
    assert!(matches!(first, TransportAction::Engine { .. }));
    assert!(matches!(
        plan_next(&mut plan, &mut apps, Err(StatusCode::NOT_FOUND)),
        TransportAction::Done(Err(StatusCode::NOT_FOUND))
    ));
}

#[test]
fn registering_and_unregistering_a_listener() {
    let mut apps = ApplicationRegistry::new();
    let mut handlers: InMemoryMessageHandlerRegistry<u32> = InMemoryMessageHandlerRegistry::new(1);
    let source = uri("*", 0xFFFF, 0xFF, 0xFFFF);
    let sink = Some(uri("me", 0x0300, 1, 0x0421));
    let (mut plan, first, registration_type, app_name) = match register_begin(&apps, &source, &sink, 7) {
        RegisterStart::Planned { plan, first, registration_type, app_name } => (plan, first, registration_type, app_name),
        RegisterStart::PointToPoint => panic!("not the streamer case"),
    };
    assert_eq!(registration_type, RegistrationType::Request(0x0300));
    assert!(matches!(first, TransportAction::StartApp { client_id: 0x0300, .. }));
    assert!(matches!(plan_next(&mut plan, &mut apps, Ok(())), TransportAction::Done(Ok(()))));
    let cfg = listener_config(&source, &sink, 4);
    match register_listener_engine_step(&mut handlers, 1, cfg.clone(), source.clone(), sink.clone(), registration_type, app_name) {
        TransportAction::Engine { app_name, command: TransportCommand::RegisterListener { msg_handler, .. } } => {
            assert_eq!(app_name, "768");
            assert_eq!(msg_handler, 0);
        }
        _ => panic!("expected the registration to go to the engine"),
    }
    // no slot is left for a second listener
    let cfg2 = listener_config(&source, &sink, 5);
    assert!(matches!(
        register_listener_engine_step(&mut handlers, 1, cfg2, source.clone(), sink.clone(), registration_type, "768".to_string()),
        TransportAction::Done(Err(StatusCode::INTERNAL))
    ));
    match unregister_begin(&apps, &source, &sink, 7) {
        UnregisterStart::Engine(TransportAction::Engine { app_name, command: TransportCommand::UnregisterListener { .. } }) => {
            assert_eq!(app_name, "768");
        }
        _ => panic!("expected the unregistration to go to the engine"),
    }
    assert_eq!(unregister_finish(&mut handlers, cfg.clone(), Err(StatusCode::INTERNAL)), Err(StatusCode::INTERNAL));
    assert_eq!(unregister_finish(&mut handlers, cfg.clone(), Ok(())), Ok(()));
    assert_eq!(unregister_finish(&mut handlers, cfg, Ok(())), Err(StatusCode::NOT_FOUND));
    // an application that does not exist cannot unregister
    let other_sink = Some(uri("me", 0x0301, 1, 0x0421));
    assert!(matches!(unregister_begin(&apps, &source, &other_sink, 7), UnregisterStart::Fail(StatusCode::NOT_FOUND)));
    // the streamer use case goes to the point-to-point listener
    let streamer_sink = Some(uri("me", 0xFFFF, 0xFF, 0xFFFF));
    assert!(matches!(register_begin(&apps, &source, &streamer_sink, 7), RegisterStart::PointToPoint));
    assert!(matches!(unregister_begin(&apps, &source, &streamer_sink, 7), UnregisterStart::PointToPoint));
}

#[test]
fn the_engine_loop_gives_one_step_per_command_in_order() {
    let mut rpc = InMemoryRpcCorrelationRegistry::new();
    let mut offered = VsomeipOfferedRequestedRegistry::new();
    let mut handlers = InMemoryApplicationStateAvailabilityHandlerRegistry::new(1);
    let request = UMessageParts {
        message_type: UMessageType::Request,
        source: Some(uri("foo", 1, 1, 0)),
        sink: Some(uri("bar", 2, 1, 1)),
        id: Some(4),
        reqid: None,
        commstatus: None,
    };
    let commands = vec![
        (TransportCommand::StopVsomeipApp, None),
        (TransportCommand::StartVsomeipApp, None),
        (TransportCommand::Send { message: request }, Some(0x0005)),
        (TransportCommand::StopVsomeipApp, Some(0x0005)),
    ];
    let steps = event_loop(&mut rpc, &mut offered, &mut handlers, &commands);
    assert_eq!(steps.len(), 4);
    assert!(matches!(steps[0], EngineStep::Fail(StatusCode::INTERNAL)));
    assert!(matches!(steps[1], EngineStep::StartApp { state_handler_id: 0 }));
    match &steps[2] {
        EngineStep::Send(VsomeipOutbound::Request { request_id, .. }) => assert_eq!(*request_id, 0x0005_0001),
        _ => panic!("expected the request to be sent"),
    }
    assert!(matches!(steps[3], EngineStep::Stop));
}

#[test]
fn receiving_is_not_offered() {
    assert!(matches!(receive(&uri("foo", 1, 1, 0), &None), Err(StatusCode::UNIMPLEMENTED)));
}
