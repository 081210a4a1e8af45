use up_transport_vsomeip::application_registry::ApplicationRegistry;
use up_transport_vsomeip::application_state_availability_handler_registry::InMemoryApplicationStateAvailabilityHandlerRegistry;
use up_transport_vsomeip::listener_config_map::listener_config;
use up_transport_vsomeip::listener_registry::ListenerRegistry;
use up_transport_vsomeip::message_handler_registry::{
    GetMessageHandlerError, InMemoryMessageHandlerRegistry, ProcMacroMessageHandlerAccess,
};
use up_transport_vsomeip::rpc_correlation::InMemoryRpcCorrelationRegistry;
use up_transport_vsomeip::status::StatusCode;
use up_transport_vsomeip::transport_engine::{create_app_begin, create_app_end, AppStartOutcome};
use up_transport_vsomeip::uri::Uri;
use up_transport_vsomeip::vsomeip_offered_requested::VsomeipOfferedRequestedRegistry;

fn uri(authority: &str, ue_id: u32, ue_version_major: u32, resource_id: u32) -> Uri {
    Uri { authority_name: authority.to_string(), ue_id, ue_version_major, resource_id }
}

#[test]
fn session_ids_start_at_one_and_count_up_per_client() {
    let mut reg = InMemoryRpcCorrelationRegistry::new();
    assert_eq!(reg.retrieve_session_id(0x10), 1);
    assert_eq!(reg.retrieve_session_id(0x10), 2);
    assert_eq!(reg.retrieve_session_id(0x20), 1);
    assert_eq!(reg.retrieve_session_id(0x10), 3);
}

#[test]
fn ue_correlation_is_taken_out_once() {
    let mut reg = InMemoryRpcCorrelationRegistry::new();
    assert_eq!(reg.insert_ue_request_correlation(0x0010_0001, 77), Ok(()));
    assert_eq!(
        reg.insert_ue_request_correlation(0x0010_0001, 78),
        Err(StatusCode::ALREADY_EXISTS)
    );
    assert_eq!(reg.remove_ue_request_correlation(0x0010_0001), Ok(77));
    assert_eq!(reg.remove_ue_request_correlation(0x0010_0001), Err(StatusCode::NOT_FOUND));
}

#[test]
fn me_correlation_is_taken_out_once() {
    let mut reg = InMemoryRpcCorrelationRegistry::new();
    let req_id: u128 = (0x0190_0000_0000_7000u128 << 64) | 0x8000_0000_0000_0001u128;
    assert_eq!(reg.insert_me_request_correlation(req_id, 0x0042_0007), Ok(()));
    assert_eq!(
        reg.insert_me_request_correlation(req_id, 0x0042_0008),
        Err(StatusCode::ALREADY_EXISTS)
    );
    assert_eq!(reg.remove_me_request_correlation(req_id), Ok(0x0042_0007));
    assert_eq!(reg.remove_me_request_correlation(req_id), Err(StatusCode::NOT_FOUND));
}

#[test]
fn message_handler_get_and_release_round_trip() {
    let mut reg: InMemoryMessageHandlerRegistry<u32> = InMemoryMessageHandlerRegistry::new(2);
    let src = uri("foo", 0x1234, 1, 0x8001);
    let cfg = listener_config(&src, &None, 5);
    let id = reg.get_message_handler(900, cfg).unwrap();
    assert!(id < 2);
    assert_eq!(ProcMacroMessageHandlerAccess::get_message_handler_id_transport(&reg, id), Some(&900));
    assert_eq!(reg.get_listener_for_message_handler_id(id), Some(5));
    assert_eq!(reg.get_all_listener_configs().len(), 1);

    // the same configuration cannot be registered twice
    let again = reg.get_message_handler(901, listener_config(&src, &None, 5));
    assert!(matches!(again, Err(GetMessageHandlerError::ListenerConfigAlreadyExists(_))));
    assert_eq!(reg.get_all_listener_configs().len(), 1);

    assert_eq!(reg.release_message_handler(listener_config(&src, &None, 5)), Ok(()));
    assert_eq!(ProcMacroMessageHandlerAccess::get_message_handler_id_transport(&reg, id), None);
    assert_eq!(reg.get_listener_for_message_handler_id(id), None);
    assert!(reg.get_all_listener_configs().is_empty());
    assert_eq!(
        reg.release_message_handler(listener_config(&src, &None, 5)),
        Err(StatusCode::NOT_FOUND)
    );
}

#[test]
fn message_handlers_run_out() {
    let mut reg: InMemoryMessageHandlerRegistry<u32> = InMemoryMessageHandlerRegistry::new(1);
    let src = uri("foo", 0x1234, 1, 0x8001);
    let sink = uri("bar", 0x4321, 1, 0x0001);
    assert!(reg.get_message_handler(1, listener_config(&src, &None, 1)).is_ok());
    assert_eq!(
        reg.get_message_handler(2, listener_config(&src, &Some(sink), 1)),
        Err(GetMessageHandlerError::OtherError(StatusCode::RESOURCE_EXHAUSTED))
    );
}

#[test]
fn distinct_listeners_get_distinct_slots() {
    let mut reg: InMemoryMessageHandlerRegistry<u32> = InMemoryMessageHandlerRegistry::new(3);
    let src = uri("foo", 0x1234, 1, 0x8001);
    let a = reg.get_message_handler(1, listener_config(&src, &None, 1)).unwrap();
    let b = reg.get_message_handler(1, listener_config(&src, &None, 2)).unwrap();
    assert_ne!(a, b);
    assert_eq!(reg.get_listener_for_message_handler_id(a), Some(1));
    assert_eq!(reg.get_listener_for_message_handler_id(b), Some(2));
    assert_eq!(reg.get_all_listener_configs().len(), 2);
}

#[test]
fn state_handler_ids_are_taken_and_returned() {
    let mut reg = InMemoryApplicationStateAvailabilityHandlerRegistry::new(1);
    let id = reg.find_available_state_handler_id().unwrap();
    assert_eq!(id, 0);
    assert_eq!(reg.find_available_state_handler_id(), Err(StatusCode::RESOURCE_EXHAUSTED));
    assert_eq!(reg.free_state_handler_id(id), Ok(()));
    assert_eq!(reg.find_available_state_handler_id(), Ok(0));
}

#[test]
fn offered_and_requested_sets_are_separate() {
    let mut reg = VsomeipOfferedRequestedRegistry::new();
    assert!(!reg.is_service_offered(1, 2, 3));
    reg.insert_service_offered(1, 2, 3);
    assert!(reg.is_service_offered(1, 2, 3));
    assert!(!reg.is_service_offered(1, 3, 2));
    assert!(!reg.is_service_requested(1, 2, 3));
    assert!(!reg.is_event_offered(1, 2, 3));
    assert!(!reg.is_event_requested(1, 2, 3));
    reg.insert_event_requested(0xFFFF, 0xFFFF, 0xFFFF);
    assert!(reg.is_event_requested(0xFFFF, 0xFFFF, 0xFFFF));
    reg.insert_service_requested(7, 0xFFFF, 8);
    assert!(reg.is_service_requested(7, 0xFFFF, 8));
    reg.insert_event_offered(9, 1, 0x8001);
    assert!(reg.is_event_offered(9, 1, 0x8001));
}

#[test]
fn application_names_are_recorded_once_per_client() {
    let mut reg = ApplicationRegistry::new();
    assert_eq!(reg.find_app_name(0x10), Err(StatusCode::NOT_FOUND));
    assert_eq!(reg.add_client_id_app_name(0x10, &"16".to_string()), Ok(()));
    assert_eq!(reg.find_app_name(0x10), Ok("16".to_string()));
    assert_eq!(
        reg.add_client_id_app_name(0x10, &"other".to_string()),
        Err(StatusCode::ALREADY_EXISTS)
    );
    assert_eq!(reg.find_app_name(0x10), Ok("16".to_string()));
}

#[test]
fn listener_registered_in_full_is_released_in_full() {
    let mut reg = ListenerRegistry::new(2);
    let src = uri("foo", 0x1234, 1, 0x8001);
    let sink = uri("bar", 0x0300, 1, 0);
    let cfg = listener_config(&src, &Some(sink.clone()), 7);
    let id = reg.find_available_listener_id().unwrap();
    assert!(id < 2);
    assert!(reg.insert_into_listener_id_map(&"me".to_string(), &"bar".to_string(), cfg.clone(), id));
    assert_eq!(reg.register_listener_id_with_listener(id, 7), Ok(()));
    assert_eq!(reg.map_listener_id_to_client_id(0x0042, id), Ok(()));
    assert_eq!(reg.release_listener_id(&cfg), Ok(()));
    // everything is gone: a second release finds nothing
    assert_eq!(reg.release_listener_id(&cfg), Err(StatusCode::INTERNAL));
    // and the id is free again: two ids can be taken, a third cannot
    assert!(reg.find_available_listener_id().is_ok());
    assert!(reg.find_available_listener_id().is_ok());
    assert_eq!(reg.find_available_listener_id(), Err(StatusCode::RESOURCE_EXHAUSTED));
}

#[test]
fn listener_registry_reports_duplicates() {
    let mut reg = ListenerRegistry::new(1);
    let src = uri("foo", 0x1234, 1, 0x8001);
    let cfg = listener_config(&src, &None, 3);
    let id = reg.find_available_listener_id().unwrap();
    assert_eq!(id, 0);
    assert!(reg.insert_into_listener_id_map(&"me".to_string(), &"foo".to_string(), cfg.clone(), id));
    assert!(!reg.insert_into_listener_id_map(&"me".to_string(), &"foo".to_string(), cfg.clone(), id));
    assert_eq!(reg.register_listener_id_with_listener(id, 3), Ok(()));
    assert_eq!(reg.register_listener_id_with_listener(id, 3), Err(StatusCode::INTERNAL));
    assert_eq!(reg.map_listener_id_to_client_id(0x0042, id), Ok(()));
    assert_eq!(reg.map_listener_id_to_client_id(0x0043, id), Err(StatusCode::INTERNAL));
    assert_eq!(reg.free_listener_id(id), StatusCode::ALREADY_EXISTS);
}

#[test]
fn release_stops_at_first_missing_record() {
    let mut reg = ListenerRegistry::new(1);
    let src = uri("foo", 0x1234, 1, 0x8001);
    let cfg = listener_config(&src, &None, 3);
    let id = reg.find_available_listener_id().unwrap();
    assert!(reg.insert_into_listener_id_map(&"me".to_string(), &"foo".to_string(), cfg.clone(), id));
    // no listener was registered under the id
    assert_eq!(reg.release_listener_id(&cfg), Err(StatusCode::INTERNAL));
    // the configuration was removed before the missing listener stopped the release
    assert_eq!(reg.release_listener_id(&cfg), Err(StatusCode::INTERNAL));
    // the id did not go back to the free ids
    assert_eq!(reg.find_available_listener_id(), Err(StatusCode::RESOURCE_EXHAUSTED));
}

#[test]
fn creating_an_app_takes_and_returns_a_state_handler() {
    let mut reg = InMemoryApplicationStateAvailabilityHandlerRegistry::new(1);
    assert_eq!(create_app_begin(&mut reg, true), Err(StatusCode::ALREADY_EXISTS));
    let id = create_app_begin(&mut reg, false).unwrap();
    assert_eq!(id, 0);
    assert_eq!(create_app_begin(&mut reg, false), Err(StatusCode::RESOURCE_EXHAUSTED));
    assert_eq!(create_app_end(&mut reg, id, AppStartOutcome::Started), Ok(()));
    let id = create_app_begin(&mut reg, false).unwrap();
    assert_eq!(create_app_end(&mut reg, id, AppStartOutcome::TimedOut), Err(StatusCode::INTERNAL));
    // a start that timed out keeps its slot
    assert_eq!(create_app_begin(&mut reg, false), Err(StatusCode::RESOURCE_EXHAUSTED));
    assert_eq!(create_app_end(&mut reg, id, AppStartOutcome::NotCreated), Err(StatusCode::INTERNAL));
}

#[test]
fn a_client_id_gets_one_application() {
    let mut apps = ApplicationRegistry::new();
    assert_eq!(apps.check_new_app(0x42), Ok(()));
    assert_eq!(apps.add_client_id_app_name(0x42, &"66".to_string()), Ok(()));
    assert_eq!(apps.check_new_app(0x42), Err(StatusCode::ALREADY_EXISTS));
    assert_eq!(apps.check_new_app(0x43), Ok(()));
}

#[test]
fn recording_a_listener_takes_an_id_and_refuses_duplicates() {
    let mut reg = ListenerRegistry::new(2);
    let src = uri("foo", 0x1234, 1, 0x8001);
    let cfg = listener_config(&src, &None, 3);
    let id = reg.record_listener(&"me".to_string(), &"foo".to_string(), cfg.clone(), 3).unwrap();
    assert!(id < 2);
    // the same configuration again: the second id goes back, nothing changes, and the answer
    // is ALREADY_EXISTS
    assert_eq!(
        reg.record_listener(&"me".to_string(), &"foo".to_string(), cfg.clone(), 3),
        Err(StatusCode::ALREADY_EXISTS)
    );
    assert!(reg.find_available_listener_id().is_ok());
    assert_eq!(reg.find_available_listener_id(), Err(StatusCode::RESOURCE_EXHAUSTED));
    let other = listener_config(&uri("foo", 0x1234, 1, 0x8002), &None, 4);
    assert_eq!(
        reg.record_listener(&"me".to_string(), &"foo".to_string(), other, 4),
        Err(StatusCode::RESOURCE_EXHAUSTED)
    );
    // the refused second recording changed nothing: the listener is released in full
    assert_eq!(reg.map_listener_id_to_client_id(0x10, id), Ok(()));
    assert_eq!(reg.release_listener_id(&cfg), Ok(()));
}
