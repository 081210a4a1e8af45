use up_rust::{UCode, UMessageType, UPriority, UUID};
use up_transport_vsomeip::attributes::{send_checks, umessage_parts, UAttributesValues};
use up_transport_vsomeip::determinations::RegistrationType;
use up_transport_vsomeip::message_conversions::{
    convert_umsg_to_vsomeip_msg_and_send, MessageTypeE, ReturnCode, UMessageType as CoreMessageType, VsomeipHeader,
    VsomeipOutbound,
};
use up_transport_vsomeip::rpc_correlation::InMemoryRpcCorrelationRegistry;
use up_transport_vsomeip::status::StatusCode;
use up_transport_vsomeip::umessage::{convert_vsomeip_msg_to_umsg, correlate_inbound_request, split_req_id};
use up_transport_vsomeip::uri::Uri;
use up_transport_vsomeip::vsomeip_offered_requested::VsomeipOfferedRequestedRegistry;

fn uri(authority: &str, ue_id: u32, ue_version_major: u32, resource_id: u32) -> Uri {
    Uri { authority_name: authority.to_string(), ue_id, ue_version_major, resource_id }
}

fn header(message_type: MessageTypeE, request_id: u32, method_id: u16) -> VsomeipHeader {
    VsomeipHeader {
        message_type,
        request_id,
        service_id: 0x1234,
        instance_id: 1,
        method_id,
        client_id: (request_id >> 16) as u16,
        session_id: (request_id & 0xFFFF) as u16,
        interface_version: 2,
    }
}

fn number_of(id: &UUID) -> u128 {
    ((id.msb as u128) << 64) | (id.lsb as u128)
}

fn values(type_code: i32, source: Option<Uri>, sink: Option<Uri>) -> UAttributesValues {
    let id = UUID::build();
    UAttributesValues {
        id: Some((id.msb, id.lsb)),
        type_code,
        source,
        sink,
        priority: 0,
        ttl: None,
        commstatus: None,
        reqid: None,
    }
}

#[test]
fn incoming_request_becomes_a_request_message_and_is_remembered() {
    let mut rpc = InMemoryRpcCorrelationRegistry::new();
    let mut offered = VsomeipOfferedRequestedRegistry::new();
    let message = convert_vsomeip_msg_to_umsg(
        &mut rpc,
        &"me".to_string(),
        &"remote".to_string(),
        &header(MessageTypeE::MT_REQUEST, 0x0077_0005, 0x0421),
        vec![1, 2, 3],
    )
    .unwrap()
    .message;
    assert_eq!(message.type_unchecked(), UMessageType::UMESSAGE_TYPE_REQUEST);
    assert_eq!(message.sink_unchecked().authority_name, "me");
    assert_eq!(message.sink_unchecked().ue_id, 0x1234);
    assert_eq!(message.sink_unchecked().ue_version_major, 2);
    assert_eq!(message.sink_unchecked().resource_id, 0x0421);
    assert_eq!(message.source_unchecked().authority_name, "remote");
    assert_eq!(message.source_unchecked().ue_id, 0x0077);
    assert_eq!(message.source_unchecked().resource_id, 0);
    assert_eq!(message.ttl_unchecked(), 1000);
    assert_eq!(message.priority_unchecked(), UPriority::UPRIORITY_CS4);
    assert_eq!(message.payload.as_ref().map(|p| p.to_vec()), Some(vec![1, 2, 3]));

    // the response sent for the message's id goes back to the client and session of the request
    let id = number_of(message.id_unchecked());
    let source = Some(uri("me", 0x1234, 2, 0x0421));
    let sink = Some(uri("remote", 0x77, 1, 0));
    let mut response = umessage_parts(&values(3, source, sink));
    response.reqid = Some(id);
    response.commstatus = Some(0);
    let out = convert_umsg_to_vsomeip_msg_and_send(&mut rpc, &mut offered, &response, 1).unwrap();
    assert!(matches!(
        out,
        VsomeipOutbound::Response { client_id: 0x0077, session_id: 0x0005, return_code: ReturnCode::E_OK, .. }
    ));
}

#[test]
fn incoming_responses_carry_request_id_and_status() {
    let mut rpc = InMemoryRpcCorrelationRegistry::new();
    let request_id = UUID::build();
    rpc.insert_ue_request_correlation(0x0042_0001, number_of(&request_id)).unwrap();
    let message = convert_vsomeip_msg_to_umsg(
        &mut rpc,
        &"me".to_string(),
        &"remote".to_string(),
        &header(MessageTypeE::MT_RESPONSE, 0x0042_0001, 0x0421),
        vec![],
    )
    .unwrap()
    .message;
    assert_eq!(message.type_unchecked(), UMessageType::UMESSAGE_TYPE_RESPONSE);
    assert_eq!(message.request_id_unchecked(), &request_id);
    assert_eq!(message.commstatus_unchecked(), UCode::OK);
    assert_eq!(message.priority_unchecked(), UPriority::UPRIORITY_CS4);
    assert_eq!(message.sink_unchecked().ue_id, 0x0042);
    assert_eq!(message.source_unchecked().resource_id, 0x0421);

    rpc.insert_ue_request_correlation(0x0042_0002, number_of(&request_id)).unwrap();
    let error = convert_vsomeip_msg_to_umsg(
        &mut rpc,
        &"me".to_string(),
        &"remote".to_string(),
        &header(MessageTypeE::MT_ERROR, 0x0042_0002, 0x0421),
        vec![],
    )
    .unwrap()
    .message;
    assert_eq!(error.commstatus_unchecked(), UCode::INTERNAL);
}

#[test]
fn incoming_notification_becomes_publish_when_its_topic_is_an_event() {
    let mut rpc = InMemoryRpcCorrelationRegistry::new();
    let message = convert_vsomeip_msg_to_umsg(
        &mut rpc,
        &"me".to_string(),
        &"remote".to_string(),
        &header(MessageTypeE::MT_NOTIFICATION, 0, 0x8001),
        vec![9],
    )
    .unwrap()
    .message;
    assert_eq!(message.type_unchecked(), UMessageType::UMESSAGE_TYPE_PUBLISH);
    assert_eq!(message.source_unchecked().resource_id, 0x8001);
    assert_eq!(message.source_unchecked().ue_version_major, 1);
    // a resource id below the event range is no topic: the builder refuses the message
    let refused = convert_vsomeip_msg_to_umsg(
        &mut rpc,
        &"me".to_string(),
        &"remote".to_string(),
        &header(MessageTypeE::MT_NOTIFICATION, 0, 0x0421),
        vec![9],
    );
    assert!(matches!(refused, Err(StatusCode::INTERNAL)));
}

#[test]
fn incoming_message_errors_pass_through() {
    let mut rpc = InMemoryRpcCorrelationRegistry::new();
    let unknown = convert_vsomeip_msg_to_umsg(
        &mut rpc,
        &"me".to_string(),
        &"remote".to_string(),
        &header(MessageTypeE::MT_REQUEST_ACK, 0, 1),
        vec![],
    );
    assert!(matches!(unknown, Err(StatusCode::OUT_OF_RANGE)));
    let uncorrelated = convert_vsomeip_msg_to_umsg(
        &mut rpc,
        &"me".to_string(),
        &"remote".to_string(),
        &header(MessageTypeE::MT_RESPONSE, 0x0001_0001, 1),
        vec![],
    );
    assert!(matches!(uncorrelated, Err(StatusCode::NOT_FOUND)));
}

#[test]
fn inbound_request_correlation() {
    let mut rpc = InMemoryRpcCorrelationRegistry::new();
    assert_eq!(correlate_inbound_request(&mut rpc, None, 7), Err(StatusCode::INVALID_ARGUMENT));
    assert_eq!(correlate_inbound_request(&mut rpc, Some((1, 2)), 7), Ok(()));
    assert_eq!(correlate_inbound_request(&mut rpc, Some((1, 2)), 8), Err(StatusCode::ALREADY_EXISTS));
    assert_eq!(rpc.remove_me_request_correlation((1u128 << 64) | 2), Ok(7));
}

#[test]
fn request_id_halves() {
    assert_eq!(split_req_id(0x0123_4567_89AB_CDEF_FEDC_BA98_7654_3210), (0x0123_4567_89AB_CDEF, 0xFEDC_BA98_7654_3210));
    assert_eq!(split_req_id(5), (0, 5));
}

#[test]
fn send_checks_run_the_attribute_validator() {
    let topic = Some(uri("foo", 0x0002_1234, 1, 0x8001));
    assert_eq!(send_checks(&Some(values(1, topic.clone(), None))), Ok(RegistrationType::Publish(0x1234)));
    // a publish from a resource id below the event range fails validation
    let not_a_topic = Some(uri("foo", 0x0002_1234, 1, 0x0001));
    assert_eq!(send_checks(&Some(values(1, not_a_topic, None))), Err(StatusCode::INVALID_ARGUMENT));
    // a publish without a valid id fails validation
    let mut no_id = values(1, topic.clone(), None);
    no_id.id = None;
    assert_eq!(send_checks(&Some(no_id)), Err(StatusCode::INVALID_ARGUMENT));
    assert_eq!(send_checks(&None), Err(StatusCode::INVALID_ARGUMENT));
    assert_eq!(send_checks(&Some(values(0, topic.clone(), None))), Err(StatusCode::INVALID_ARGUMENT));
    assert_eq!(send_checks(&Some(values(4, topic.clone(), None))), Err(StatusCode::UNIMPLEMENTED));
    assert_eq!(send_checks(&Some(values(9, topic, None))), Err(StatusCode::INTERNAL));
}

#[test]
fn send_checks_for_requests() {
    let reply_to = Some(uri("foo", 0x0010, 1, 0));
    let method = Some(uri("bar", 0x0003_5678, 2, 0x0421));
    let mut request = values(2, reply_to.clone(), method.clone());
    request.ttl = Some(1000);
    request.priority = 5; // CS4
    assert_eq!(send_checks(&Some(request)), Ok(RegistrationType::Request(0x0010)));
    // a request below priority CS4 fails validation
    let mut low = values(2, reply_to, method);
    low.ttl = Some(1000);
    low.priority = 4; // CS3
    assert_eq!(send_checks(&Some(low)), Err(StatusCode::INVALID_ARGUMENT));
}

#[test]
fn message_parts_of_attributes() {
    let mut v = values(3, Some(uri("a", 1, 1, 1)), None);
    v.id = Some((1, 2));
    v.reqid = Some((0, 9));
    v.commstatus = Some(13);
    let p = umessage_parts(&v);
    assert_eq!(p.message_type, CoreMessageType::Response);
    assert_eq!(p.id, Some((1u128 << 64) | 2));
    assert_eq!(p.reqid, Some(9));
    assert_eq!(p.commstatus, Some(13));
    assert_eq!(p.source, Some(uri("a", 1, 1, 1)));
    assert_eq!(umessage_parts(&values(7, None, None)).message_type, CoreMessageType::Unspecified);
}
