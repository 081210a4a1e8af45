//! Building the uProtocol messages that incoming SOME/IP messages stand for, with up_rust's
//! message builder, and remembering the ids of incoming requests for their responses.

use crate::attributes::{is_uprotocol_uuid, uuid_number, validator_accepts, UAttributesValuesView};
use crate::ids::{high_u16, low_u16};
use crate::message_conversions::{
    convert_vsomeip_header, spec_convert_umsg_to_vsomeip, spec_convert_vsomeip_to_umsg, InboundKind, InboundMessage,
    InboundMessageView, MessageTypeE, ReturnCode, UMessageParts, UMessageType, VsomeipHeader, VsomeipOutbound,
};
use crate::vsomeip_offered_requested::OfferedRequestedView;
use crate::rpc_correlation::{InMemoryRpcCorrelationRegistry, RpcCorrelationView, UProtocolReqId};
use crate::status::{spec_code_value, StatusCode};
use crate::uri::{Uri, UriView};
use crate::{AuthorityName, ClientId, SomeIpRequestId};
use protobuf::Enum;
use up_rust::{UCode, UMessage, UMessageBuilder, UMessageError, UPayloadFormat, UUri, UUID};
use vstd::prelude::*;

verus! {

/// A uProtocol message of up_rust, carried through as it is.
#[verifier::external_type_specification]
#[verifier::external_body]
pub struct ExUMessage(UMessage);

/// up_rust's builder of uProtocol messages.
#[verifier::external_type_specification]
#[verifier::external_body]
pub struct ExUMessageBuilder(UMessageBuilder);

/// The error of up_rust's message builder.
#[verifier::external_type_specification]
#[verifier::external_body]
pub struct ExUMessageError(UMessageError);

/// An up_rust message builder, with the attributes that it holds.
pub struct MessageBuilder {
    builder: UMessageBuilder,
    attributes: Ghost<UAttributesValuesView>,
}

impl View for MessageBuilder {
    type V = UAttributesValuesView;

    closed spec fn view(&self) -> UAttributesValuesView {
        self.attributes@
    }
}

/// A uProtocol message built with up_rust, with the attributes and the payload it holds.
pub struct BuiltMessage {
    pub message: UMessage,
    attributes: Ghost<UAttributesValuesView>,
    payload: Ghost<Seq<u8>>,
}

/// What a built message holds.
pub struct BuiltMessageView {
    pub attributes: UAttributesValuesView,
    pub payload: Seq<u8>,
}

impl View for BuiltMessage {
    type V = BuiltMessageView;

    closed spec fn view(&self) -> BuiltMessageView {
        BuiltMessageView { attributes: self.attributes@, payload: self.payload@ }
    }
}

/// The attributes that up_rust's `UMessageBuilder::request` sets: a request to the method
/// from the reply-to address, with the time-to-live and priority CS4.
pub open spec fn request_attributes(method_to_invoke: UriView, reply_to_address: UriView, ttl: u32) -> UAttributesValuesView {
    UAttributesValuesView {
        id: None,
        type_code: 2,
        source: Some(reply_to_address),
        sink: Some(method_to_invoke),
        priority: 5,
        ttl: Some(ttl),
        commstatus: None,
        reqid: None,
    }
}

/// The attributes that up_rust's `UMessageBuilder::publish` sets: a publish from the topic,
/// with unspecified priority.
pub open spec fn publish_attributes(topic: UriView) -> UAttributesValuesView {
    UAttributesValuesView {
        id: None,
        type_code: 1,
        source: Some(topic),
        sink: None,
        priority: 0,
        ttl: None,
        commstatus: None,
        reqid: None,
    }
}

/// The attributes that up_rust's `UMessageBuilder::response` sets, with the communication
/// status that `with_comm_status` sets: a response from the invoked method to the reply-to
/// address, for the request id, with priority CS4.
pub open spec fn response_attributes(
    reply_to_address: UriView,
    request_id: (u64, u64),
    invoked_method: UriView,
    comm_status: i32,
) -> UAttributesValuesView {
    UAttributesValuesView {
        id: None,
        type_code: 3,
        source: Some(invoked_method),
        sink: Some(reply_to_address),
        priority: 5,
        ttl: None,
        commstatus: Some(comm_status),
        reqid: Some(request_id),
    }
}

/// Attributes with the message id set.
pub open spec fn with_id(attributes: UAttributesValuesView, id: (u64, u64)) -> UAttributesValuesView {
    UAttributesValuesView { id: Some(id), ..attributes }
}

/// up_rust's `UMessageBuilder::request`, with the URIs converted field by field; the
/// builder's attributes are as `request_attributes` says, the others at their defaults.
#[verifier::external_body]
fn request_builder(method_to_invoke: &Uri, reply_to_address: &Uri, ttl: u32) -> (b: MessageBuilder)
    ensures
        b@ == request_attributes(method_to_invoke@, reply_to_address@, ttl),
{
    let uuri = |u: &Uri| UUri { authority_name: u.authority_name.clone(), ue_id: u.ue_id,
        ue_version_major: u.ue_version_major, resource_id: u.resource_id, ..Default::default() };
    MessageBuilder {
        builder: UMessageBuilder::request(uuri(method_to_invoke), uuri(reply_to_address), ttl),
        attributes: Ghost(request_attributes(method_to_invoke@, reply_to_address@, ttl)),
    }
}

/// up_rust's `UMessageBuilder::publish`, with the URI converted field by field; the
/// builder's attributes are as `publish_attributes` says, the others at their defaults.
#[verifier::external_body]
fn publish_builder(topic: &Uri) -> (b: MessageBuilder)
    ensures
        b@ == publish_attributes(topic@),
{
    MessageBuilder {
        builder: UMessageBuilder::publish(UUri { authority_name: topic.authority_name.clone(), ue_id: topic.ue_id,
            ue_version_major: topic.ue_version_major, resource_id: topic.resource_id, ..Default::default() }),
        attributes: Ghost(publish_attributes(topic@)),
    }
}

/// up_rust's `UMessageBuilder::response` and then its `with_comm_status` (which only a
/// response builder takes), with the URIs converted field by field, the request id given by
/// its halves and the status by its `UCode` number (`UCode` has the numbers `0 ..= 16`).
/// The builder's attributes are as `response_attributes` says, the others at their defaults.
#[verifier::external_body]
fn response_builder(reply_to_address: &Uri, request_id: (u64, u64), invoked_method: &Uri, comm_status: i32) -> (b:
    MessageBuilder)
    requires
        0 <= comm_status <= 16,
    ensures
        b@ == response_attributes(reply_to_address@, request_id, invoked_method@, comm_status),
{
    let uuri = |u: &Uri| UUri { authority_name: u.authority_name.clone(), ue_id: u.ue_id,
        ue_version_major: u.ue_version_major, resource_id: u.resource_id, ..Default::default() };
    let (msb, lsb) = request_id;
    let mut builder = UMessageBuilder::response(uuri(reply_to_address), UUID { msb, lsb, ..Default::default() },
        uuri(invoked_method));
    builder.with_comm_status(UCode::from_i32(comm_status).unwrap());
    MessageBuilder { builder, attributes: Ghost(response_attributes(reply_to_address@, request_id, invoked_method@, comm_status)) }
}

/// up_rust's `UUID::build`, as the UUID's halves: a fresh id of the current time and random
/// bits, with version 7 and the RFC 4122 variant set. Which id it is is not stated.
#[verifier::external_body]
fn fresh_message_id() -> (id: (u64, u64))
    ensures
        is_uprotocol_uuid(id),
{
    let id = UUID::build();
    (id.msb, id.lsb)
}

/// up_rust's `UMessageBuilder::with_message_id`, with the id given by its halves; it takes
/// only a valid uProtocol UUID.
#[verifier::external_body]
fn with_message_id(b: &mut MessageBuilder, id: (u64, u64))
    requires
        is_uprotocol_uuid(id),
    ensures
        final(b)@ == with_id(old(b)@, id),
{
    b.builder.with_message_id(UUID { msb: id.0, lsb: id.1, ..Default::default() });
    b.attributes = Ghost(with_id(b.attributes@, id));
}

/// up_rust's `UMessageBuilder::build_with_payload`, with the payload format unspecified, as a
/// SOME/IP payload does not tell it. The builder checks its attributes with the validator of
/// the builder's message type, which is the one that `validator_accepts` names; with the
/// message id set it adds nothing to the attributes but the payload format.
#[verifier::external_body]
fn build_with_payload(b: &mut MessageBuilder, payload: Vec<u8>) -> (r: Result<BuiltMessage, UMessageError>)
    requires
        old(b)@.id is Some,
    ensures
        final(b)@ == old(b)@,
        r is Ok <==> validator_accepts(old(b)@),
        r matches Ok(m) ==> m@ == (BuiltMessageView { attributes: old(b)@, payload: payload@ }),
{
    let ghost p = payload@;
    match b.builder.build_with_payload(payload, UPayloadFormat::UPAYLOAD_FORMAT_UNSPECIFIED) {
        Ok(message) => Ok(BuiltMessage { message, attributes: Ghost(b.attributes@), payload: Ghost(p) }),
        Err(e) => Err(e),
    }
}

proof fn lemma_code_value_range(code: StatusCode)
    ensures
        0 <= spec_code_value(code) <= 16,
{
}

/// The halves of a 128-bit request id.
pub open spec fn req_id_halves(id: UProtocolReqId) -> (u64, u64) {
    ((id / 0x1_0000_0000_0000_0000) as u64, (id % 0x1_0000_0000_0000_0000) as u64)
}

/// The attributes (without an id) of the uProtocol message that an incoming SOME/IP
/// message stands for: a request to its sink from its source, a publish from its source, or
/// a response to its sink from its source with its communication status. A request or a
/// response without a sink has none.
pub open spec fn inbound_attributes(m: InboundMessageView) -> Option<UAttributesValuesView> {
    match m.kind {
        InboundKind::Request { ttl } => match m.sink {
            Some(sink) => Some(request_attributes(sink, m.source, ttl)),
            None => None,
        },
        InboundKind::Publish => Some(publish_attributes(m.source)),
        InboundKind::Response { reqid, commstatus } => match m.sink {
            Some(sink) => Some(response_attributes(sink, req_id_halves(reqid), m.source, spec_code_value(commstatus))),
            None => None,
        },
    }
}

/// Builds the uProtocol message that an incoming SOME/IP message stands for, with the given
/// message id and payload: its attributes are `inbound_attributes` with that id. A request or
/// a response without a sink, and attributes that the builder's validator refuses, give
/// `INTERNAL`.
pub fn build_umessage(inbound: &InboundMessage, message_id: (u64, u64), payload: Vec<u8>) -> (r: Result<
    BuiltMessage,
    StatusCode,
>)
    requires
        is_uprotocol_uuid(message_id),
    ensures
        match inbound_attributes(inbound@) {
            None => r == Err::<BuiltMessage, StatusCode>(StatusCode::INTERNAL),
            Some(a) => {
                &&& r is Ok <==> validator_accepts(with_id(a, message_id))
                &&& r matches Ok(m) ==> m@ == (BuiltMessageView { attributes: with_id(a, message_id), payload: payload@ })
                &&& r matches Err(e) ==> e == StatusCode::INTERNAL
            },
        },
{
    let mut builder = match (&inbound.kind, &inbound.sink) {
        (InboundKind::Request { ttl }, Some(sink)) => request_builder(sink, &inbound.source, *ttl),
        (InboundKind::Publish, _) => publish_builder(&inbound.source),
        (InboundKind::Response { reqid, commstatus }, Some(sink)) => {
            proof {
                lemma_code_value_range(*commstatus);
            }
            response_builder(sink, split_req_id(*reqid), &inbound.source, commstatus.code_value())
        },
        _ => {
            return Err(StatusCode::INTERNAL);
        },
    };
    with_message_id(&mut builder, message_id);
    match build_with_payload(&mut builder, payload) {
        Ok(message) => Ok(message),
        Err(_) => Err(StatusCode::INTERNAL),
    }
}

/// The most and least significant halves of a 128-bit request id.
pub fn split_req_id(id: UProtocolReqId) -> (halves: (u64, u64))
    ensures
        halves == req_id_halves(id),
        uuid_number(halves) == id,
{
    let msb = (id / 0x1_0000_0000_0000_0000) as u64;
    let lsb = (id % 0x1_0000_0000_0000_0000) as u64;
    assert(msb as nat * 0x1_0000_0000_0000_0000 + lsb as nat == id as nat);
    (msb, lsb)
}

/// Remembers the id of a request that came in from SOME/IP under its SOME/IP request id, so
/// that the response sent for it can be correlated: `INVALID_ARGUMENT` where the message has
/// no id, else as `insert_me_request_correlation`.
pub fn correlate_inbound_request(
    rpc_correlation_registry: &mut InMemoryRpcCorrelationRegistry,
    message_id: Option<(u64, u64)>,
    someip_request_id: SomeIpRequestId,
) -> (r: Result<(), StatusCode>)
    ensures
        match message_id {
            None => r == Err::<(), StatusCode>(StatusCode::INVALID_ARGUMENT)
                && final(rpc_correlation_registry)@ == old(rpc_correlation_registry)@,
            Some(halves) => {
                let id = uuid_number(halves);
                let o = old(rpc_correlation_registry)@;
                if o.me_request_correlation.contains_key(id) {
                    r == Err::<(), StatusCode>(StatusCode::ALREADY_EXISTS) && final(rpc_correlation_registry)@ == o
                } else {
                    r is Ok && final(rpc_correlation_registry)@ == (RpcCorrelationView {
                        me_request_correlation: o.me_request_correlation.insert(id, someip_request_id),
                        ..o
                    })
                }
            },
        },
{
    match message_id {
        None => Err(StatusCode::INVALID_ARGUMENT),
        Some(halves) => {
            let id = crate::attributes::uuid_to_number(halves);
            rpc_correlation_registry.insert_me_request_correlation(id, someip_request_id)
        },
    }
}

/// Converts an incoming SOME/IP message into the uProtocol message it stands for, with its
/// payload: the header as `convert_vsomeip_header` says, then the message built by
/// `build_umessage` with a fresh message id, and for a request that id remembered by
/// `correlate_inbound_request`.
///
/// Where the header conversion fails, its error comes back and the registry ends as the
/// header conversion leaves it. Otherwise, for some fresh valid id: the message holds
/// `inbound_attributes` with that id and the payload, and comes back exactly when the
/// validator accepts those attributes and (for a request) the id is not held yet; the
/// registry then holds the id of a request with its SOME/IP request id.
pub fn convert_vsomeip_msg_to_umsg(
    rpc_correlation_registry: &mut InMemoryRpcCorrelationRegistry,
    authority_name: &AuthorityName,
    mechatronics_authority_name: &AuthorityName,
    header: &VsomeipHeader,
    payload: Vec<u8>,
) -> (r: Result<BuiltMessage, StatusCode>)
    ensures
        ({
            let (sr, sv) = spec_convert_vsomeip_to_umsg(
                old(rpc_correlation_registry)@,
                *header,
                authority_name@,
                mechatronics_authority_name@,
            );
            match sr {
                Err(e) => r == Err::<BuiltMessage, StatusCode>(e) && final(rpc_correlation_registry)@ == sv,
                Ok(m) => inbound_attributes(m) is Some && exists|id: (u64, u64)|
                    #[trigger] is_uprotocol_uuid(id) && {
                        let a = with_id(inbound_attributes(m).unwrap(), id);
                        let held = sv.me_request_correlation.contains_key(uuid_number(id));
                        &&& r is Ok <==> (validator_accepts(a) && (m.kind is Request ==> !held))
                        &&& r matches Ok(msg) ==> msg@ == (BuiltMessageView { attributes: a, payload: payload@ })
                        &&& if r is Ok && m.kind is Request {
                            final(rpc_correlation_registry)@ == (RpcCorrelationView {
                                me_request_correlation: sv.me_request_correlation.insert(uuid_number(id), header.request_id),
                                ..sv
                            })
                        } else {
                            final(rpc_correlation_registry)@ == sv
                        }
                        &&& r matches Err(e) ==> if validator_accepts(a) {
                            e == StatusCode::ALREADY_EXISTS
                        } else {
                            e == StatusCode::INTERNAL
                        }
                    },
            }
        }),
{
    let inbound = convert_vsomeip_header(
        rpc_correlation_registry,
        authority_name,
        mechatronics_authority_name,
        header,
    )?;
    let ghost m = inbound@;
    assert(inbound_attributes(m) is Some);
    let is_request = match inbound.kind {
        InboundKind::Request { .. } => true,
        _ => false,
    };
    let id = fresh_message_id();
    let message = build_umessage(&inbound, id, payload)?;
    if is_request {
        correlate_inbound_request(rpc_correlation_registry, Some(id), header.request_id)?;
    }
    Ok(message)
}


/// An incoming SOME/IP request converted and remembered under its message id, and the
/// response sent for that id: the response goes back to the client and session of the
/// SOME/IP request id (not to the local application), as a response with return code
/// `E_OK` when its status is `OK`, and the correlation is gone again.
pub proof fn lemma_inbound_request_then_response(
    rpc: RpcCorrelationView,
    offered: OfferedRequestedView,
    header: VsomeipHeader,
    authority_name: Seq<char>,
    remote_authority_name: Seq<char>,
    id: (u64, u64),
    response: &UMessageParts,
    app_client_id: ClientId,
)
    requires
        header.message_type == MessageTypeE::MT_REQUEST,
        !rpc.me_request_correlation.contains_key(uuid_number(id)),
        response.message_type == UMessageType::Response,
        response.source is Some,
        response.reqid == Some(uuid_number(id)),
        response.commstatus == Some(spec_code_value(StatusCode::OK)),
    ensures
        ({
            let (_, sv) = spec_convert_vsomeip_to_umsg(rpc, header, authority_name, remote_authority_name);
            let rpc1 = RpcCorrelationView {
                me_request_correlation: sv.me_request_correlation.insert(uuid_number(id), header.request_id),
                ..sv
            };
            let (out, rpc2, _) = spec_convert_umsg_to_vsomeip(rpc1, offered, response, app_client_id);
            &&& out matches Ok(VsomeipOutbound::Response { client_id, session_id, return_code, message_type, .. })
                && client_id == high_u16(header.request_id) && session_id == low_u16(header.request_id)
                && return_code == ReturnCode::E_OK && message_type == MessageTypeE::MT_RESPONSE
            &&& rpc2.me_request_correlation == rpc.me_request_correlation
        }),
{
    let (_, sv) = spec_convert_vsomeip_to_umsg(rpc, header, authority_name, remote_authority_name);
    assert(sv == rpc);
    assert(rpc.me_request_correlation.insert(uuid_number(id), header.request_id).remove(uuid_number(id))
        =~= rpc.me_request_correlation);
}

} // verus!
