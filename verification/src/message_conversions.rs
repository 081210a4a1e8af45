//! How uProtocol messages map onto SOME/IP messages and back, with the request/response
//! correlation that this needs.

use crate::ids::{byte_of, high_u16, low_u16, request_id_of, split_u32_to_u16, split_u32_to_u8, create_request_id};
use crate::rpc_correlation::{next_session_id, InMemoryRpcCorrelationRegistry, RpcCorrelationView, UProtocolReqId};
use crate::status::{spec_code_value, StatusCode};
use crate::uri::{Uri, UriView};
use crate::vsomeip_offered_requested::{OfferedRequestedView, VsomeipOfferedRequestedRegistry};
use crate::{AuthorityName, ClientId, EventId, InstanceId, MethodId, ServiceId, SessionId, SomeIpRequestId};
use vstd::prelude::*;

verus! {

/// The type of a uProtocol message; an unknown value reads as `Unspecified`.
#[derive(Clone, Copy, Debug, PartialEq, Eq, Structural)]
pub enum UMessageType {
    Unspecified,
    Publish,
    Request,
    Response,
    Notification,
}

/// The parts of a uProtocol message that the conversion to SOME/IP reads.
pub struct UMessageParts {
    pub message_type: UMessageType,
    pub source: Option<Uri>,
    pub sink: Option<Uri>,
    /// the message's own id
    pub id: Option<UProtocolReqId>,
    /// the id of the request that a response answers
    pub reqid: Option<UProtocolReqId>,
    /// the communication status of a response, as a status code number
    pub commstatus: Option<i32>,
}

/// The SOME/IP return codes that the transport sets.
#[allow(non_camel_case_types)]
#[derive(Clone, Copy, Debug, PartialEq, Eq, Structural)]
pub enum ReturnCode {
    E_OK,
    E_NOT_OK,
}

/// The SOME/IP message types.
#[allow(non_camel_case_types)]
#[derive(Clone, Copy, Debug, PartialEq, Eq, Structural)]
pub enum MessageTypeE {
    MT_REQUEST,
    MT_REQUEST_NO_RETURN,
    MT_NOTIFICATION,
    MT_REQUEST_ACK,
    MT_REQUEST_NO_RETURN_ACK,
    MT_NOTIFICATION_ACK,
    MT_RESPONSE,
    MT_ERROR,
    MT_RESPONSE_ACK,
    MT_ERROR_ACK,
    MT_UNKNOWN,
}

/// What to hand to vsomeip for an outgoing uProtocol message.
#[derive(Clone, Copy, Debug, PartialEq, Eq, Structural)]
pub enum VsomeipOutbound {
    /// Notify subscribers of an event; offer the service and the event first when
    /// `offer_event_first` holds.
    Notify {
        service_id: ServiceId,
        instance_id: InstanceId,
        event_id: EventId,
        interface_version: u8,
        offer_event_first: bool,
    },
    /// Send a request (return code `E_OK`); `request_id` is the id under which its response
    /// will be correlated.
    Request {
        service_id: ServiceId,
        instance_id: InstanceId,
        method_id: MethodId,
        interface_version: u8,
        request_id: SomeIpRequestId,
    },
    /// Send a response to the request of `client_id` and `session_id`.
    Response {
        service_id: ServiceId,
        instance_id: InstanceId,
        method_id: MethodId,
        interface_version: u8,
        client_id: ClientId,
        session_id: SessionId,
        return_code: ReturnCode,
        message_type: MessageTypeE,
    },
}

/// The instance id that the transport uses for its own services.
pub open spec fn default_instance_id() -> InstanceId {
    1
}

/// Whether a request on this path hands out a session id.
pub open spec fn takes_session_id(m: &UMessageParts) -> bool {
    m.message_type == UMessageType::Request && m.source is Some && m.sink is Some && m.id is Some
}

/// The outcome of converting an outgoing uProtocol message, with the correlation and the
/// offered/requested registries after the conversion.
pub open spec fn spec_convert_umsg_to_vsomeip(
    rpc: RpcCorrelationView,
    offered: OfferedRequestedView,
    m: &UMessageParts,
    app_client_id: ClientId,
) -> (Result<VsomeipOutbound, StatusCode>, RpcCorrelationView, OfferedRequestedView) {
    match m.source {
        None => (Err(StatusCode::INVALID_ARGUMENT), rpc, offered),
        Some(source) => match m.message_type {
            UMessageType::Publish => {
                let service_id = low_u16(source.ue_id);
                let event_id = low_u16(source.resource_id);
                let t = (service_id, default_instance_id(), event_id);
                let offer = !offered.offered_events.contains(t);
                (
                    Ok(VsomeipOutbound::Notify {
                        service_id,
                        instance_id: default_instance_id(),
                        event_id,
                        interface_version: byte_of(source.ue_version_major, 0),
                        offer_event_first: offer,
                    }),
                    rpc,
                    OfferedRequestedView { offered_events: offered.offered_events.insert(t), ..offered },
                )
            },
            UMessageType::Request => match m.sink {
                None => (Err(StatusCode::INVALID_ARGUMENT), rpc, offered),
                Some(sink) => match m.id {
                    None => (Err(StatusCode::INVALID_ARGUMENT), rpc, offered),
                    Some(req_id) => {
                        let session_id = next_session_id(rpc.session_ids, app_client_id);
                        let request_id = request_id_of(app_client_id, session_id);
                        let rpc1 = RpcCorrelationView {
                            session_ids: rpc.session_ids.insert(app_client_id, (session_id + 1) as SessionId),
                            ..rpc
                        };
                        if rpc.ue_request_correlation.contains_key(request_id) {
                            (Err(StatusCode::ALREADY_EXISTS), rpc1, offered)
                        } else {
                            (
                                Ok(VsomeipOutbound::Request {
                                    service_id: low_u16(sink.ue_id),
                                    instance_id: default_instance_id(),
                                    method_id: low_u16(sink.resource_id),
                                    interface_version: byte_of(sink.ue_version_major, 0),
                                    request_id,
                                }),
                                RpcCorrelationView {
                                    ue_request_correlation: rpc.ue_request_correlation.insert(request_id, req_id),
                                    ..rpc1
                                },
                                offered,
                            )
                        }
                    },
                },
            },
            UMessageType::Response => match m.reqid {
                None => (Err(StatusCode::INVALID_ARGUMENT), rpc, offered),
                Some(reqid) => {
                    if !rpc.me_request_correlation.contains_key(reqid) {
                        (Err(StatusCode::NOT_FOUND), rpc, offered)
                    } else {
                        let request_id = rpc.me_request_correlation[reqid];
                        let ok = m.commstatus == Some(spec_code_value(StatusCode::OK));
                        (
                            Ok(VsomeipOutbound::Response {
                                service_id: low_u16(source.ue_id),
                                instance_id: default_instance_id(),
                                method_id: low_u16(source.resource_id),
                                interface_version: byte_of(source.ue_version_major, 0),
                                client_id: high_u16(request_id),
                                session_id: low_u16(request_id),
                                return_code: if ok { ReturnCode::E_OK } else { ReturnCode::E_NOT_OK },
                                message_type: if ok { MessageTypeE::MT_RESPONSE } else { MessageTypeE::MT_ERROR },
                            }),
                            RpcCorrelationView {
                                me_request_correlation: rpc.me_request_correlation.remove(reqid),
                                ..rpc
                            },
                            offered,
                        )
                    }
                },
            },
            _ => (Err(StatusCode::INTERNAL), rpc, offered),
        },
    }
}

/// Converts an outgoing uProtocol message into what vsomeip must be asked to do to send it;
/// the caller hands that to the application.
///
/// `app_client_id` is the client id of the vsomeip application that sends it.  A publish
/// offers its event the first time; a request takes the client's next session id and
/// remembers its uProtocol id under the resulting SOME/IP request id; a response takes the
/// SOME/IP request id remembered for the request it answers.
pub fn convert_umsg_to_vsomeip_msg_and_send(
    rpc_correlation_registry: &mut InMemoryRpcCorrelationRegistry,
    vsomeip_offered_requested_registry: &mut VsomeipOfferedRequestedRegistry,
    umsg: &UMessageParts,
    app_client_id: ClientId,
) -> (r: Result<VsomeipOutbound, StatusCode>)
    requires
        takes_session_id(umsg) ==> next_session_id(old(rpc_correlation_registry)@.session_ids, app_client_id) < 0xFFFF,
    ensures
        (r, final(rpc_correlation_registry)@, final(vsomeip_offered_requested_registry)@) == spec_convert_umsg_to_vsomeip(
            old(rpc_correlation_registry)@,
            old(vsomeip_offered_requested_registry)@,
            umsg,
            app_client_id,
        ),
{
    let source = match &umsg.source {
        Some(source) => source,
        None => {
            return Err(StatusCode::INVALID_ARGUMENT);
        },
    };
    match umsg.message_type {
        UMessageType::Publish => {
            let (_instance_id, service_id) = split_u32_to_u16(source.ue_id);
            let instance_id: InstanceId = 1;
            let (_, event_id) = split_u32_to_u16(source.resource_id);
            let (_, _, _, interface_version) = split_u32_to_u8(source.ue_version_major);
            let offered = vsomeip_offered_requested_registry.is_event_offered(service_id, instance_id, event_id);
            if !offered {
                vsomeip_offered_requested_registry.insert_event_offered(service_id, instance_id, event_id);
            } else {
                proof {
                    let v = old(vsomeip_offered_requested_registry)@;
                    assert(v.offered_events.insert((service_id, instance_id, event_id)) =~= v.offered_events);
                }
            }
            Ok(VsomeipOutbound::Notify {
                service_id,
                instance_id,
                event_id,
                interface_version,
                offer_event_first: !offered,
            })
        },
        UMessageType::Request => {
            let sink = match &umsg.sink {
                Some(sink) => sink,
                None => {
                    return Err(StatusCode::INVALID_ARGUMENT);
                },
            };
            let (_instance_id, service_id) = split_u32_to_u16(sink.ue_id);
            let instance_id: InstanceId = 1;
            let (_, method_id) = split_u32_to_u16(sink.resource_id);
            let (_, _, _, interface_version) = split_u32_to_u8(sink.ue_version_major);
            let req_id = match umsg.id {
                Some(id) => id,
                None => {
                    return Err(StatusCode::INVALID_ARGUMENT);
                },
            };
            let app_session_id = rpc_correlation_registry.retrieve_session_id(app_client_id);
            let app_request_id = create_request_id(app_client_id, app_session_id);
            rpc_correlation_registry.insert_ue_request_correlation(app_request_id, req_id)?;
            Ok(VsomeipOutbound::Request {
                service_id,
                instance_id,
                method_id,
                interface_version,
                request_id: app_request_id,
            })
        },
        UMessageType::Response => {
            let (_instance_id, service_id) = split_u32_to_u16(source.ue_id);
            let instance_id: InstanceId = 1;
            let (_, method_id) = split_u32_to_u16(source.resource_id);
            let (_, _, _, interface_version) = split_u32_to_u8(source.ue_version_major);
            let req_id = match umsg.reqid {
                Some(id) => id,
                None => {
                    return Err(StatusCode::INVALID_ARGUMENT);
                },
            };
            let request_id = rpc_correlation_registry.remove_me_request_correlation(req_id)?;
            let (client_id, session_id) = split_u32_to_u16(request_id);
            let ok = match umsg.commstatus {
                Some(commstatus) => commstatus == StatusCode::OK.code_value(),
                None => false,
            };
            let (return_code, message_type) = if ok {
                (ReturnCode::E_OK, MessageTypeE::MT_RESPONSE)
            } else {
                (ReturnCode::E_NOT_OK, MessageTypeE::MT_ERROR)
            };
            Ok(VsomeipOutbound::Response {
                service_id,
                instance_id,
                method_id,
                interface_version,
                client_id,
                session_id,
                return_code,
                message_type,
            })
        },
        _ => Err(StatusCode::INTERNAL),
    }
}

/// The header fields of an incoming SOME/IP message.
#[derive(Clone, Copy, Debug, PartialEq, Eq, Structural)]
pub struct VsomeipHeader {
    pub message_type: MessageTypeE,
    pub request_id: SomeIpRequestId,
    pub service_id: ServiceId,
    pub instance_id: InstanceId,
    pub method_id: MethodId,
    pub client_id: ClientId,
    pub session_id: SessionId,
    pub interface_version: u8,
}

/// What kind of uProtocol message an incoming SOME/IP message becomes.
#[derive(Clone, Copy, Debug, PartialEq, Eq, Structural)]
pub enum InboundKind {
    /// A request with the given time-to-live in milliseconds.
    Request { ttl: u32 },
    /// A publish.
    Publish,
    /// A response to the uProtocol request `reqid`, with its communication status.
    Response { reqid: UProtocolReqId, commstatus: StatusCode },
}

/// The uProtocol message that an incoming SOME/IP message becomes.
pub struct InboundMessage {
    pub kind: InboundKind,
    pub sink: Option<Uri>,
    pub source: Uri,
}

/// The value of an `InboundMessage`.
pub struct InboundMessageView {
    pub kind: InboundKind,
    pub sink: Option<UriView>,
    pub source: UriView,
}

impl View for InboundMessage {
    type V = InboundMessageView;

    open spec fn view(&self) -> InboundMessageView {
        InboundMessageView {
            kind: self.kind,
            sink: match self.sink {
                Some(s) => Some(s@),
                None => None,
            },
            source: self.source@,
        }
    }
}

/// The time-to-live given to requests that come in from SOME/IP, in milliseconds.
pub open spec fn inbound_request_ttl() -> u32 {
    1000
}

/// A URI value from its parts.
pub open spec fn uri_view(authority_name: Seq<char>, ue_id: u32, ue_version_major: u32, resource_id: u32) -> UriView {
    UriView { authority_name, ue_id, ue_version_major, resource_id }
}

/// The outcome of converting an incoming SOME/IP message, with the correlation registry after it.
///
/// A request goes from the remote uEntity `client_id` (version 1, resource 0) to method
/// `method_id` of service `service_id` here; a notification comes from event `method_id` of
/// the remote service; a response or an error goes back to the local `client_id` and takes
/// out the uProtocol id of the request it answers, with status `OK` or `INTERNAL`.
pub open spec fn spec_convert_vsomeip_to_umsg(
    rpc: RpcCorrelationView,
    h: VsomeipHeader,
    authority_name: Seq<char>,
    remote_authority_name: Seq<char>,
) -> (Result<InboundMessageView, StatusCode>, RpcCorrelationView) {
    match h.message_type {
        MessageTypeE::MT_REQUEST => (
            Ok(InboundMessageView {
                kind: InboundKind::Request { ttl: inbound_request_ttl() },
                sink: Some(uri_view(authority_name, h.service_id as u32, h.interface_version as u32, h.method_id as u32)),
                source: uri_view(remote_authority_name, h.client_id as u32, 1, 0),
            }),
            rpc,
        ),
        MessageTypeE::MT_NOTIFICATION => (
            Ok(InboundMessageView {
                kind: InboundKind::Publish,
                sink: None,
                source: uri_view(remote_authority_name, h.service_id as u32, 1, h.method_id as u32),
            }),
            rpc,
        ),
        MessageTypeE::MT_RESPONSE | MessageTypeE::MT_ERROR => {
            if rpc.ue_request_correlation.contains_key(h.request_id) {
                let commstatus = if h.message_type == MessageTypeE::MT_RESPONSE {
                    StatusCode::OK
                } else {
                    StatusCode::INTERNAL
                };
                (
                    Ok(InboundMessageView {
                        kind: InboundKind::Response {
                            reqid: rpc.ue_request_correlation[h.request_id],
                            commstatus,
                        },
                        sink: Some(uri_view(authority_name, h.client_id as u32, 1, 0)),
                        source: uri_view(
                            remote_authority_name,
                            h.service_id as u32,
                            h.interface_version as u32,
                            h.method_id as u32,
                        ),
                    }),
                    RpcCorrelationView {
                        ue_request_correlation: rpc.ue_request_correlation.remove(h.request_id),
                        ..rpc
                    },
                )
            } else {
                (Err(StatusCode::NOT_FOUND), rpc)
            }
        },
        _ => (Err(StatusCode::OUT_OF_RANGE), rpc),
    }
}

fn make_uri(authority_name: &AuthorityName, ue_id: u32, ue_version_major: u32, resource_id: u32) -> (u: Uri)
    ensures
        u@ == uri_view(authority_name@, ue_id, ue_version_major, resource_id),
{
    Uri { authority_name: authority_name.clone(), ue_id, ue_version_major, resource_id }
}

/// Converts the header of an incoming SOME/IP message into the uProtocol message it stands
/// for: see `spec_convert_vsomeip_to_umsg`.
///
/// `authority_name` is this device's authority, `mechatronics_authority_name` the one given
/// to the SOME/IP side.
pub fn convert_vsomeip_header(
    rpc_correlation_registry: &mut InMemoryRpcCorrelationRegistry,
    authority_name: &AuthorityName,
    mechatronics_authority_name: &AuthorityName,
    header: &VsomeipHeader,
) -> (r: Result<InboundMessage, StatusCode>)
    ensures
        ({
            let (sr, sv) = spec_convert_vsomeip_to_umsg(
                old(rpc_correlation_registry)@,
                *header,
                authority_name@,
                mechatronics_authority_name@,
            );
            &&& final(rpc_correlation_registry)@ == sv
            &&& match r {
                Ok(m) => sr == Ok::<InboundMessageView, StatusCode>(m@),
                Err(e) => sr == Err::<InboundMessageView, StatusCode>(e),
            }
        }),
{
    match header.message_type {
        MessageTypeE::MT_REQUEST => {
            let sink = make_uri(
                authority_name,
                header.service_id as u32,
                header.interface_version as u32,
                header.method_id as u32,
            );
            let source = make_uri(mechatronics_authority_name, header.client_id as u32, 1, 0);
            Ok(InboundMessage { kind: InboundKind::Request { ttl: 1000 }, sink: Some(sink), source })
        },
        MessageTypeE::MT_NOTIFICATION => {
            let interface_version: u32 = 1;
            let source = make_uri(
                mechatronics_authority_name,
                header.service_id as u32,
                interface_version,
                header.method_id as u32,
            );
            Ok(InboundMessage { kind: InboundKind::Publish, sink: None, source })
        },
        MessageTypeE::MT_RESPONSE | MessageTypeE::MT_ERROR => {
            let sink = make_uri(authority_name, header.client_id as u32, 1, 0);
            let source = make_uri(
                mechatronics_authority_name,
                header.service_id as u32,
                header.interface_version as u32,
                header.method_id as u32,
            );
            let req_id = rpc_correlation_registry.remove_ue_request_correlation(header.request_id)?;
            let commstatus = match header.message_type {
                MessageTypeE::MT_RESPONSE => StatusCode::OK,
                _ => StatusCode::INTERNAL,
            };
            Ok(InboundMessage { kind: InboundKind::Response { reqid: req_id, commstatus }, sink: Some(sink), source })
        },
        _ => Err(StatusCode::OUT_OF_RANGE),
    }
}

/// A request sent to SOME/IP and the response that comes back for its request id: the
/// response carries the uProtocol id of the request, and the correlation entry is gone again.
pub proof fn lemma_request_response_correlate(
    rpc: RpcCorrelationView,
    offered: OfferedRequestedView,
    request: &UMessageParts,
    app_client_id: ClientId,
    response: VsomeipHeader,
    authority_name: Seq<char>,
    remote_authority_name: Seq<char>,
)
    requires
        request.message_type == UMessageType::Request,
        spec_convert_umsg_to_vsomeip(rpc, offered, request, app_client_id).0 is Ok,
        response.message_type == MessageTypeE::MT_RESPONSE || response.message_type == MessageTypeE::MT_ERROR,
        response.request_id == request_id_of(app_client_id, next_session_id(rpc.session_ids, app_client_id)),
    ensures
        ({
            let (out, rpc1, _) = spec_convert_umsg_to_vsomeip(rpc, offered, request, app_client_id);
            let (inb, rpc2) = spec_convert_vsomeip_to_umsg(rpc1, response, authority_name, remote_authority_name);
            &&& out matches Ok(VsomeipOutbound::Request { request_id, .. }) && request_id == response.request_id
            &&& inb matches Ok(m) && m.kind matches InboundKind::Response { reqid, .. } && Some(reqid) == request.id
            &&& rpc2.ue_request_correlation == rpc.ue_request_correlation
        }),
{
    let r = response.request_id;
    let (_, rpc1, _) = spec_convert_umsg_to_vsomeip(rpc, offered, request, app_client_id);
    assert(!rpc.ue_request_correlation.contains_key(r));
    assert(rpc1.ue_request_correlation.remove(r) =~= rpc.ue_request_correlation);
}

/// A request that came in from SOME/IP, remembered under its uProtocol id, and the response
/// sent for that id: the response goes back to the client and session of the request, and the
/// correlation entry is gone again.
pub proof fn lemma_incoming_request_response_correlate(
    rpc: RpcCorrelationView,
    offered: OfferedRequestedView,
    someip_request_id: SomeIpRequestId,
    uprotocol_req_id: UProtocolReqId,
    response: &UMessageParts,
    app_client_id: ClientId,
)
    requires
        !rpc.me_request_correlation.contains_key(uprotocol_req_id),
        response.message_type == UMessageType::Response,
        response.source is Some,
        response.reqid == Some(uprotocol_req_id),
    ensures
        ({
            let rpc1 = RpcCorrelationView {
                me_request_correlation: rpc.me_request_correlation.insert(uprotocol_req_id, someip_request_id),
                ..rpc
            };
            let (out, rpc2, _) = spec_convert_umsg_to_vsomeip(rpc1, offered, response, app_client_id);
            &&& out matches Ok(VsomeipOutbound::Response { client_id, session_id, .. })
                && request_id_of(client_id, session_id) == someip_request_id
            &&& rpc2.me_request_correlation == rpc.me_request_correlation
        }),
{
    let rpc1 = RpcCorrelationView {
        me_request_correlation: rpc.me_request_correlation.insert(uprotocol_req_id, someip_request_id),
        ..rpc
    };
    assert(rpc1.me_request_correlation.remove(uprotocol_req_id) =~= rpc.me_request_correlation);
    crate::ids::lemma_create_split_request_id(someip_request_id);
}


/// A response sent to SOME/IP goes back to the client and session of the request that it
/// answers (the SOME/IP request id remembered for its request id, split into halves), and
/// it is a success (`E_OK`, `MT_RESPONSE`) exactly when its communication status is `OK`
/// (number 0); any other status, or none, sends it as an error (`E_NOT_OK`, `MT_ERROR`).
pub proof fn lemma_response_status_and_addressee(
    rpc: RpcCorrelationView,
    offered: OfferedRequestedView,
    m: &UMessageParts,
    app_client_id: ClientId,
)
    requires
        m.message_type == UMessageType::Response,
        m.source is Some,
        m.reqid is Some,
        rpc.me_request_correlation.contains_key(m.reqid.unwrap()),
    ensures
        ({
            let request_id = rpc.me_request_correlation[m.reqid.unwrap()];
            let out = spec_convert_umsg_to_vsomeip(rpc, offered, m, app_client_id).0;
            &&& out matches Ok(VsomeipOutbound::Response { client_id, session_id, return_code, message_type, .. })
                && client_id as nat == request_id as nat / 0x1_0000 && session_id as nat == request_id as nat % 0x1_0000
                && (return_code == ReturnCode::E_OK <==> m.commstatus == Some(0i32))
                && (message_type == MessageTypeE::MT_RESPONSE <==> m.commstatus == Some(0i32))
                && (return_code == ReturnCode::E_NOT_OK <==> m.commstatus != Some(0i32))
                && (message_type == MessageTypeE::MT_ERROR <==> m.commstatus != Some(0i32))
        }),
{
}

/// An incoming SOME/IP response or error that answers a request sent from here becomes a
/// uProtocol response addressed to this authority's uEntity of the header's client id
/// (version 1, resource 0), from the remote service's method; its status is `OK` for a
/// response and `INTERNAL` for an error, and it carries the uProtocol id of the request. The
/// error and the response of the same header differ in nothing else.
pub proof fn lemma_incoming_response_addressee(
    rpc: RpcCorrelationView,
    h: VsomeipHeader,
    authority_name: Seq<char>,
    remote_authority_name: Seq<char>,
)
    requires
        h.message_type == MessageTypeE::MT_RESPONSE || h.message_type == MessageTypeE::MT_ERROR,
        rpc.ue_request_correlation.contains_key(h.request_id),
    ensures
        ({
            let r = spec_convert_vsomeip_to_umsg(rpc, h, authority_name, remote_authority_name).0;
            let as_response = spec_convert_vsomeip_to_umsg(
                rpc,
                VsomeipHeader { message_type: MessageTypeE::MT_RESPONSE, ..h },
                authority_name,
                remote_authority_name,
            ).0;
            &&& r matches Ok(m) && m.sink == Some(
                UriView { authority_name, ue_id: h.client_id as u32, ue_version_major: 1, resource_id: 0 },
            ) && m.source == (UriView {
                authority_name: remote_authority_name,
                ue_id: h.service_id as u32,
                ue_version_major: h.interface_version as u32,
                resource_id: h.method_id as u32,
            }) && m.kind == InboundKind::Response {
                reqid: rpc.ue_request_correlation[h.request_id],
                commstatus: if h.message_type == MessageTypeE::MT_RESPONSE {
                    StatusCode::OK
                } else {
                    StatusCode::INTERNAL
                },
            }
            &&& as_response matches Ok(m2) && r matches Ok(m) && m.sink == m2.sink && m.source == m2.source
        }),
{
}

} // verus!
