//! The decisions of the transport's engine: which vsomeip calls register and unregister a
//! listener, which messages can be sent, and what a reply from the engine means.

use crate::application_state_availability_handler_registry::InMemoryApplicationStateAvailabilityHandlerRegistry;
use crate::determinations::RegistrationType;
use crate::ids::{byte_of, low_u16, split_u32_to_u16, split_u32_to_u8};
use crate::message_conversions::{
    convert_umsg_to_vsomeip_msg_and_send, spec_convert_umsg_to_vsomeip, takes_session_id, UMessageParts,
    UMessageType, VsomeipOutbound,
};
use crate::rpc_correlation::{next_session_id, InMemoryRpcCorrelationRegistry, RpcCorrelationView};
use crate::status::StatusCode;
use crate::uri::{Uri, UriView};
use crate::vsomeip_offered_requested::{OfferedRequestedView, VsomeipOfferedRequestedRegistry};
use crate::{ClientId, EventId, InstanceId, MessageHandlerId, MethodId, ServiceId};
use vstd::prelude::*;

verus! {

/// vsomeip's wildcard major version.
pub open spec fn any_major() -> u8 {
    0xFF
}

/// vsomeip's wildcard minor version.
pub open spec fn any_minor() -> u32 {
    0xFFFF_FFFF
}

/// vsomeip's wildcard instance.
pub open spec fn any_instance() -> InstanceId {
    0xFFFF
}

/// vsomeip's default minor version.
pub open spec fn default_minor() -> u32 {
    0
}

/// A call to make on a vsomeip application.
#[derive(Clone, Copy, Debug, PartialEq, Eq, Structural)]
pub enum VsomeipAction {
    RequestService { service_id: ServiceId, instance_id: InstanceId, major: u8, minor: u32 },
    /// Request a single event in the event group of the same number.
    RequestEvent { service_id: ServiceId, instance_id: InstanceId, event_id: EventId },
    /// Subscribe to the event group of the same number as the event.
    Subscribe { service_id: ServiceId, instance_id: InstanceId, major: u8, event_id: EventId },
    OfferService { service_id: ServiceId, instance_id: InstanceId, major: u8, minor: u32 },
    RegisterMessageHandler {
        service_id: ServiceId,
        instance_id: InstanceId,
        method_id: MethodId,
        message_handler_id: MessageHandlerId,
    },
    UnregisterMessageHandler { service_id: ServiceId, instance_id: InstanceId, method_id: MethodId },
}

/// The vsomeip calls that register a listener, with the offered/requested registry after them.
///
/// A publish listener requests the service, the event and a subscription the first time
/// (instance 1) and registers its handler for the event; a request listener offers the
/// sink's service the first time and registers for any instance; a response listener
/// requests the source's service for any instance the first time and registers for it.
pub open spec fn spec_register_listener(
    offered: OfferedRequestedView,
    source: UriView,
    sink: Option<UriView>,
    registration_type: RegistrationType,
    msg_handler: MessageHandlerId,
) -> (Result<Seq<VsomeipAction>, StatusCode>, OfferedRequestedView) {
    match registration_type {
        RegistrationType::Publish(_) => {
            let s = low_u16(source.ue_id);
            let e = low_u16(source.resource_id);
            let t = (s, 1u16, e);
            let register = seq![VsomeipAction::RegisterMessageHandler { service_id: s, instance_id: 1, method_id: e, message_handler_id: msg_handler }];
            if offered.requested_events.contains(t) {
                (Ok(register), offered)
            } else {
                (
                    Ok(seq![
                        VsomeipAction::RequestService { service_id: s, instance_id: 1, major: any_major(), minor: any_minor() },
                        VsomeipAction::RequestEvent { service_id: s, instance_id: 1, event_id: e },
                        VsomeipAction::Subscribe { service_id: s, instance_id: 1, major: any_major(), event_id: e },
                    ] + register),
                    OfferedRequestedView { requested_events: offered.requested_events.insert(t), ..offered },
                )
            }
        },
        RegistrationType::Request(_) => match sink {
            None => (Err(StatusCode::INVALID_ARGUMENT), offered),
            Some(sink) => {
                let s = low_u16(sink.ue_id);
                let m = low_u16(sink.resource_id);
                let t = (s, 1u16, m);
                let register = seq![VsomeipAction::RegisterMessageHandler { service_id: s, instance_id: any_instance(), method_id: m, message_handler_id: msg_handler }];
                if offered.offered_services.contains(t) {
                    (Ok(register), offered)
                } else {
                    (
                        Ok(seq![VsomeipAction::OfferService { service_id: s, instance_id: 1, major: byte_of(sink.ue_version_major, 0), minor: default_minor() }] + register),
                        OfferedRequestedView { offered_services: offered.offered_services.insert(t), ..offered },
                    )
                }
            },
        },
        RegistrationType::Response(_) => {
            let s = low_u16(source.ue_id);
            let m = low_u16(source.resource_id);
            let t = (s, any_instance(), m);
            let register = seq![VsomeipAction::RegisterMessageHandler { service_id: s, instance_id: any_instance(), method_id: m, message_handler_id: msg_handler }];
            if offered.requested_services.contains(t) {
                (Ok(register), offered)
            } else {
                (
                    Ok(seq![VsomeipAction::RequestService { service_id: s, instance_id: any_instance(), major: any_major(), minor: any_minor() }] + register),
                    OfferedRequestedView { requested_services: offered.requested_services.insert(t), ..offered },
                )
            }
        },
        RegistrationType::AllPointToPoint(_) => (Err(StatusCode::INTERNAL), offered),
    }
}

/// The vsomeip call that unregisters a listener.
///
/// A publish listener is unregistered from the source's event, a request or a response
/// listener from the sink's method, each for any instance.
pub open spec fn spec_unregister_listener(
    source: UriView,
    sink: Option<UriView>,
    registration_type: RegistrationType,
) -> Result<VsomeipAction, StatusCode> {
    match registration_type {
        RegistrationType::Publish(_) => Ok(VsomeipAction::UnregisterMessageHandler {
            service_id: low_u16(source.ue_id),
            instance_id: any_instance(),
            method_id: low_u16(source.resource_id),
        }),
        RegistrationType::Request(_) | RegistrationType::Response(_) => match sink {
            None => Err(StatusCode::INVALID_ARGUMENT),
            Some(sink) => Ok(VsomeipAction::UnregisterMessageHandler {
                service_id: low_u16(sink.ue_id),
                instance_id: any_instance(),
                method_id: low_u16(sink.resource_id),
            }),
        },
        RegistrationType::AllPointToPoint(_) => Err(StatusCode::INTERNAL),
    }
}

/// Works out the vsomeip calls that register a listener, and records what they offer or request.
pub fn register_listener_internal(
    vsomeip_offered_requested_registry: &mut VsomeipOfferedRequestedRegistry,
    source_filter: &Uri,
    sink_filter: &Option<Uri>,
    registration_type: RegistrationType,
    msg_handler: MessageHandlerId,
) -> (r: Result<Vec<VsomeipAction>, StatusCode>)
    ensures
        ({
            let (sr, sv) = spec_register_listener(
                old(vsomeip_offered_requested_registry)@,
                source_filter@,
                match sink_filter {
                    Some(s) => Some(s@),
                    None => None,
                },
                registration_type,
                msg_handler,
            );
            &&& final(vsomeip_offered_requested_registry)@ == sv
            &&& match r {
                Ok(actions) => sr == Ok::<Seq<VsomeipAction>, StatusCode>(actions@),
                Err(e) => sr == Err::<Seq<VsomeipAction>, StatusCode>(e),
            }
        }),
{
    let mut actions: Vec<VsomeipAction> = Vec::new();
    match registration_type {
        RegistrationType::Publish(_) => {
            let (_, service_id) = split_u32_to_u16(source_filter.ue_id);
            let instance_id: InstanceId = 1;
            let (_, event_id) = split_u32_to_u16(source_filter.resource_id);
            let requested = vsomeip_offered_requested_registry.is_event_requested(service_id, instance_id, event_id);
            if !requested {
                actions.push(VsomeipAction::RequestService { service_id, instance_id, major: 0xFF, minor: 0xFFFF_FFFF });
                actions.push(VsomeipAction::RequestEvent { service_id, instance_id, event_id });
                actions.push(VsomeipAction::Subscribe { service_id, instance_id, major: 0xFF, event_id });
                vsomeip_offered_requested_registry.insert_event_requested(service_id, instance_id, event_id);
            }
            let register = VsomeipAction::RegisterMessageHandler {
                service_id,
                instance_id,
                method_id: event_id,
                message_handler_id: msg_handler,
            };
            actions.push(register);
            proof {
                if requested {
                    assert(actions@ =~= seq![register]);
                } else {
                    assert(actions@ =~= seq![
                        VsomeipAction::RequestService { service_id, instance_id, major: 0xFF, minor: 0xFFFF_FFFF },
                        VsomeipAction::RequestEvent { service_id, instance_id, event_id },
                        VsomeipAction::Subscribe { service_id, instance_id, major: 0xFF, event_id },
                    ] + seq![register]);
                }
            }
            Ok(actions)
        },
        RegistrationType::Request(_) => {
            let sink_filter = match sink_filter {
                Some(s) => s,
                None => {
                    return Err(StatusCode::INVALID_ARGUMENT);
                },
            };
            let (_, service_id) = split_u32_to_u16(sink_filter.ue_id);
            let instance_id: InstanceId = 1;
            let (_, method_id) = split_u32_to_u16(sink_filter.resource_id);
            let (_, _, _, major_version) = split_u32_to_u8(sink_filter.ue_version_major);
            let offered = vsomeip_offered_requested_registry.is_service_offered(service_id, instance_id, method_id);
            if !offered {
                actions.push(VsomeipAction::OfferService { service_id, instance_id, major: major_version, minor: 0 });
                vsomeip_offered_requested_registry.insert_service_offered(service_id, instance_id, method_id);
            }
            let register = VsomeipAction::RegisterMessageHandler {
                service_id,
                instance_id: 0xFFFF,
                method_id,
                message_handler_id: msg_handler,
            };
            actions.push(register);
            proof {
                if offered {
                    assert(actions@ =~= seq![register]);
                } else {
                    assert(actions@ =~= seq![VsomeipAction::OfferService { service_id, instance_id, major: major_version, minor: 0 }] + seq![register]);
                }
            }
            Ok(actions)
        },
        RegistrationType::Response(_) => {
            let (_, service_id) = split_u32_to_u16(source_filter.ue_id);
            let instance_id: InstanceId = 0xFFFF;
            let (_, method_id) = split_u32_to_u16(source_filter.resource_id);
            let requested = vsomeip_offered_requested_registry.is_service_requested(service_id, instance_id, method_id);
            if !requested {
                actions.push(VsomeipAction::RequestService { service_id, instance_id, major: 0xFF, minor: 0xFFFF_FFFF });
                vsomeip_offered_requested_registry.insert_service_requested(service_id, instance_id, method_id);
            }
            let register = VsomeipAction::RegisterMessageHandler {
                service_id,
                instance_id,
                method_id,
                message_handler_id: msg_handler,
            };
            actions.push(register);
            proof {
                if requested {
                    assert(actions@ =~= seq![register]);
                } else {
                    assert(actions@ =~= seq![VsomeipAction::RequestService { service_id, instance_id, major: 0xFF, minor: 0xFFFF_FFFF }] + seq![register]);
                }
            }
            Ok(actions)
        },
        RegistrationType::AllPointToPoint(_) => Err(StatusCode::INTERNAL),
    }
}

/// Works out the vsomeip call that unregisters a listener.
pub fn unregister_listener_internal(
    source_filter: &Uri,
    sink_filter: &Option<Uri>,
    registration_type: RegistrationType,
) -> (r: Result<VsomeipAction, StatusCode>)
    ensures
        r == spec_unregister_listener(
            source_filter@,
            match sink_filter {
                Some(s) => Some(s@),
                None => None,
            },
            registration_type,
        ),
{
    match registration_type {
        RegistrationType::Publish(_) => {
            let (_, service_id) = split_u32_to_u16(source_filter.ue_id);
            let (_, method_id) = split_u32_to_u16(source_filter.resource_id);
            Ok(VsomeipAction::UnregisterMessageHandler { service_id, instance_id: 0xFFFF, method_id })
        },
        RegistrationType::Request(_) | RegistrationType::Response(_) => {
            let sink_filter = match sink_filter {
                Some(s) => s,
                None => {
                    return Err(StatusCode::INVALID_ARGUMENT);
                },
            };
            let (_, service_id) = split_u32_to_u16(sink_filter.ue_id);
            let (_, method_id) = split_u32_to_u16(sink_filter.resource_id);
            Ok(VsomeipAction::UnregisterMessageHandler { service_id, instance_id: 0xFFFF, method_id })
        },
        RegistrationType::AllPointToPoint(_) => Err(StatusCode::INTERNAL),
    }
}

/// The outcome of sending a uProtocol message through the engine: an unspecified message
/// type or a notification is refused with `INVALID_ARGUMENT`; the others are converted.
pub open spec fn spec_send_internal(
    rpc: crate::rpc_correlation::RpcCorrelationView,
    offered: OfferedRequestedView,
    m: &UMessageParts,
    app_client_id: ClientId,
) -> (Result<VsomeipOutbound, StatusCode>, crate::rpc_correlation::RpcCorrelationView, OfferedRequestedView) {
    match m.message_type {
        UMessageType::Unspecified | UMessageType::Notification => (Err(StatusCode::INVALID_ARGUMENT), rpc, offered),
        _ => spec_convert_umsg_to_vsomeip(rpc, offered, m, app_client_id),
    }
}

/// Works out what vsomeip must do to send a uProtocol message.
pub fn send_internal(
    umsg: &UMessageParts,
    rpc_correlation_registry: &mut InMemoryRpcCorrelationRegistry,
    vsomeip_offered_requested_registry: &mut VsomeipOfferedRequestedRegistry,
    app_client_id: ClientId,
) -> (r: Result<VsomeipOutbound, StatusCode>)
    requires
        takes_session_id(umsg) ==> next_session_id(old(rpc_correlation_registry)@.session_ids, app_client_id) < 0xFFFF,
    ensures
        (r, final(rpc_correlation_registry)@, final(vsomeip_offered_requested_registry)@) == spec_send_internal(
            old(rpc_correlation_registry)@,
            old(vsomeip_offered_requested_registry)@,
            umsg,
            app_client_id,
        ),
{
    match umsg.message_type {
        UMessageType::Unspecified | UMessageType::Notification => Err(StatusCode::INVALID_ARGUMENT),
        _ => convert_umsg_to_vsomeip_msg_and_send(rpc_correlation_registry, vsomeip_offered_requested_registry, umsg, app_client_id),
    }
}

/// How a wait for the engine's reply ended.
pub enum EngineReply {
    /// The engine replied with this result.
    Received(Result<(), StatusCode>),
    /// The engine dropped the reply channel without replying.
    ChannelClosed,
    /// No reply came within the time allowed.
    TimedOut,
}

/// What a wait for the engine's reply gives the caller: the engine's own result, `INTERNAL`
/// when the reply channel closed, `DEADLINE_EXCEEDED` when the time ran out.
pub fn await_engine_result(reply: EngineReply) -> (r: Result<(), StatusCode>)
    ensures
        match reply {
            EngineReply::Received(res) => r == res,
            EngineReply::ChannelClosed => r == Err::<(), StatusCode>(StatusCode::INTERNAL),
            EngineReply::TimedOut => r == Err::<(), StatusCode>(StatusCode::DEADLINE_EXCEEDED),
        },
{
    match reply {
        EngineReply::Received(result) => result,
        EngineReply::ChannelClosed => Err(StatusCode::INTERNAL),
        EngineReply::TimedOut => Err(StatusCode::DEADLINE_EXCEEDED),
    }
}

/// Registering a request listener and then unregistering it with the same filters addresses
/// the same service, instance and method, and the handler that was registered.
pub proof fn lemma_unregister_request_matches_register(
    offered: OfferedRequestedView,
    source: UriView,
    sink: UriView,
    client_id: ClientId,
    msg_handler: MessageHandlerId,
)
    ensures
        ({
            let (reg, _) = spec_register_listener(offered, source, Some(sink), RegistrationType::Request(client_id), msg_handler);
            let unreg = spec_unregister_listener(source, Some(sink), RegistrationType::Request(client_id));
            &&& reg matches Ok(actions)
            &&& actions.last() matches VsomeipAction::RegisterMessageHandler { service_id, instance_id, method_id, message_handler_id }
            &&& message_handler_id == msg_handler
            &&& unreg == Ok::<VsomeipAction, StatusCode>(VsomeipAction::UnregisterMessageHandler { service_id, instance_id, method_id })
        }),
{
}

/// Registering the same listener filters twice offers or requests only the first time: the
/// second registration only registers the handler.
pub proof fn lemma_register_offers_once(
    offered: OfferedRequestedView,
    source: UriView,
    sink: Option<UriView>,
    registration_type: RegistrationType,
    first_handler: MessageHandlerId,
    second_handler: MessageHandlerId,
)
    requires
        spec_register_listener(offered, source, sink, registration_type, first_handler).0 is Ok,
    ensures
        ({
            let (_, offered1) = spec_register_listener(offered, source, sink, registration_type, first_handler);
            let (second, offered2) = spec_register_listener(offered1, source, sink, registration_type, second_handler);
            &&& second matches Ok(actions) && actions.len() == 1
            &&& offered2 == offered1
        }),
{
}

/// How creating and starting a vsomeip application went.
#[derive(Clone, Copy, Debug, PartialEq, Eq, Structural)]
pub enum AppStartOutcome {
    /// vsomeip did not create the application.
    NotCreated,
    /// The application was created and started, but reported no state in the time allowed.
    TimedOut,
    /// The application was created and started, and reported its state.
    Started,
}

/// The first decisions of creating a vsomeip application: a name that vsomeip holds an
/// application for already is `ALREADY_EXISTS`; otherwise a state handler slot is taken to
/// watch the application start, `RESOURCE_EXHAUSTED` when none is free.
pub fn create_app_begin(
    registry: &mut InMemoryApplicationStateAvailabilityHandlerRegistry,
    app_exists: bool,
) -> (r: Result<usize, StatusCode>)
    ensures
        app_exists ==> r == Err::<usize, StatusCode>(StatusCode::ALREADY_EXISTS) && final(registry)@ == old(registry)@,
        !app_exists ==> match r {
            Ok(id) => old(registry)@.contains(id) && final(registry)@ == old(registry)@.remove(id),
            Err(code) => code == StatusCode::RESOURCE_EXHAUSTED && old(registry)@.is_empty()
                && final(registry)@ == old(registry)@,
        },
{
    if app_exists {
        return Err(StatusCode::ALREADY_EXISTS);
    }
    registry.find_available_state_handler_id()
}

/// The last decisions of creating a vsomeip application: an application that was not
/// created, or reported no state in time, is `INTERNAL`, and its state handler slot stays
/// taken; a started application gives its slot back.
pub fn create_app_end(
    registry: &mut InMemoryApplicationStateAvailabilityHandlerRegistry,
    state_handler_id: usize,
    outcome: AppStartOutcome,
) -> (r: Result<(), StatusCode>)
    ensures
        match outcome {
            AppStartOutcome::Started => r is Ok && final(registry)@ == old(registry)@.insert(state_handler_id),
            _ => r == Err::<(), StatusCode>(StatusCode::INTERNAL) && final(registry)@ == old(registry)@,
        },
{
    match outcome {
        AppStartOutcome::Started => registry.free_state_handler_id(state_handler_id),
        _ => Err(StatusCode::INTERNAL),
    }
}

/// Creating an application that starts gives back the state handler slot that it took: the
/// free slots are as before.
pub proof fn lemma_started_app_returns_its_state_handler(free: Set<usize>, id: usize)
    requires
        free.contains(id),
    ensures
        free.remove(id).insert(id) == free,
{
    assert(free.remove(id).insert(id) =~= free);
}

/// A publish on a topic reaches the listeners registered with that topic as source filter:
/// the event that the message is notified on is the event, of the same service and
/// instance, that the listener's handler is registered for.
pub proof fn lemma_publish_reaches_subscriber(
    rpc: RpcCorrelationView,
    offered_at_send: OfferedRequestedView,
    offered_at_register: OfferedRequestedView,
    message: &UMessageParts,
    app_client_id: ClientId,
    listener_client_id: ClientId,
    msg_handler: MessageHandlerId,
)
    requires
        message.message_type == UMessageType::Publish,
        message.source is Some,
    ensures
        ({
            let out = spec_convert_umsg_to_vsomeip(rpc, offered_at_send, message, app_client_id).0;
            let reg = spec_register_listener(
                offered_at_register,
                message.source.unwrap()@,
                None,
                RegistrationType::Publish(listener_client_id),
                msg_handler,
            ).0;
            &&& out matches Ok(VsomeipOutbound::Notify { service_id, instance_id, event_id, .. })
            &&& reg matches Ok(actions)
            &&& actions.last() == VsomeipAction::RegisterMessageHandler {
                service_id,
                instance_id,
                method_id: event_id,
                message_handler_id: msg_handler,
            }
        }),
{
}

/// A request to a method reaches the listeners registered with that method as sink filter:
/// the request goes to the service and method that the listener's handler is registered for
/// (on any instance), and to the instance that the listener's registration offers.
pub proof fn lemma_request_reaches_service(
    rpc: RpcCorrelationView,
    offered_at_send: OfferedRequestedView,
    offered_at_register: OfferedRequestedView,
    message: &UMessageParts,
    app_client_id: ClientId,
    listener_source: UriView,
    listener_client_id: ClientId,
    msg_handler: MessageHandlerId,
)
    requires
        message.message_type == UMessageType::Request,
        spec_convert_umsg_to_vsomeip(rpc, offered_at_send, message, app_client_id).0 is Ok,
    ensures
        ({
            let out = spec_convert_umsg_to_vsomeip(rpc, offered_at_send, message, app_client_id).0;
            let reg = spec_register_listener(
                offered_at_register,
                listener_source,
                Some(message.sink.unwrap()@),
                RegistrationType::Request(listener_client_id),
                msg_handler,
            ).0;
            &&& out matches Ok(VsomeipOutbound::Request { service_id, instance_id, method_id, .. })
            &&& reg matches Ok(actions)
            &&& actions.last() == VsomeipAction::RegisterMessageHandler {
                service_id,
                instance_id: any_instance(),
                method_id,
                message_handler_id: msg_handler,
            }
            &&& actions.len() == 2 ==> (actions[0] matches VsomeipAction::OfferService { service_id: s, instance_id: i, .. }
                && s == service_id && i == instance_id)
        }),
{
}

/// A response from a method reaches the listeners registered with that method as source
/// filter: the response comes from the service and method that the listener's handler is
/// registered for (on any instance).
pub proof fn lemma_response_reaches_client(
    rpc: RpcCorrelationView,
    offered_at_send: OfferedRequestedView,
    offered_at_register: OfferedRequestedView,
    message: &UMessageParts,
    app_client_id: ClientId,
    listener_sink: Option<UriView>,
    listener_client_id: ClientId,
    msg_handler: MessageHandlerId,
)
    requires
        message.message_type == UMessageType::Response,
        spec_convert_umsg_to_vsomeip(rpc, offered_at_send, message, app_client_id).0 is Ok,
    ensures
        ({
            let out = spec_convert_umsg_to_vsomeip(rpc, offered_at_send, message, app_client_id).0;
            let reg = spec_register_listener(
                offered_at_register,
                message.source.unwrap()@,
                listener_sink,
                RegistrationType::Response(listener_client_id),
                msg_handler,
            ).0;
            &&& out matches Ok(VsomeipOutbound::Response { service_id, method_id, .. })
            &&& reg matches Ok(actions)
            &&& actions.last() == VsomeipAction::RegisterMessageHandler {
                service_id,
                instance_id: any_instance(),
                method_id,
                message_handler_id: msg_handler,
            }
        }),
{
}

/// A command to the engine, with the name of the application it concerns resolved by the
/// caller to that application's client id (`None` when no such application exists).
pub enum TransportCommand {
    RegisterListener {
        source: Uri,
        sink: Option<Uri>,
        registration_type: RegistrationType,
        msg_handler: MessageHandlerId,
    },
    UnregisterListener { source: Uri, sink: Option<Uri>, registration_type: RegistrationType },
    Send { message: UMessageParts },
    /// Create and start the application that the command names.
    StartVsomeipApp,
    StopVsomeipApp,
}

/// What the engine does for a command: calls on the application, and the reply to send back.
pub enum EngineStep {
    /// Make these calls on the application, then reply `Ok`.
    Register(Vec<VsomeipAction>),
    /// Make this call on the application, then reply `Ok`.
    Unregister(VsomeipAction),
    /// Hand this to the application, then reply `Ok`.
    Send(VsomeipOutbound),
    /// Create and start the application, watching its start with this state handler slot;
    /// then reply with what `create_app_end` gives for how it went.
    StartApp { state_handler_id: usize },
    /// Stop the application, then reply `Ok`.
    Stop,
    /// Reply with this error and do nothing else.
    Fail(StatusCode),
}

/// The state of the engine's registries: the correlations, what is offered and requested,
/// and the free state handler slots.
pub struct EngineState {
    pub rpc: RpcCorrelationView,
    pub offered: OfferedRequestedView,
    pub free_state_handlers: Set<usize>,
}

/// The engine's state of the three registries' views.
pub open spec fn engine_state(rpc: RpcCorrelationView, offered: OfferedRequestedView, free_state_handlers: Set<usize>) -> EngineState {
    EngineState { rpc, offered, free_state_handlers }
}

/// Whether the engine can take a command without a session counter running past `0xFFFF`.
pub open spec fn turn_can_run(o: EngineState, cmd: TransportCommand, app_client_id: Option<ClientId>) -> bool {
    app_client_id is Some && command_takes_session_id(&cmd) ==> next_session_id(o.rpc.session_ids, app_client_id.unwrap())
        < 0xFFFF
}

/// One turn of the engine: command `cmd` for the application of client id `app_client_id`
/// (`None` when it does not exist) takes state `o` to state `f` with step `step`.
pub open spec fn engine_turn(
    o: EngineState,
    cmd: TransportCommand,
    app_client_id: Option<ClientId>,
    step: EngineStep,
    f: EngineState,
) -> bool {
    &&& (cmd is StartVsomeipApp ==> {
            let oh = o.free_state_handlers;
            let fh = f.free_state_handlers;
            &&& f.rpc == o.rpc
            &&& f.offered == o.offered
            &&& app_client_id is Some ==> step == EngineStep::Fail(StatusCode::ALREADY_EXISTS) && fh == oh
            &&& app_client_id is None ==> match step {
                EngineStep::StartApp { state_handler_id } => oh.contains(state_handler_id) && fh == oh.remove(
                    state_handler_id,
                ),
                EngineStep::Fail(code) => code == StatusCode::RESOURCE_EXHAUSTED && oh.is_empty() && fh == oh,
                _ => false,
            }
        })
    &&& (!(cmd is StartVsomeipApp) ==> f.free_state_handlers == o.free_state_handlers)
    &&& (app_client_id is None && !(cmd is StartVsomeipApp) ==> {
            &&& step matches EngineStep::Fail(code) && code == StatusCode::INTERNAL
            &&& f.rpc == o.rpc
            &&& f.offered == o.offered
        })
    &&& (app_client_id is Some ==> match cmd {
            TransportCommand::RegisterListener { source, sink, registration_type, msg_handler } => {
                let (sr, sv) = spec_register_listener(
                    o.offered,
                    source@,
                    match sink {
                        Some(s) => Some(s@),
                        None => None,
                    },
                    registration_type,
                    msg_handler,
                );
                &&& f.offered == sv
                &&& f.rpc == o.rpc
                &&& match step {
                    EngineStep::Register(actions) => sr == Ok::<Seq<VsomeipAction>, StatusCode>(actions@),
                    EngineStep::Fail(e) => sr == Err::<Seq<VsomeipAction>, StatusCode>(e),
                    _ => false,
                }
            },
            TransportCommand::UnregisterListener { source, sink, registration_type } => {
                let sr = spec_unregister_listener(
                    source@,
                    match sink {
                        Some(s) => Some(s@),
                        None => None,
                    },
                    registration_type,
                );
                &&& f.offered == o.offered
                &&& f.rpc == o.rpc
                &&& match step {
                    EngineStep::Unregister(a) => sr == Ok::<VsomeipAction, StatusCode>(a),
                    EngineStep::Fail(e) => sr == Err::<VsomeipAction, StatusCode>(e),
                    _ => false,
                }
            },
            TransportCommand::Send { message } => {
                let (sr, rv, ov) = spec_send_internal(
                    o.rpc,
                    o.offered,
                    &message,
                    app_client_id.unwrap(),
                );
                &&& f.rpc == rv
                &&& f.offered == ov
                &&& match step {
                    EngineStep::Send(out) => sr == Ok::<VsomeipOutbound, StatusCode>(out),
                    EngineStep::Fail(e) => sr == Err::<VsomeipOutbound, StatusCode>(e),
                    _ => false,
                }
            },
            TransportCommand::StartVsomeipApp => true,
            TransportCommand::StopVsomeipApp => {
                &&& step is Stop
                &&& f.rpc == o.rpc
                &&& f.offered == o.offered
            },
        })
}

fn command_takes_session(cmd: &TransportCommand) -> (b: bool)
    ensures
        b == command_takes_session_id(cmd),
{
    match cmd {
        TransportCommand::Send { message } => message.message_type == UMessageType::Request && message.source.is_some()
            && message.sink.is_some() && message.id.is_some(),
        _ => false,
    }
}

/// The engine's loop over the commands it receives, in order, each with the client id of
/// the application that it names (`None` when there is none). Each command is taken in turn,
/// in the state that the commands before it left, and gets exactly one step (see
/// `engine_turn`), which the caller performs and answers before the next command is taken.
/// The loop ends with the commands, or at a command whose session counter would run past
/// `0xFFFF`, which the engine cannot take.
pub fn event_loop(
    rpc_correlation_registry: &mut InMemoryRpcCorrelationRegistry,
    vsomeip_offered_requested_registry: &mut VsomeipOfferedRequestedRegistry,
    application_state_availability_handler_registry: &mut InMemoryApplicationStateAvailabilityHandlerRegistry,
    commands: &Vec<(TransportCommand, Option<ClientId>)>,
) -> (steps: Vec<EngineStep>)
    ensures
        steps@.len() <= commands@.len(),
        exists|states: Seq<EngineState>|
            {
                &&& states.len() == steps@.len() + 1
                &&& states[0] == engine_state(
                    old(rpc_correlation_registry)@,
                    old(vsomeip_offered_requested_registry)@,
                    old(application_state_availability_handler_registry)@,
                )
                &&& states[steps@.len() as int] == engine_state(
                    final(rpc_correlation_registry)@,
                    final(vsomeip_offered_requested_registry)@,
                    final(application_state_availability_handler_registry)@,
                )
                &&& forall|i: int|
                    0 <= i < steps@.len() ==> engine_turn(
                        states[i],
                        commands@[i].0,
                        commands@[i].1,
                        #[trigger] steps@[i],
                        states[i + 1],
                    )
                &&& steps@.len() < commands@.len() ==> !turn_can_run(
                    states[steps@.len() as int],
                    commands@[steps@.len() as int].0,
                    commands@[steps@.len() as int].1,
                )
            },
{
    let ghost init = engine_state(
        rpc_correlation_registry@,
        vsomeip_offered_requested_registry@,
        application_state_availability_handler_registry@,
    );
    let mut steps: Vec<EngineStep> = Vec::new();
    let ghost mut states: Seq<EngineState> = seq![init];
    let n = commands.len();
    let mut i: usize = 0;
    while i < n
        invariant
            n == commands@.len(),
            i <= n,
            steps@.len() == i,
            states.len() == i + 1,
            states[0] == init,
            init == engine_state(
                old(rpc_correlation_registry)@,
                old(vsomeip_offered_requested_registry)@,
                old(application_state_availability_handler_registry)@,
            ),
            states[i as int] == engine_state(
                rpc_correlation_registry@,
                vsomeip_offered_requested_registry@,
                application_state_availability_handler_registry@,
            ),
            forall|j: int|
                0 <= j < i ==> engine_turn(
                    states[j],
                    commands@[j].0,
                    commands@[j].1,
                    #[trigger] steps@[j],
                    states[j + 1],
                ),
        decreases n - i,
    {
        let cmd = &commands[i].0;
        let app_client_id = commands[i].1;
        if let Some(client_id) = app_client_id {
            if command_takes_session(cmd) && rpc_correlation_registry.next_session_id(client_id) >= 0xFFFF {
                assert(!turn_can_run(states[i as int], commands@[i as int].0, commands@[i as int].1));
                return steps;
            }
        }
        let step = event_loop_step(
            rpc_correlation_registry,
            vsomeip_offered_requested_registry,
            application_state_availability_handler_registry,
            cmd,
            app_client_id,
        );
        proof {
            states = states.push(
                engine_state(
                    rpc_correlation_registry@,
                    vsomeip_offered_requested_registry@,
                    application_state_availability_handler_registry@,
                ),
            );
        }
        steps.push(step);
        i = i + 1;
    }
    steps
}

/// Whether an engine command takes a session id when the application exists.
pub open spec fn command_takes_session_id(cmd: &TransportCommand) -> bool {
    match cmd {
        TransportCommand::Send { message } => takes_session_id(message),
        _ => false,
    }
}

/// One turn of the engine's event loop.
///
/// `app_client_id` is the client id of the application the command names, `None` when the
/// application does not exist; then every command but the one that starts it fails with
/// `INTERNAL` and nothing changes. Starting an application goes as `create_app_begin` says.
pub fn event_loop_step(
    rpc_correlation_registry: &mut InMemoryRpcCorrelationRegistry,
    vsomeip_offered_requested_registry: &mut VsomeipOfferedRequestedRegistry,
    application_state_availability_handler_registry: &mut InMemoryApplicationStateAvailabilityHandlerRegistry,
    cmd: &TransportCommand,
    app_client_id: Option<ClientId>,
) -> (step: EngineStep)
    requires
        turn_can_run(
            engine_state(old(rpc_correlation_registry)@, old(vsomeip_offered_requested_registry)@, old(application_state_availability_handler_registry)@),
            *cmd,
            app_client_id,
        ),
    ensures
        engine_turn(
            engine_state(old(rpc_correlation_registry)@, old(vsomeip_offered_requested_registry)@, old(application_state_availability_handler_registry)@),
            *cmd,
            app_client_id,
            step,
            engine_state(final(rpc_correlation_registry)@, final(vsomeip_offered_requested_registry)@, final(application_state_availability_handler_registry)@),
        ),
{
    if let TransportCommand::StartVsomeipApp = cmd {
        return match create_app_begin(application_state_availability_handler_registry, app_client_id.is_some()) {
            Ok(state_handler_id) => EngineStep::StartApp { state_handler_id },
            Err(e) => EngineStep::Fail(e),
        };
    }
    let app_client_id = match app_client_id {
        Some(c) => c,
        None => {
            return EngineStep::Fail(StatusCode::INTERNAL);
        },
    };
    match cmd {
        TransportCommand::RegisterListener { source, sink, registration_type, msg_handler } => {
            match register_listener_internal(
                vsomeip_offered_requested_registry,
                source,
                sink,
                *registration_type,
                *msg_handler,
            ) {
                Ok(actions) => EngineStep::Register(actions),
                Err(e) => EngineStep::Fail(e),
            }
        },
        TransportCommand::UnregisterListener { source, sink, registration_type } => {
            match unregister_listener_internal(source, sink, *registration_type) {
                Ok(a) => EngineStep::Unregister(a),
                Err(e) => EngineStep::Fail(e),
            }
        },
        TransportCommand::Send { message } => {
            match send_internal(message, rpc_correlation_registry, vsomeip_offered_requested_registry, app_client_id) {
                Ok(out) => EngineStep::Send(out),
                Err(e) => EngineStep::Fail(e),
            }
        },
        TransportCommand::StartVsomeipApp => EngineStep::Fail(StatusCode::ALREADY_EXISTS),
        TransportCommand::StopVsomeipApp => EngineStep::Stop,
    }
}

} // verus!
