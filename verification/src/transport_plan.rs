//! The order of the transport's work when it sends a message and when it registers or
//! unregisters a listener: the steps that the caller performs one after the other, and what
//! their outcomes decide.

use crate::application_registry::ApplicationRegistry;
use crate::attributes::{parts_of_attributes, spec_send_checks, umessage_parts, UAttributesValues};
use crate::determinations::{determine_registration_type, spec_determine_type, RegistrationType};
use crate::listener_config_map::{config_view, holds_config, ListenerConfigKey, ListenerKey};
use crate::message_handler_registry::InMemoryMessageHandlerRegistry;
use crate::uri::{opt_uri_view, Uri};
use crate::status::StatusCode;
use crate::transport::{
    app_decision, decimal, register_for_returning_response_if_point_to_point_listener_and_sending_request,
    register_listener_start, send_start, AppInitialization, ListenerRegistration, ResponseRegistration,
};
use crate::transport_engine::TransportCommand;
use crate::{ApplicationName, ClientId, UeId};
use vstd::prelude::*;

verus! {

/// A step of the transport's work that the caller performs and answers with its outcome.
pub enum TransportAction {
    /// Start the application: hand `StartVsomeipApp` for it to the engine, and answer with
    /// the engine's reply.
    StartApp { client_id: ClientId, app_name: ApplicationName },
    /// Register this listener for the response to the request being sent, and answer with
    /// the outcome.
    RegisterResponseListener(ResponseRegistration),
    /// Hand the command to the engine for the named application, and answer with the
    /// engine's reply (see `await_engine_result`).
    Engine { app_name: ApplicationName, command: TransportCommand },
    /// The work is over, with this result.
    Done(Result<(), StatusCode>),
}

/// The steps still to come, and the application whose start was handed out last.
pub struct Plan {
    remaining: Vec<TransportAction>,
    starting: Option<(ClientId, ApplicationName)>,
}

/// What a plan holds.
pub struct PlanView {
    pub remaining: Seq<TransportAction>,
    pub starting: Option<(ClientId, Seq<char>)>,
}

impl View for Plan {
    type V = PlanView;

    closed spec fn view(&self) -> PlanView {
        PlanView {
            remaining: self.remaining@,
            starting: match self.starting {
                Some((c, n)) => Some((c, n@)),
                None => None,
            },
        }
    }
}

/// The application start that an action hands out, if it is one.
pub open spec fn start_of(action: TransportAction) -> Option<(ClientId, Seq<char>)> {
    match action {
        TransportAction::StartApp { client_id, app_name } => Some((client_id, app_name@)),
        _ => None,
    }
}

fn start_of_action(action: &TransportAction) -> (s: Option<(ClientId, ApplicationName)>)
    ensures
        match s {
            Some((c, n)) => start_of(*action) == Some((c, n@)),
            None => start_of(*action) is None,
        },
{
    match action {
        TransportAction::StartApp { client_id, app_name } => Some((*client_id, app_name.clone())),
        _ => None,
    }
}

/// Takes the answer to the step handed out last and hands out the next one.
///
/// A failed step ends the work with its error; a failed application start with
/// `INTERNAL`. A started application is recorded under its client id (`ALREADY_EXISTS`,
/// ending the work, where the client id has one already). After the last step the work is
/// over with `Ok`.
pub fn plan_next(plan: &mut Plan, applications: &mut ApplicationRegistry, outcome: Result<(), StatusCode>) -> (action:
    TransportAction)
    ensures
        ({
            let o = old(plan)@;
            let f = final(plan)@;
            let oa = old(applications)@;
            let fa = final(applications)@;
            match outcome {
                Err(e) => {
                    &&& action == TransportAction::Done(
                        Err(
                            if o.starting is Some {
                                StatusCode::INTERNAL
                            } else {
                                e
                            },
                        ),
                    )
                    &&& f.remaining.len() == 0 && f.starting is None && fa == oa
                },
                Ok(_) => if o.starting matches Some((c, _)) && oa.contains_key(c) {
                    &&& action == TransportAction::Done(Err(StatusCode::ALREADY_EXISTS))
                    &&& f.remaining.len() == 0 && f.starting is None && fa == oa
                } else {
                    &&& fa == (match o.starting {
                        Some((c, n)) => oa.insert(c, n),
                        None => oa,
                    })
                    &&& if o.remaining.len() == 0 {
                        action == TransportAction::Done(Ok(())) && f.remaining.len() == 0 && f.starting is None
                    } else {
                        &&& action == o.remaining[0]
                        &&& f.remaining == o.remaining.drop_first()
                        &&& f.starting == start_of(action)
                    }
                },
            }
        }),
{
    if let Err(e) = outcome {
        let code = if plan.starting.is_some() {
            StatusCode::INTERNAL
        } else {
            e
        };
        plan.remaining = Vec::new();
        plan.starting = None;
        return TransportAction::Done(Err(code));
    }
    if let Some((client_id, app_name)) = &plan.starting {
        if applications.add_client_id_app_name(*client_id, app_name).is_err() {
            plan.remaining = Vec::new();
            plan.starting = None;
            return TransportAction::Done(Err(StatusCode::ALREADY_EXISTS));
        }
    }
    plan.starting = None;
    if plan.remaining.len() == 0 {
        return TransportAction::Done(Ok(()));
    }
    let action = plan.remaining.remove(0);
    plan.starting = start_of_action(&action);
    action
}

/// The name of the application that serves a client id: the one recorded, or the one it is
/// started under.
pub open spec fn app_name_for(applications: Map<ClientId, Seq<char>>, client_id: ClientId) -> Seq<char> {
    if applications.contains_key(client_id) {
        applications[client_id]
    } else {
        decimal(client_id as nat)
    }
}

/// Whether the response to a message of this type is registered for the point-to-point
/// listener before the message is sent.
pub open spec fn registers_response(point_to_point_listener: Option<ListenerKey>, t: RegistrationType) -> bool {
    point_to_point_listener is Some && t is Request
}

/// Plans sending a message with these attributes, given the applications known and the
/// point-to-point listener: the checks before sending (see `send_checks`), then, in this
/// order, the start of the message's application where it has none yet, the registration of
/// the response listener where `registers_response` holds, and the message handed to the
/// engine for the application. Gives the plan and its first step.
pub fn send_begin(
    applications: &ApplicationRegistry,
    point_to_point_listener: &Option<ListenerKey>,
    attributes: &Option<UAttributesValues>,
) -> (r: (Plan, TransportAction))
    ensures
        match spec_send_checks(
            match attributes {
                Some(a) => Some(a@),
                None => None,
            },
        ) {
            Err(e) => r.1 == TransportAction::Done(Err(e)) && r.0@.remaining.len() == 0 && r.0@.starting is None,
            Ok(t) => {
                let steps = seq![r.1] + r.0@.remaining;
                let c = t.spec_client_id();
                let starts = !applications@.contains_key(c);
                let k: int = if starts { 1 } else { 0 };
                let m: int = k + if registers_response(*point_to_point_listener, t) { 1int } else { 0int };
                let a = attributes.unwrap();
                &&& steps.len() == m + 1
                &&& r.0@.starting == start_of(r.1)
                &&& starts ==> (steps[0] matches TransportAction::StartApp { client_id, app_name } && client_id == c
                    && app_name@ == decimal(c as nat))
                &&& registers_response(*point_to_point_listener, t) ==> (steps[k] matches TransportAction::RegisterResponseListener(
                    reg,
                ) && reg.source@ == a.sink.unwrap()@ && reg.sink@ == a.source.unwrap()@ && reg.registration_type
                    == RegistrationType::Response(c) && Some(reg.listener) == *point_to_point_listener)
                &&& steps[m] matches TransportAction::Engine { app_name, command: TransportCommand::Send { message } }
                    && app_name@ == app_name_for(applications@, c) && parts_of_attributes(message, a@)
            },
        },
{
    let (registration_type, app) = match send_start(applications, attributes) {
        Ok(x) => x,
        Err(e) => {
            return (Plan { remaining: Vec::new(), starting: None }, TransportAction::Done(Err(e)));
        },
    };
    let a = match attributes {
        Some(a) => a,
        None => {
            return (Plan { remaining: Vec::new(), starting: None }, TransportAction::Done(Err(StatusCode::INVALID_ARGUMENT)));
        },
    };
    let mut steps: Vec<TransportAction> = Vec::new();
    let app_name = match app {
        AppInitialization::Existing(name) => name,
        AppInitialization::Start { client_id, app_name } => {
            steps.push(TransportAction::StartApp { client_id, app_name: app_name.clone() });
            app_name
        },
    };
    let response = register_for_returning_response_if_point_to_point_listener_and_sending_request(
        point_to_point_listener,
        registration_type,
        &a.source,
        &a.sink,
    );
    match response {
        Ok(Some(reg)) => steps.push(TransportAction::RegisterResponseListener(reg)),
        Ok(None) => {},
        Err(e) => steps.push(TransportAction::Done(Err(e))),
    }
    steps.push(TransportAction::Engine { app_name, command: TransportCommand::Send { message: umessage_parts(a) } });
    let first = steps.remove(0);
    let starting = start_of_action(&first);
    (Plan { remaining: steps, starting }, first)
}


/// How a listener registration goes on.
pub enum RegisterStart {
    /// The point-to-point listener of the streamer use case: see
    /// `register_point_to_point_listener`.
    PointToPoint,
    /// A listener that the application `app_name` serves: the plan (which starts the
    /// application where it has none yet) and its first step; once the plan is done, see
    /// `register_listener_engine_step`.
    Planned { plan: Plan, first: TransportAction, registration_type: RegistrationType, app_name: ApplicationName },
}

/// Plans the registration of a listener with these filters: the streamer use case goes to
/// the point-to-point listener; any other is served by the application of its registration
/// type's client id, which is started first where it has none yet.
pub fn register_begin(
    applications: &ApplicationRegistry,
    source_filter: &Uri,
    sink_filter: &Option<Uri>,
    my_ue_id: UeId,
) -> (r: RegisterStart)
    ensures
        ({
            let t = spec_determine_type(source_filter@, opt_uri_view(*sink_filter), my_ue_id, true);
            let c = t.spec_client_id();
            if t == RegistrationType::AllPointToPoint(0xFFFF) {
                r is PointToPoint
            } else {
                r matches RegisterStart::Planned { plan, first, registration_type, app_name } && {
                    &&& registration_type == t
                    &&& app_name@ == app_name_for(applications@, c)
                    &&& plan@.remaining.len() == 0
                    &&& plan@.starting == start_of(first)
                    &&& if applications@.contains_key(c) {
                        first == TransportAction::Done(Ok(()))
                    } else {
                        first matches TransportAction::StartApp { client_id, app_name: n } && client_id == c && n@
                            == decimal(c as nat)
                    }
                }
            }
        }),
{
    match register_listener_start(applications, source_filter, sink_filter, my_ue_id) {
        ListenerRegistration::PointToPoint => RegisterStart::PointToPoint,
        ListenerRegistration::Served { registration_type, app } => match app {
            AppInitialization::Existing(app_name) => RegisterStart::Planned {
                plan: Plan { remaining: Vec::new(), starting: None },
                first: TransportAction::Done(Ok(())),
                registration_type,
                app_name,
            },
            AppInitialization::Start { client_id, app_name } => {
                let first = TransportAction::StartApp { client_id, app_name: app_name.clone() };
                let starting = start_of_action(&first);
                RegisterStart::Planned { plan: Plan { remaining: Vec::new(), starting }, first, registration_type, app_name }
            },
        },
    }
}

/// The last step of registering a listener, once its application runs: a message handler
/// slot is taken for the listener's configuration, and the registration is handed to the
/// engine for the application. Where no slot is given (none is free, or the configuration is
/// served already), the registration ends with `INTERNAL` and nothing changes.
pub fn register_listener_engine_step<T>(
    handlers: &mut InMemoryMessageHandlerRegistry<T>,
    transport_storage: T,
    listener_config: ListenerConfigKey,
    source_filter: Uri,
    sink_filter: Option<Uri>,
    registration_type: RegistrationType,
    app_name: ApplicationName,
) -> (action: TransportAction)
    requires
        old(handlers)@.wf(),
    ensures
        final(handlers)@.wf(),
        (old(handlers)@.free_ids.is_empty() || holds_config(old(handlers)@.configs, config_view(listener_config)))
            ==> action == TransportAction::Done(Err(StatusCode::INTERNAL)) && final(handlers)@ == old(handlers)@,
        !(old(handlers)@.free_ids.is_empty() || holds_config(old(handlers)@.configs, config_view(listener_config)))
            ==> (action matches TransportAction::Engine {
            app_name: n,
            command: TransportCommand::RegisterListener { source, sink, registration_type: rt, msg_handler },
        } && n == app_name && source == source_filter && sink == sink_filter && rt == registration_type
            && old(handlers)@.free_ids.contains(msg_handler) && final(handlers)@ == old(handlers)@.after_get(
            msg_handler,
            transport_storage,
            config_view(listener_config),
        )),
{
    match handlers.get_message_handler(transport_storage, listener_config) {
        Ok(msg_handler) => TransportAction::Engine {
            app_name,
            command: TransportCommand::RegisterListener {
                source: source_filter,
                sink: sink_filter,
                registration_type,
                msg_handler,
            },
        },
        Err(_) => TransportAction::Done(Err(StatusCode::INTERNAL)),
    }
}

/// How a listener unregistration goes on.
pub enum UnregisterStart {
    /// The point-to-point listener: see `unregister_point_to_point_listener`.
    PointToPoint,
    /// Hand this to the engine; once it answers, see `unregister_finish`.
    Engine(TransportAction),
    /// The unregistration ends with this error.
    Fail(StatusCode),
}

/// Plans the unregistration of a listener with these filters: the streamer use case goes to
/// the point-to-point listener; any other is unregistered by the application of its
/// registration type's client id, `NOT_FOUND` where that client id has none.
pub fn unregister_begin(
    applications: &ApplicationRegistry,
    source_filter: &Uri,
    sink_filter: &Option<Uri>,
    my_ue_id: UeId,
) -> (r: UnregisterStart)
    ensures
        ({
            let t = spec_determine_type(source_filter@, opt_uri_view(*sink_filter), my_ue_id, true);
            let c = t.spec_client_id();
            if t == RegistrationType::AllPointToPoint(0xFFFF) {
                r is PointToPoint
            } else if !applications@.contains_key(c) {
                r == UnregisterStart::Fail(StatusCode::NOT_FOUND)
            } else {
                r matches UnregisterStart::Engine(
                    TransportAction::Engine {
                        app_name,
                        command: TransportCommand::UnregisterListener { source, sink, registration_type },
                    },
                ) && app_name@ == applications@[c] && source@ == source_filter@ && opt_uri_view(sink) == opt_uri_view(
                    *sink_filter,
                ) && registration_type == t
            }
        }),
{
    let registration_type = match determine_registration_type(source_filter, sink_filter, my_ue_id) {
        Ok(t) => t,
        Err(e) => {
            return UnregisterStart::Fail(e);
        },
    };
    if registration_type == RegistrationType::AllPointToPoint(0xFFFF) {
        return UnregisterStart::PointToPoint;
    }
    match applications.find_app_name(registration_type.client_id()) {
        Ok(app_name) => {
            let sink = match sink_filter {
                Some(s) => Some(s.clone_uri()),
                None => None,
            };
            UnregisterStart::Engine(
                TransportAction::Engine {
                    app_name,
                    command: TransportCommand::UnregisterListener {
                        source: source_filter.clone_uri(),
                        sink,
                        registration_type,
                    },
                },
            )
        },
        Err(e) => UnregisterStart::Fail(e),
    }
}

/// The last step of unregistering a listener, with the engine's answer: an error ends the
/// unregistration with it and changes nothing; otherwise the message handler slot of the
/// listener's configuration is released (`NOT_FOUND` where none serves it).
pub fn unregister_finish<T>(
    handlers: &mut InMemoryMessageHandlerRegistry<T>,
    listener_config: ListenerConfigKey,
    engine_outcome: Result<(), StatusCode>,
) -> (r: Result<(), StatusCode>)
    requires
        old(handlers)@.wf(),
    ensures
        final(handlers)@.wf(),
        engine_outcome matches Err(e) ==> r == Err::<(), StatusCode>(e) && final(handlers)@ == old(handlers)@,
        engine_outcome is Ok && holds_config(old(handlers)@.configs, config_view(listener_config)) ==> {
            &&& r is Ok
            &&& exists|id: usize|
                #![trigger old(handlers)@.configs[id]]
                old(handlers)@.configs.contains_key(id) && old(handlers)@.configs[id] == config_view(listener_config)
                    && final(handlers)@ == old(handlers)@.after_release(id)
        },
        engine_outcome is Ok && !holds_config(old(handlers)@.configs, config_view(listener_config)) ==> r
            == Err::<(), StatusCode>(StatusCode::NOT_FOUND) && final(handlers)@ == old(handlers)@,
{
    engine_outcome?;
    handlers.release_message_handler(listener_config)
}

} // verus!
