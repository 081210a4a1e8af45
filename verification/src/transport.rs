//! The decisions of the transport itself: naming vsomeip applications, checking a message
//! before it is sent, and planning point-to-point registrations.

use crate::application_registry::ApplicationRegistry;
use crate::attributes::{send_checks, spec_send_checks, UAttributesValues};
use crate::umessage::BuiltMessage;
use crate::determinations::{determine_registration_type, determine_send_type, spec_determine_type, RegistrationType};
use crate::message_conversions::UMessageType;
use crate::status::StatusCode;
use crate::uri::{any_uuri, any_uuri_fixed_authority_id, opt_uri_view, spec_any_uuri, Uri, UriView};
use crate::vsomeip_config::VsomeipApplicationConfig;
use crate::listener_config_map::ListenerKey;
use crate::{ApplicationName, AuthorityName, ClientId, UeId};
use vstd::prelude::*;
use vstd::string::StringExecFns;

verus! {

/// The decimal digits of a number, most significant first, without leading zeros ("0" for 0).
pub open spec fn decimal(n: nat) -> Seq<char>
    decreases n,
{
    if n < 10 {
        seq![digit_char(n)]
    } else {
        decimal(n / 10).push(digit_char(n % 10))
    }
}

/// The character of a decimal digit.
pub open spec fn digit_char(d: nat) -> char {
    if d == 0 { '0' } else if d == 1 { '1' } else if d == 2 { '2' } else if d == 3 { '3' } else if d == 4 { '4' }
    else if d == 5 { '5' } else if d == 6 { '6' } else if d == 7 { '7' } else if d == 8 { '8' } else { '9' }
}

fn digit(d: u16) -> (c: char)
    requires
        d < 10,
    ensures
        c == digit_char(d as nat),
{
    if d == 0 { '0' } else if d == 1 { '1' } else if d == 2 { '2' } else if d == 3 { '3' } else if d == 4 { '4' }
    else if d == 5 { '5' } else if d == 6 { '6' } else if d == 7 { '7' } else if d == 8 { '8' } else { '9' }
}

fn digit_str(c: char) -> (s: &'static str)
    requires
        exists|d: nat| d < 10 && c == digit_char(d),
    ensures
        s@ == seq![c],
{
    proof {
        reveal_strlit("0");
        reveal_strlit("1");
        reveal_strlit("2");
        reveal_strlit("3");
        reveal_strlit("4");
        reveal_strlit("5");
        reveal_strlit("6");
        reveal_strlit("7");
        reveal_strlit("8");
        reveal_strlit("9");
    }
    let s = if c == '0' { "0" } else if c == '1' { "1" } else if c == '2' { "2" } else if c == '3' { "3" }
        else if c == '4' { "4" } else if c == '5' { "5" } else if c == '6' { "6" } else if c == '7' { "7" }
        else if c == '8' { "8" } else { "9" };
    assert(s@ =~= seq![c]);
    s
}

/// The name given to the vsomeip application of a client id: the client id in decimal.
pub fn app_name_for_client_id(client_id: ClientId) -> (name: ApplicationName)
    ensures
        name@ == decimal(client_id as nat),
{
    // digits, least significant first
    let mut rev: Vec<char> = Vec::new();
    let mut n: u16 = client_id;
    while n >= 10
        invariant
            decimal(client_id as nat) == decimal(n as nat) + rev@.reverse(),
            forall|k: int| 0 <= k < rev@.len() ==> exists|d: nat| d < 10 && #[trigger] rev@[k] == digit_char(d),
        decreases n,
    {
        let ghost old_rev = rev@;
        assert(decimal(n as nat) == decimal((n / 10) as nat).push(digit_char((n % 10) as nat)));
        rev.push(digit(n % 10));
        assert(rev@.reverse() =~= seq![digit_char((n % 10) as nat)] + old_rev.reverse());
        assert(decimal((n / 10) as nat).push(digit_char((n % 10) as nat)) + old_rev.reverse()
            =~= decimal((n / 10) as nat) + (seq![digit_char((n % 10) as nat)] + old_rev.reverse()));
        n = n / 10;
    }
    rev.push(digit(n));
    assert(rev@.reverse() =~= seq![digit_char(n as nat)] + rev@.drop_last().reverse());
    let mut name = String::new();
    let mut i: usize = rev.len();
    assert(rev@.reverse() =~= decimal(client_id as nat));
    while i > 0
        invariant
            i <= rev@.len(),
            rev@.reverse() == decimal(client_id as nat),
            name@ == rev@.subrange(i as int, rev@.len() as int).reverse(),
            forall|k: int| 0 <= k < rev@.len() ==> exists|d: nat| d < 10 && #[trigger] rev@[k] == digit_char(d),
        decreases i,
    {
        i = i - 1;
        let c = rev[i];
        let ghost before = name@;
        name.append(digit_str(c));
        assert(rev@.subrange(i as int, rev@.len() as int) =~= seq![c] + rev@.subrange(i + 1, rev@.len() as int));
        assert(name@ =~= rev@.subrange(i as int, rev@.len() as int).reverse());
    }
    assert(rev@.subrange(0, rev@.len() as int) =~= rev@);
    name
}

/// Whether the vsomeip application of a registration or message exists already, or must be
/// started first under the given name.
pub enum AppInitialization {
    Existing(ApplicationName),
    Start { client_id: ClientId, app_name: ApplicationName },
}

/// Decides whether the application of a registration or message must be started: it must
/// when no application was found for its client id, and then it is named after the client id.
pub fn initialize_vsomeip_app_as_needed(
    registration_type: &RegistrationType,
    app_name: Result<ApplicationName, StatusCode>,
) -> (r: AppInitialization)
    ensures
        match app_name {
            Ok(name) => r matches AppInitialization::Existing(n) && n@ == name@,
            Err(_) => r matches AppInitialization::Start { client_id, app_name }
                && client_id == registration_type.spec_client_id()
                && app_name@ == decimal(registration_type.spec_client_id() as nat),
        },
{
    match app_name {
        Ok(name) => AppInitialization::Existing(name),
        Err(_) => {
            let client_id = registration_type.client_id();
            AppInitialization::Start { client_id, app_name: app_name_for_client_id(client_id) }
        },
    }
}

/// The outcome of starting an application: its name, or `INTERNAL` when the engine could not
/// start it.
pub fn app_initialization_result(app_name: ApplicationName, engine_result: Result<(), StatusCode>) -> (r: Result<
    ApplicationName,
    StatusCode,
>)
    ensures
        match engine_result {
            Ok(_) => r matches Ok(n) && n == app_name,
            Err(_) => r == Err::<ApplicationName, StatusCode>(StatusCode::INTERNAL),
        },
{
    match engine_result {
        Ok(()) => Ok(app_name),
        Err(_) => Err(StatusCode::INTERNAL),
    }
}

/// The checks that a message goes through before it is sent, in order, and the kind of
/// message it is.
///
/// Missing attributes and an unspecified type are `INVALID_ARGUMENT`, an unknown type number
/// `INTERNAL`; a publish, request or response whose attributes fail validation is
/// `INVALID_ARGUMENT`; a notification is `UNIMPLEMENTED`; a missing source, or a source or
/// sink holding a wildcard, is `INVALID_ARGUMENT`.
pub open spec fn spec_check_send(
    attributes_present: bool,
    message_type: Option<UMessageType>,
    attributes_valid: bool,
    source: Option<UriView>,
    sink: Option<UriView>,
) -> Result<RegistrationType, StatusCode> {
    if !attributes_present {
        Err(StatusCode::INVALID_ARGUMENT)
    } else {
        match message_type {
            None => Err(StatusCode::INTERNAL),
            Some(UMessageType::Notification) => Err(StatusCode::UNIMPLEMENTED),
            Some(UMessageType::Unspecified) => Err(StatusCode::INVALID_ARGUMENT),
            Some(_) => if !attributes_valid {
                Err(StatusCode::INVALID_ARGUMENT)
            } else {
                match source {
                    None => Err(StatusCode::INVALID_ARGUMENT),
                    Some(source) => if source.has_any_wildcard() {
                        Err(StatusCode::INVALID_ARGUMENT)
                    } else if sink matches Some(sink) && sink.has_any_wildcard() {
                        Err(StatusCode::INVALID_ARGUMENT)
                    } else {
                        Ok(spec_determine_type(source, sink, 0, false))
                    },
                }
            },
        }
    }
}

/// Checks a message before it is sent and tells which kind it is.
///
/// `message_type` is `None` for a type number that is not known; `attributes_valid` is the
/// verdict of the uProtocol attribute validator for the message's type.
pub fn check_send(
    attributes_present: bool,
    message_type: Option<UMessageType>,
    attributes_valid: bool,
    source: &Option<Uri>,
    sink: &Option<Uri>,
) -> (r: Result<RegistrationType, StatusCode>)
    ensures
        r == spec_check_send(attributes_present, message_type, attributes_valid, opt_uri_view(*source), opt_uri_view(*sink)),
{
    if !attributes_present {
        return Err(StatusCode::INVALID_ARGUMENT);
    }
    match message_type {
        None => {
            return Err(StatusCode::INTERNAL);
        },
        Some(UMessageType::Notification) => {
            return Err(StatusCode::UNIMPLEMENTED);
        },
        Some(UMessageType::Unspecified) => {
            return Err(StatusCode::INVALID_ARGUMENT);
        },
        Some(_) => {
            if !attributes_valid {
                return Err(StatusCode::INVALID_ARGUMENT);
            }
        },
    }
    let source_filter = match source {
        Some(s) => s,
        None => {
            return Err(StatusCode::INVALID_ARGUMENT);
        },
    };
    if source_filter.verify_no_wildcards().is_err() {
        return Err(StatusCode::INVALID_ARGUMENT);
    }
    if let Some(sink_filter) = sink {
        if sink_filter.verify_no_wildcards().is_err() {
            return Err(StatusCode::INVALID_ARGUMENT);
        }
    }
    determine_send_type(source_filter, sink)
}

/// One application to start and register a point-to-point listener for.
pub struct PointToPointRegistration {
    pub client_id: ClientId,
    pub app_name: ApplicationName,
    pub source: Uri,
    pub sink: Uri,
    pub registration_type: RegistrationType,
}

/// Plans the registration of the point-to-point listener: it is recorded, and for every
/// application of the vsomeip configuration the application is started and the listener is
/// registered for requests from anywhere to that application.
///
/// `NOT_FOUND` without a configuration file, `ALREADY_EXISTS` when a point-to-point listener
/// is registered already; either leaves the recorded listener as it was.
pub fn register_point_to_point_listener(
    authority_name: &AuthorityName,
    has_config_path: bool,
    point_to_point_listener: &mut Option<ListenerKey>,
    listener: ListenerKey,
    application_configs: &Vec<VsomeipApplicationConfig>,
) -> (r: Result<Vec<PointToPointRegistration>, StatusCode>)
    ensures
        !has_config_path ==> r == Err::<Vec<PointToPointRegistration>, StatusCode>(StatusCode::NOT_FOUND)
            && *final(point_to_point_listener) == *old(point_to_point_listener),
        has_config_path && *old(point_to_point_listener) is Some ==> r == Err::<Vec<PointToPointRegistration>, StatusCode>(
            StatusCode::ALREADY_EXISTS,
        ) && *final(point_to_point_listener) == *old(point_to_point_listener),
        has_config_path && *old(point_to_point_listener) is None ==> {
            &&& *final(point_to_point_listener) == Some(listener)
            &&& r matches Ok(regs)
            &&& regs@.len() == application_configs@.len()
            &&& forall|i: int| 0 <= i < regs@.len() ==> {
                let reg = #[trigger] regs@[i];
                let app = application_configs@[i];
                &&& reg.client_id == app.id
                &&& reg.app_name@ == app.name@
                &&& reg.source@ == spec_any_uuri()
                &&& reg.sink@ == (UriView { authority_name: authority_name@, ue_id: app.id as u32, ue_version_major: 0xFF, resource_id: 0xFFFF })
                &&& reg.registration_type == RegistrationType::Request(app.id)
            }
        },
{
    if !has_config_path {
        return Err(StatusCode::NOT_FOUND);
    }
    if point_to_point_listener.is_some() {
        return Err(StatusCode::ALREADY_EXISTS);
    }
    *point_to_point_listener = Some(listener);
    let mut regs: Vec<PointToPointRegistration> = Vec::new();
    let n = application_configs.len();
    let mut i: usize = 0;
    while i < n
        invariant
            n == application_configs@.len(),
            i <= n,
            regs@.len() == i,
            forall|k: int| 0 <= k < i ==> {
                let reg = #[trigger] regs@[k];
                let app = application_configs@[k];
                &&& reg.client_id == app.id
                &&& reg.app_name@ == app.name@
                &&& reg.source@ == spec_any_uuri()
                &&& reg.sink@ == (UriView { authority_name: authority_name@, ue_id: app.id as u32, ue_version_major: 0xFF, resource_id: 0xFFFF })
                &&& reg.registration_type == RegistrationType::Request(app.id)
            },
        decreases n - i,
    {
        let app_config = &application_configs[i];
        regs.push(PointToPointRegistration {
            client_id: app_config.id,
            app_name: app_config.name.clone(),
            source: any_uuri(),
            sink: any_uuri_fixed_authority_id(authority_name, app_config.id),
            registration_type: RegistrationType::Request(app_config.id),
        });
        i = i + 1;
    }
    Ok(regs)
}

/// Plans the unregistration of the point-to-point listener: the source and sink filter of
/// every application of the vsomeip configuration to release it from.
///
/// `NOT_FOUND` without a configuration file, `ALREADY_EXISTS` when no point-to-point listener
/// is registered, `INVALID_ARGUMENT` when the given listener is not the registered one.
pub fn unregister_point_to_point_listener(
    authority_name: &AuthorityName,
    has_config_path: bool,
    point_to_point_listener: &Option<ListenerKey>,
    listener: ListenerKey,
    application_configs: &Vec<VsomeipApplicationConfig>,
) -> (r: Result<Vec<(Uri, Uri)>, StatusCode>)
    ensures
        !has_config_path ==> r == Err::<Vec<(Uri, Uri)>, StatusCode>(StatusCode::NOT_FOUND),
        has_config_path && point_to_point_listener is None ==> r == Err::<Vec<(Uri, Uri)>, StatusCode>(
            StatusCode::ALREADY_EXISTS,
        ),
        (has_config_path && point_to_point_listener is Some && point_to_point_listener.unwrap() != listener) ==> r == Err::<
            Vec<(Uri, Uri)>,
            StatusCode,
        >(StatusCode::INVALID_ARGUMENT),
        has_config_path && *point_to_point_listener == Some(listener) ==> {
            &&& r matches Ok(pairs)
            &&& pairs@.len() == application_configs@.len()
            &&& forall|i: int| 0 <= i < pairs@.len() ==> {
                &&& (#[trigger] pairs@[i]).0@ == spec_any_uuri()
                &&& pairs@[i].1@ == (UriView {
                    authority_name: authority_name@,
                    ue_id: application_configs@[i].id as u32,
                    ue_version_major: 0xFF,
                    resource_id: 0xFFFF,
                })
            }
        },
{
    if !has_config_path {
        return Err(StatusCode::NOT_FOUND);
    }
    let registered = match point_to_point_listener {
        Some(p) => *p,
        None => {
            return Err(StatusCode::ALREADY_EXISTS);
        },
    };
    if registered != listener {
        return Err(StatusCode::INVALID_ARGUMENT);
    }
    let mut pairs: Vec<(Uri, Uri)> = Vec::new();
    let n = application_configs.len();
    let mut i: usize = 0;
    while i < n
        invariant
            n == application_configs@.len(),
            i <= n,
            pairs@.len() == i,
            forall|k: int| 0 <= k < i ==> {
                &&& (#[trigger] pairs@[k]).0@ == spec_any_uuri()
                &&& pairs@[k].1@ == (UriView {
                    authority_name: authority_name@,
                    ue_id: application_configs@[k].id as u32,
                    ue_version_major: 0xFF,
                    resource_id: 0xFFFF,
                })
            },
        decreases n - i,
    {
        pairs.push((any_uuri(), any_uuri_fixed_authority_id(authority_name, application_configs[i].id)));
        i = i + 1;
    }
    Ok(pairs)
}

/// A listener registration for the response to a request that is being sent.
pub struct ResponseRegistration {
    pub source: Uri,
    pub sink: Uri,
    pub registration_type: RegistrationType,
    pub listener: ListenerKey,
}

/// When a point-to-point listener is registered and a request is being sent, its response
/// must reach that listener: register it for messages from the request's sink back to the
/// request's source.  Nothing to do otherwise.  A request without a sink or without a source
/// is `INVALID_ARGUMENT`.
pub fn register_for_returning_response_if_point_to_point_listener_and_sending_request(
    point_to_point_listener: &Option<ListenerKey>,
    message_type: RegistrationType,
    message_source: &Option<Uri>,
    message_sink: &Option<Uri>,
) -> (r: Result<Option<ResponseRegistration>, StatusCode>)
    ensures
        point_to_point_listener is None ==> r matches Ok(None),
        (point_to_point_listener is Some && !(message_type is Request)) ==> r matches Ok(None),
        (point_to_point_listener is Some && message_type is Request && message_sink is None) ==> r
            == Err::<Option<ResponseRegistration>, StatusCode>(StatusCode::INVALID_ARGUMENT),
        (point_to_point_listener is Some && message_type is Request && message_sink is Some && message_source is None)
            ==> r == Err::<Option<ResponseRegistration>, StatusCode>(StatusCode::INVALID_ARGUMENT),
        (point_to_point_listener is Some && message_type is Request && message_sink is Some && message_source is Some)
            ==> (r matches Ok(Some(reg)) && reg.source@ == message_sink.unwrap()@
                && reg.sink@ == message_source.unwrap()@
                && reg.registration_type == RegistrationType::Response(message_type.spec_client_id())
                && reg.listener == point_to_point_listener.unwrap()),
{
    let listener = match point_to_point_listener {
        Some(l) => *l,
        None => {
            return Ok(None);
        },
    };
    let client_id = match message_type {
        RegistrationType::Request(client_id) => client_id,
        _ => {
            return Ok(None);
        },
    };
    let src = match message_sink {
        Some(s) => s.clone_uri(),
        None => {
            return Err(StatusCode::INVALID_ARGUMENT);
        },
    };
    let sink = match message_source {
        Some(s) => s.clone_uri(),
        None => {
            return Err(StatusCode::INVALID_ARGUMENT);
        },
    };
    Ok(Some(ResponseRegistration { source: src, sink, registration_type: RegistrationType::Response(client_id), listener }))
}


/// Whether `app` is the right decision for the application of `registration_type`, given
/// the applications known by client id: the known application, or a new one named after
/// the client id.
pub open spec fn app_decision(
    applications: Map<ClientId, Seq<char>>,
    registration_type: RegistrationType,
    app: AppInitialization,
) -> bool {
    let client_id = registration_type.spec_client_id();
    if applications.contains_key(client_id) {
        app matches AppInitialization::Existing(name) && name@ == applications[client_id]
    } else {
        app matches AppInitialization::Start { client_id: c, app_name } && c == client_id
            && app_name@ == decimal(client_id as nat)
    }
}

fn app_for(applications: &ApplicationRegistry, registration_type: &RegistrationType) -> (app: AppInitialization)
    ensures
        app_decision(applications@, *registration_type, app),
{
    let found = applications.find_app_name(registration_type.client_id());
    initialize_vsomeip_app_as_needed(registration_type, found)
}

/// How the transport goes on with a listener registration.
pub enum ListenerRegistration {
    /// The point-to-point listener of the streamer use case: see
    /// `register_point_to_point_listener`.
    PointToPoint,
    /// A listener that the application of the registration type's client id serves.
    Served { registration_type: RegistrationType, app: AppInitialization },
}

/// The first decisions of registering a listener: the registration type of its filters; the
/// streamer use case goes to the point-to-point listener, any other to the application of
/// its client id, which is started first when there is none yet.
pub fn register_listener_start(
    applications: &ApplicationRegistry,
    source_filter: &Uri,
    sink_filter: &Option<Uri>,
    my_ue_id: UeId,
) -> (r: ListenerRegistration)
    ensures
        ({
            let t = spec_determine_type(source_filter@, opt_uri_view(*sink_filter), my_ue_id, true);
            if t == RegistrationType::AllPointToPoint(0xFFFF) {
                r is PointToPoint
            } else {
                r matches ListenerRegistration::Served { registration_type, app } && registration_type == t
                    && app_decision(applications@, t, app)
            }
        }),
{
    let registration_type = match determine_registration_type(source_filter, sink_filter, my_ue_id) {
        Ok(t) => t,
        Err(_) => {
            return ListenerRegistration::PointToPoint;
        },
    };
    if registration_type == RegistrationType::AllPointToPoint(0xFFFF) {
        return ListenerRegistration::PointToPoint;
    }
    let app = app_for(applications, &registration_type);
    ListenerRegistration::Served { registration_type, app }
}

/// The first decisions of sending a message: the checks before sending (see `send_checks`),
/// then the application of the message's client id, which is started first when there is
/// none yet.
pub fn send_start(applications: &ApplicationRegistry, attributes: &Option<UAttributesValues>) -> (r: Result<
    (RegistrationType, AppInitialization),
    StatusCode,
>)
    ensures
        match spec_send_checks(
            match attributes {
                Some(a) => Some(a@),
                None => None,
            },
        ) {
            Err(e) => r == Err::<(RegistrationType, AppInitialization), StatusCode>(e),
            Ok(t) => r matches Ok((registration_type, app)) && registration_type == t && app_decision(
                applications@,
                t,
                app,
            ),
        },
{
    let registration_type = send_checks(attributes)?;
    let app = app_for(applications, &registration_type);
    Ok((registration_type, app))
}


/// Receiving by pulling is not offered by this transport: `UNIMPLEMENTED` for any filters;
/// listeners are registered with `register_listener_start` instead.
pub fn receive(source_filter: &Uri, sink_filter: &Option<Uri>) -> (r: Result<BuiltMessage, StatusCode>)
    ensures
        r == Err::<BuiltMessage, StatusCode>(StatusCode::UNIMPLEMENTED),
{
    Err(StatusCode::UNIMPLEMENTED)
}

} // verus!
