//! Which kind of SOME/IP registration or message a pair of source and sink filters stands for.

use crate::status::StatusCode;
use crate::uri::{Uri, UriView, wildcard_authority, is_wildcard_authority, opt_uri_view};
use crate::{ClientId, UeId};
use vstd::prelude::*;

verus! {

/// The kind of a registration or message, with the client id of the vsomeip application
/// that serves it.
#[derive(Clone, Copy, Debug, PartialEq, Eq, Structural)]
pub enum RegistrationType {
    Publish(ClientId),
    Request(ClientId),
    Response(ClientId),
    AllPointToPoint(ClientId),
}

impl RegistrationType {
    /// The client id carried by any variant.
    pub open spec fn spec_client_id(self) -> ClientId {
        match self {
            RegistrationType::Publish(c) => c,
            RegistrationType::Request(c) => c,
            RegistrationType::Response(c) => c,
            RegistrationType::AllPointToPoint(c) => c,
        }
    }

    /// The client id of the vsomeip application that serves this registration.
    pub fn client_id(&self) -> (client_id: ClientId)
        ensures
            client_id == self.spec_client_id(),
    {
        match self {
            RegistrationType::Publish(client_id) => *client_id,
            RegistrationType::Request(client_id) => *client_id,
            RegistrationType::Response(client_id) => *client_id,
            RegistrationType::AllPointToPoint(client_id) => *client_id,
        }
    }
}

/// The client id used for point-to-point registrations.
pub open spec fn all_point_to_point_client_id() -> ClientId {
    0xFFFF
}

/// The streamer use case: a source of any authority, any uEntity, any version and any
/// resource, towards a sink of a fixed authority with any uEntity, version and resource.
pub open spec fn is_streamer_use_case(source: UriView, sink: UriView) -> bool {
    &&& source.authority_name == wildcard_authority()
    &&& source.ue_id == 0x0000_FFFF
    &&& source.ue_version_major == 0xFF
    &&& source.resource_id == 0xFFFF
    &&& sink.authority_name != wildcard_authority()
    &&& sink.ue_id == 0x0000_FFFF
    &&& sink.ue_version_major == 0xFF
    &&& sink.resource_id == 0xFFFF
}

/// Whether a registration or a message is looked at when registering a listener or when
/// sending a message.
pub enum DeterminationType {
    Register,
    Send,
}

/// The kind that a source and a sink filter stand for.
///
/// With a sink: the streamer use case is `AllPointToPoint(0xFFFF)`; otherwise a sink with
/// resource id 0 is a `Response`, any other sink a `Request`.  Without a sink it is a
/// `Publish`.  The client id is the low half of the sink's uEntity id when registering and
/// of the source's when sending; a publish registration uses the transport's own uEntity id.
pub open spec fn spec_determine_type(
    source: UriView,
    sink: Option<UriView>,
    my_ue_id: UeId,
    registering: bool,
) -> RegistrationType {
    match sink {
        Some(sink) => {
            if is_streamer_use_case(source, sink) {
                RegistrationType::AllPointToPoint(all_point_to_point_client_id())
            } else {
                let client_id = if registering {
                    sink.ue_id as ClientId
                } else {
                    source.ue_id as ClientId
                };
                if sink.resource_id == 0 {
                    RegistrationType::Response(client_id)
                } else {
                    RegistrationType::Request(client_id)
                }
            }
        },
        None => {
            let client_id = if registering {
                my_ue_id
            } else {
                source.ue_id as ClientId
            };
            RegistrationType::Publish(client_id)
        },
    }
}

fn streamer_use_case(source_filter: &Uri, sink_filter: &Uri) -> (b: bool)
    ensures
        b == is_streamer_use_case(source_filter@, sink_filter@),
{
    is_wildcard_authority(&source_filter.authority_name) && source_filter.ue_id == 0x0000_FFFF
        && source_filter.ue_version_major == 0xFF && source_filter.resource_id == 0xFFFF
        && !is_wildcard_authority(&sink_filter.authority_name) && sink_filter.ue_id == 0x0000_FFFF
        && sink_filter.ue_version_major == 0xFF && sink_filter.resource_id == 0xFFFF
}

fn determine_type(
    source_filter: &Uri,
    sink_filter: &Option<Uri>,
    my_ue_id: Option<UeId>,
    determination_type: DeterminationType,
) -> (r: Result<RegistrationType, StatusCode>)
    requires
        (determination_type is Register) ==> my_ue_id is Some,
    ensures
        r == Ok::<RegistrationType, StatusCode>(spec_determine_type(
            source_filter@,
            opt_uri_view(*sink_filter),
            match my_ue_id {
                Some(id) => id,
                None => 0,
            },
            determination_type is Register,
        )),
{
    if let Some(sink_filter) = sink_filter {
        if streamer_use_case(source_filter, sink_filter) {
            return Ok(RegistrationType::AllPointToPoint(0xFFFF));
        }
        let client_id = match determination_type {
            DeterminationType::Register => sink_filter.ue_id as ClientId,
            DeterminationType::Send => source_filter.ue_id as ClientId,
        };
        if sink_filter.resource_id == 0 {
            Ok(RegistrationType::Response(client_id))
        } else {
            Ok(RegistrationType::Request(client_id))
        }
    } else {
        let client_id = match determination_type {
            DeterminationType::Register => match my_ue_id {
                Some(id) => id,
                None => 0,
            },
            DeterminationType::Send => source_filter.ue_id as ClientId,
        };
        Ok(RegistrationType::Publish(client_id))
    }
}

/// Infers the kind of registration that a listener's source and sink filters ask for.
pub fn determine_registration_type(
    source_filter: &Uri,
    sink_filter: &Option<Uri>,
    my_ue_id: UeId,
) -> (r: Result<RegistrationType, StatusCode>)
    ensures
        r == Ok::<RegistrationType, StatusCode>(
            spec_determine_type(source_filter@, opt_uri_view(*sink_filter), my_ue_id, true),
        ),
{
    determine_type(source_filter, sink_filter, Some(my_ue_id), DeterminationType::Register)
}

/// Infers the kind of an outgoing message from its source and sink.
pub fn determine_send_type(source_filter: &Uri, sink_filter: &Option<Uri>) -> (r: Result<
    RegistrationType,
    StatusCode,
>)
    ensures
        r == Ok::<RegistrationType, StatusCode>(
            spec_determine_type(source_filter@, opt_uri_view(*sink_filter), 0, false),
        ),
{
    determine_type(source_filter, sink_filter, None, DeterminationType::Send)
}

/// Infers the kind of a message from its source and sink (the same rule as for sending).
pub fn determine_message_type(source_filter: &Uri, sink_filter: &Option<Uri>) -> (r: Result<
    RegistrationType,
    StatusCode,
>)
    ensures
        r == Ok::<RegistrationType, StatusCode>(
            spec_determine_type(source_filter@, opt_uri_view(*sink_filter), 0, false),
        ),
{
    determine_type(source_filter, sink_filter, None, DeterminationType::Send)
}


/// The client id that a registration type gives is the one that it carries, whatever the
/// variant.
pub proof fn lemma_client_id_is_carried(t: RegistrationType)
    ensures
        match t {
            RegistrationType::Publish(c) => t.spec_client_id() == c,
            RegistrationType::Request(c) => t.spec_client_id() == c,
            RegistrationType::Response(c) => t.spec_client_id() == c,
            RegistrationType::AllPointToPoint(c) => t.spec_client_id() == c,
        },
{
}

/// Sending: a message is served by the application of its source's uEntity. Apart from the
/// streamer use case (which is `AllPointToPoint(0xFFFF)`), the kind carries the low 16 bits
/// of the source's uEntity id, whatever the sink; the kind is a publish without a sink, a
/// response towards a sink of resource 0, and a request towards any other sink.
pub proof fn lemma_send_type_is_served_by_source(source: UriView, sink: Option<UriView>)
    ensures
        ({
            let t = spec_determine_type(source, sink, 0, false);
            let c = (source.ue_id % 0x1_0000) as ClientId;
            match sink {
                None => t == RegistrationType::Publish(c),
                Some(s) => if is_streamer_use_case(source, s) {
                    t == RegistrationType::AllPointToPoint(0xFFFF)
                } else if s.resource_id == 0 {
                    t == RegistrationType::Response(c)
                } else {
                    t == RegistrationType::Request(c)
                },
            }
        }),
{
    let x = source.ue_id;
    assert((x as ClientId) == ((x % 0x1_0000) as ClientId)) by (bit_vector);
}

/// Registering: a listener for requests or responses is served by the application of its
/// sink's uEntity (the low 16 bits of its id), a publish listener by the transport's own
/// uEntity, and the streamer use case by the point-to-point client id `0xFFFF`.
pub proof fn lemma_registration_type_is_served_by_sink(source: UriView, sink: Option<UriView>, my_ue_id: UeId)
    ensures
        ({
            let t = spec_determine_type(source, sink, my_ue_id, true);
            match sink {
                None => t == RegistrationType::Publish(my_ue_id),
                Some(s) => if is_streamer_use_case(source, s) {
                    t == RegistrationType::AllPointToPoint(0xFFFF)
                } else if s.resource_id == 0 {
                    t == RegistrationType::Response((s.ue_id % 0x1_0000) as ClientId)
                } else {
                    t == RegistrationType::Request((s.ue_id % 0x1_0000) as ClientId)
                },
            }
        }),
{
    if let Some(s) = sink {
        let x = s.ue_id;
        assert((x as ClientId) == ((x % 0x1_0000) as ClientId)) by (bit_vector);
    }
}

} // verus!
