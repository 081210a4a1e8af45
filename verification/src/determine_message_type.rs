//! Which kind of registration a pair of source and sink filters stands for, judged by the
//! uProtocol wildcard rules.

use crate::status::StatusCode;
use crate::uri::{Uri, UriView};
use vstd::prelude::*;

verus! {

/// The kind of a registration.
#[derive(Clone, Copy, Debug, PartialEq, Eq, Structural)]
pub enum RegistrationType {
    Publish,
    Request,
    Response,
    AllPointToPoint,
}

/// The streamer use case by the wildcard rules: a source of any authority (the wildcard
/// authority) towards a sink of one authority that is not the wildcard, with the uEntity
/// type, version and resource of both source and sink the wildcards. The uEntity instance
/// is not looked at: the transport writes "any uEntity" as `0x0000_FFFF`, the type wildcard
/// with instance 0.
pub open spec fn is_wildcard_streamer_use_case(source: UriView, sink: UriView) -> bool {
    &&& source.has_wildcard_authority()
    &&& source.has_wildcard_entity_type()
    &&& source.has_wildcard_version()
    &&& source.has_wildcard_resource_id()
    &&& !sink.has_wildcard_authority()
    &&& sink.has_wildcard_entity_type()
    &&& sink.has_wildcard_version()
    &&& sink.has_wildcard_resource_id()
}

/// The kind that a source and an optional sink filter stand for.
pub open spec fn spec_determine_type(source: UriView, sink: Option<UriView>) -> RegistrationType {
    match sink {
        Some(sink) => {
            if is_wildcard_streamer_use_case(source, sink) {
                RegistrationType::AllPointToPoint
            } else if sink.resource_id == 0 {
                RegistrationType::Response
            } else {
                RegistrationType::Request
            }
        },
        None => RegistrationType::Publish,
    }
}

/// Determines the kind of registration of a source and sink filter.
pub fn determine_type(source_filter: &Uri, sink_filter: &Option<Uri>) -> (r: Result<
    RegistrationType,
    StatusCode,
>)
    ensures
        r == Ok::<RegistrationType, StatusCode>(spec_determine_type(
            source_filter@,
            match sink_filter {
                Some(s) => Some(s@),
                None => None,
            },
        )),
{
    if let Some(sink_filter) = sink_filter {
        let streamer_use_case = source_filter.has_wildcard_authority()
            && source_filter.has_wildcard_entity_type() && source_filter.has_wildcard_version()
            && source_filter.has_wildcard_resource_id() && !sink_filter.has_wildcard_authority()
            && sink_filter.has_wildcard_entity_type() && sink_filter.has_wildcard_version()
            && sink_filter.has_wildcard_resource_id();
        if streamer_use_case {
            return Ok(RegistrationType::AllPointToPoint);
        }
        if sink_filter.resource_id == 0 {
            Ok(RegistrationType::Response)
        } else {
            Ok(RegistrationType::Request)
        }
    } else {
        Ok(RegistrationType::Publish)
    }
}

} // verus!
