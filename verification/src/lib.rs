//! Verified core of a uProtocol uTransport over SOME/IP (vsomeip).
//!
//! The library holds the bookkeeping and the decisions of the transport:
//! how source and sink filters map onto SOME/IP registrations, how
//! request identifiers are built and split, how requests and responses are
//! correlated in both directions, which message handler slots are in use,
//! and how uProtocol messages map onto SOME/IP message headers and back.
//! Talking to the vsomeip C++ library itself is left to the caller.

pub mod ids;
pub mod status;
pub mod uri;
pub mod determinations;
pub mod determine_message_type;
pub mod rpc_correlation;
pub mod listener_config_map;
pub mod id_pool;
pub mod message_handler_registry;
pub mod application_state_availability_handler_registry;
pub mod vsomeip_offered_requested;
pub mod message_conversions;
pub mod transport_engine;
pub mod application_registry;
pub mod vsomeip_config;
pub mod transport;
pub mod listener_registry;
pub mod attributes;
pub mod umessage;
pub mod transport_plan;

pub use determinations::RegistrationType;
pub use ids::{create_request_id, split_u32_to_u16, split_u32_to_u8};

use vstd::prelude::*;

verus! {

/// A uProtocol authority name
pub type AuthorityName = String;
/// A uProtocol uEntity id
pub type UeId = u16;
/// A vsomeip application's numeric identifier
pub type ClientId = u16;
/// A vsomeip application's string-form identifier
pub type ApplicationName = String;
/// A request ID used with vsomeip: client id in the high half, session id in the low half
pub type SomeIpRequestId = u32;
/// A session ID used with vsomeip
pub type SessionId = u16;
/// A service ID used with vsomeip
pub type ServiceId = u16;
/// An instance ID used with vsomeip
pub type InstanceId = u16;
/// A method ID used with vsomeip
pub type MethodId = u16;
/// An event ID used with vsomeip
pub type EventId = u16;
/// The id of a pre-generated message handler slot
pub type MessageHandlerId = usize;

} // verus!
