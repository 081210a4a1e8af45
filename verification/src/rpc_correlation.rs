//! Correlation of uProtocol request ids with SOME/IP request ids, in both directions, and
//! the session ids handed out per vsomeip client.

use crate::status::StatusCode;
use crate::{ClientId, SessionId, SomeIpRequestId};
use std::collections::HashMap;
use vstd::prelude::*;

verus! {

broadcast use vstd::std_specs::hash::group_hash_axioms;

/// A uProtocol request id (a UUID), as one 128-bit number: the most significant 64 bits of
/// the UUID in the high half, the least significant 64 bits in the low half.
pub type UProtocolReqId = u128;

/// What the correlation registry holds.
pub struct RpcCorrelationView {
    /// SOME/IP request id of a request that this uEntity sent -> uProtocol id of that request
    pub ue_request_correlation: Map<SomeIpRequestId, UProtocolReqId>,
    /// uProtocol id given to a request that came in from SOME/IP -> its SOME/IP request id
    pub me_request_correlation: Map<UProtocolReqId, SomeIpRequestId>,
    /// next session id to hand out, per vsomeip client
    pub session_ids: Map<ClientId, SessionId>,
}

/// Request/response correlation and session id tracking.
pub struct InMemoryRpcCorrelationRegistry {
    ue_request_correlation: HashMap<SomeIpRequestId, UProtocolReqId>,
    me_request_correlation: HashMap<UProtocolReqId, SomeIpRequestId>,
    client_id_session_id_tracking: HashMap<ClientId, SessionId>,
}

impl View for InMemoryRpcCorrelationRegistry {
    type V = RpcCorrelationView;

    closed spec fn view(&self) -> RpcCorrelationView {
        RpcCorrelationView {
            ue_request_correlation: self.ue_request_correlation@,
            me_request_correlation: self.me_request_correlation@,
            session_ids: self.client_id_session_id_tracking@,
        }
    }
}

/// The session id that the next request of a client gets: the tracked one, or 1 for a client
/// that has not sent yet.
pub open spec fn next_session_id(sessions: Map<ClientId, SessionId>, client_id: ClientId) -> SessionId {
    if sessions.contains_key(client_id) {
        sessions[client_id]
    } else {
        1
    }
}

impl InMemoryRpcCorrelationRegistry {
    /// Creates an empty registry.
    pub fn new() -> (r: Self)
        ensures
            r@.ue_request_correlation == Map::<SomeIpRequestId, UProtocolReqId>::empty(),
            r@.me_request_correlation == Map::<UProtocolReqId, SomeIpRequestId>::empty(),
            r@.session_ids == Map::<ClientId, SessionId>::empty(),
    {
        InMemoryRpcCorrelationRegistry {
            ue_request_correlation: HashMap::new(),
            me_request_correlation: HashMap::new(),
            client_id_session_id_tracking: HashMap::new(),
        }
    }

    /// The session id that the next request of a client gets, without handing it out.
    pub fn next_session_id(&self, client_id: ClientId) -> (session_id: SessionId)
        ensures
            session_id == next_session_id(self@.session_ids, client_id),
    {
        match self.client_id_session_id_tracking.get(&client_id) {
            Some(s) => *s,
            None => 1,
        }
    }

    /// Hands out the current session id of a client (1 the first time) and advances it by one.
    ///
    /// A client whose session id has reached 0xFFFF cannot advance any further.
    pub fn retrieve_session_id(&mut self, client_id: ClientId) -> (session_id: SessionId)
        requires
            next_session_id(old(self)@.session_ids, client_id) < 0xFFFF,
        ensures
            session_id == next_session_id(old(self)@.session_ids, client_id),
            final(self)@.session_ids == old(self)@.session_ids.insert(client_id, (session_id + 1) as SessionId),
            final(self)@.ue_request_correlation == old(self)@.ue_request_correlation,
            final(self)@.me_request_correlation == old(self)@.me_request_correlation,
    {
        let current = match self.client_id_session_id_tracking.get(&client_id) {
            Some(s) => *s,
            None => 1,
        };
        self.client_id_session_id_tracking.insert(client_id, current + 1);
        current
    }

    /// Remembers which uProtocol request a SOME/IP request id belongs to; refuses an id that
    /// is already held.
    pub fn insert_ue_request_correlation(
        &mut self,
        someip_request_id: SomeIpRequestId,
        uprotocol_req_id: UProtocolReqId,
    ) -> (r: Result<(), StatusCode>)
        ensures
            old(self)@.ue_request_correlation.contains_key(someip_request_id) ==> {
                &&& r == Err::<(), StatusCode>(StatusCode::ALREADY_EXISTS)
                &&& final(self)@ == old(self)@
            },
            !old(self)@.ue_request_correlation.contains_key(someip_request_id) ==> {
                &&& r is Ok
                &&& final(self)@.ue_request_correlation == old(self)@.ue_request_correlation.insert(
                    someip_request_id,
                    uprotocol_req_id,
                )
                &&& final(self)@.me_request_correlation == old(self)@.me_request_correlation
                &&& final(self)@.session_ids == old(self)@.session_ids
            },
    {
        if self.ue_request_correlation.contains_key(&someip_request_id) {
            Err(StatusCode::ALREADY_EXISTS)
        } else {
            self.ue_request_correlation.insert(someip_request_id, uprotocol_req_id);
            Ok(())
        }
    }

    /// Takes out the uProtocol request id held for a SOME/IP request id.
    pub fn remove_ue_request_correlation(&mut self, someip_request_id: SomeIpRequestId) -> (r:
        Result<UProtocolReqId, StatusCode>)
        ensures
            old(self)@.ue_request_correlation.contains_key(someip_request_id) ==> {
                &&& r == Ok::<UProtocolReqId, StatusCode>(
                    old(self)@.ue_request_correlation[someip_request_id],
                )
                &&& final(self)@.ue_request_correlation == old(self)@.ue_request_correlation.remove(
                    someip_request_id,
                )
                &&& final(self)@.me_request_correlation == old(self)@.me_request_correlation
                &&& final(self)@.session_ids == old(self)@.session_ids
            },
            !old(self)@.ue_request_correlation.contains_key(someip_request_id) ==> {
                &&& r == Err::<UProtocolReqId, StatusCode>(StatusCode::NOT_FOUND)
                &&& final(self)@ == old(self)@
            },
    {
        match self.ue_request_correlation.remove(&someip_request_id) {
            Some(uprotocol_req_id) => Ok(uprotocol_req_id),
            None => {
                assert(self.ue_request_correlation@ =~= old(self).ue_request_correlation@);
                Err(StatusCode::NOT_FOUND)
            },
        }
    }

    /// Remembers which SOME/IP request a uProtocol request id stands for; refuses an id that
    /// is already held.
    pub fn insert_me_request_correlation(
        &mut self,
        uprotocol_req_id: UProtocolReqId,
        someip_request_id: SomeIpRequestId,
    ) -> (r: Result<(), StatusCode>)
        ensures
            old(self)@.me_request_correlation.contains_key(uprotocol_req_id) ==> {
                &&& r == Err::<(), StatusCode>(StatusCode::ALREADY_EXISTS)
                &&& final(self)@ == old(self)@
            },
            !old(self)@.me_request_correlation.contains_key(uprotocol_req_id) ==> {
                &&& r is Ok
                &&& final(self)@.me_request_correlation == old(self)@.me_request_correlation.insert(
                    uprotocol_req_id,
                    someip_request_id,
                )
                &&& final(self)@.ue_request_correlation == old(self)@.ue_request_correlation
                &&& final(self)@.session_ids == old(self)@.session_ids
            },
    {
        if self.me_request_correlation.contains_key(&uprotocol_req_id) {
            Err(StatusCode::ALREADY_EXISTS)
        } else {
            self.me_request_correlation.insert(uprotocol_req_id, someip_request_id);
            Ok(())
        }
    }

    /// Takes out the SOME/IP request id held for a uProtocol request id.
    pub fn remove_me_request_correlation(&mut self, uprotocol_req_id: UProtocolReqId) -> (r:
        Result<SomeIpRequestId, StatusCode>)
        ensures
            old(self)@.me_request_correlation.contains_key(uprotocol_req_id) ==> {
                &&& r == Ok::<SomeIpRequestId, StatusCode>(
                    old(self)@.me_request_correlation[uprotocol_req_id],
                )
                &&& final(self)@.me_request_correlation == old(self)@.me_request_correlation.remove(
                    uprotocol_req_id,
                )
                &&& final(self)@.ue_request_correlation == old(self)@.ue_request_correlation
                &&& final(self)@.session_ids == old(self)@.session_ids
            },
            !old(self)@.me_request_correlation.contains_key(uprotocol_req_id) ==> {
                &&& r == Err::<SomeIpRequestId, StatusCode>(StatusCode::NOT_FOUND)
                &&& final(self)@ == old(self)@
            },
    {
        match self.me_request_correlation.remove(&uprotocol_req_id) {
            Some(someip_request_id) => Ok(someip_request_id),
            None => {
                assert(self.me_request_correlation@ =~= old(self).me_request_correlation@);
                Err(StatusCode::NOT_FOUND)
            },
        }
    }
}


/// Remembering the uProtocol id of a SOME/IP request id that holds none, and taking it out
/// again, gives that uProtocol id back and leaves the registry as it was.
pub proof fn lemma_ue_correlation_round_trip(
    rpc: RpcCorrelationView,
    someip_request_id: SomeIpRequestId,
    uprotocol_req_id: UProtocolReqId,
)
    requires
        !rpc.ue_request_correlation.contains_key(someip_request_id),
    ensures
        ({
            let rpc1 = RpcCorrelationView {
                ue_request_correlation: rpc.ue_request_correlation.insert(someip_request_id, uprotocol_req_id),
                ..rpc
            };
            &&& rpc1.ue_request_correlation.contains_key(someip_request_id)
            &&& rpc1.ue_request_correlation[someip_request_id] == uprotocol_req_id
            &&& (RpcCorrelationView {
                ue_request_correlation: rpc1.ue_request_correlation.remove(someip_request_id),
                ..rpc1
            }) == rpc
        }),
{
    assert(rpc.ue_request_correlation.insert(someip_request_id, uprotocol_req_id).remove(someip_request_id)
        =~= rpc.ue_request_correlation);
}

/// Remembering the SOME/IP request id of a uProtocol id that holds none, and taking it out
/// again, gives that SOME/IP request id back and leaves the registry as it was.
pub proof fn lemma_me_correlation_round_trip(
    rpc: RpcCorrelationView,
    uprotocol_req_id: UProtocolReqId,
    someip_request_id: SomeIpRequestId,
)
    requires
        !rpc.me_request_correlation.contains_key(uprotocol_req_id),
    ensures
        ({
            let rpc1 = RpcCorrelationView {
                me_request_correlation: rpc.me_request_correlation.insert(uprotocol_req_id, someip_request_id),
                ..rpc
            };
            &&& rpc1.me_request_correlation.contains_key(uprotocol_req_id)
            &&& rpc1.me_request_correlation[uprotocol_req_id] == someip_request_id
            &&& (RpcCorrelationView {
                me_request_correlation: rpc1.me_request_correlation.remove(uprotocol_req_id),
                ..rpc1
            }) == rpc
        }),
{
    assert(rpc.me_request_correlation.insert(uprotocol_req_id, someip_request_id).remove(uprotocol_req_id)
        =~= rpc.me_request_correlation);
}

/// The session ids that a client gets count up by one from call to call, from 1.
pub proof fn lemma_session_ids_count_up(sessions: Map<ClientId, SessionId>, client_id: ClientId)
    requires
        next_session_id(sessions, client_id) < 0xFFFF,
    ensures
        next_session_id(
            sessions.insert(client_id, (next_session_id(sessions, client_id) + 1) as SessionId),
            client_id,
        ) == next_session_id(sessions, client_id) + 1,
        !sessions.contains_key(client_id) ==> next_session_id(sessions, client_id) == 1,
{
}

} // verus!
