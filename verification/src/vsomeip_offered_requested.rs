//! Which SOME/IP services and events this transport has offered or requested already.

use crate::{EventId, InstanceId, MethodId, ServiceId};
use std::collections::HashSet;
use vstd::prelude::*;

verus! {

broadcast use vstd::std_specs::hash::group_hash_axioms;

/// A service, instance and method (or event) id.
pub type ServiceTriple = (ServiceId, InstanceId, MethodId);

/// The number that a triple is stored under: service in bits 32..48, instance in bits
/// 16..32, method in bits 0..16.
pub open spec fn triple_key(t: ServiceTriple) -> u64 {
    (t.0 as nat * 0x1_0000_0000 + t.1 as nat * 0x1_0000 + t.2 as nat) as u64
}

/// The parts of a triple can be read back from its number.
proof fn lemma_triple_key_parts(t: ServiceTriple)
    ensures
        (triple_key(t) as int) % 0x1_0000 == t.2 as int,
        ((triple_key(t) as int) / 0x1_0000) % 0x1_0000 == t.1 as int,
        ((triple_key(t) as int) / 0x1_0000) / 0x1_0000 == t.0 as int,
{
    let hi = t.0 as int * 0x1_0000 + t.1 as int;
    let k = t.0 as nat * 0x1_0000_0000 + t.1 as nat * 0x1_0000 + t.2 as nat;
    assert(k == hi * 0x1_0000 + t.2 as int);
    assert(k < 0x1_0000_0000_0000) by (nonlinear_arith)
        requires k == hi * 0x1_0000 + t.2 as int, hi < 0x1_0000 * 0x1_0000, t.2 < 0x1_0000, hi >= 0;
    assert(triple_key(t) as int == k);
    vstd::arithmetic::div_mod::lemma_fundamental_div_mod_converse(k as int, 0x1_0000, hi, t.2 as int);
    vstd::arithmetic::div_mod::lemma_fundamental_div_mod_converse(hi, 0x1_0000, t.0 as int, t.1 as int);
}

proof fn lemma_triple_key_injective(a: ServiceTriple, b: ServiceTriple)
    ensures
        triple_key(a) == triple_key(b) ==> a == b,
{
    lemma_triple_key_parts(a);
    lemma_triple_key_parts(b);
}

fn make_triple_key(service_id: ServiceId, instance_id: InstanceId, method_id: MethodId) -> (k: u64)
    ensures
        k == triple_key((service_id, instance_id, method_id)),
{
    let k = (service_id as u64) * 0x1_0000_0000 + (instance_id as u64) * 0x1_0000 + method_id as u64;
    assert(k as nat == service_id as nat * 0x1_0000_0000 + instance_id as nat * 0x1_0000 + method_id as nat) by (nonlinear_arith)
        requires k == (service_id as u64) * 0x1_0000_0000 + (instance_id as u64) * 0x1_0000 + method_id as u64,
            service_id < 0x1_0000, instance_id < 0x1_0000, method_id < 0x1_0000;
    k
}

/// A set of service triples.
pub struct TripleSet {
    keys: HashSet<u64>,
}

impl View for TripleSet {
    type V = Set<ServiceTriple>;

    closed spec fn view(&self) -> Set<ServiceTriple> {
        Set::new(|t: ServiceTriple| self.keys@.contains(triple_key(t)))
    }
}

impl TripleSet {
    /// An empty set.
    pub fn new() -> (s: Self)
        ensures
            s@ == Set::<ServiceTriple>::empty(),
    {
        let s = TripleSet { keys: HashSet::new() };
        assert(s@ =~= Set::<ServiceTriple>::empty());
        s
    }

    /// Whether the set holds a (service, instance, method) triple.
    pub fn contains(&self, service_id: ServiceId, instance_id: InstanceId, method_id: MethodId) -> (b: bool)
        ensures
            b == self@.contains((service_id, instance_id, method_id)),
    {
        let k = make_triple_key(service_id, instance_id, method_id);
        self.keys.contains(&k)
    }

    /// Adds a (service, instance, method) triple.
    pub fn insert(&mut self, service_id: ServiceId, instance_id: InstanceId, method_id: MethodId)
        ensures
            final(self)@ == old(self)@.insert((service_id, instance_id, method_id)),
    {
        let ghost t = (service_id, instance_id, method_id);
        let k = make_triple_key(service_id, instance_id, method_id);
        self.keys.insert(k);
        proof {
            assert forall|u: ServiceTriple| #[trigger] self@.contains(u) == old(self)@.insert(t).contains(u) by {
                lemma_triple_key_injective(u, t);
            }
            assert(self@ =~= old(self)@.insert(t));
        }
    }
}

/// What the registry holds.
pub struct OfferedRequestedView {
    pub offered_services: Set<ServiceTriple>,
    pub requested_services: Set<ServiceTriple>,
    pub offered_events: Set<ServiceTriple>,
    pub requested_events: Set<ServiceTriple>,
}

/// The services and events offered and requested so far.
pub struct VsomeipOfferedRequestedRegistry {
    offered_services: TripleSet,
    requested_services: TripleSet,
    offered_events: TripleSet,
    requested_events: TripleSet,
}

impl View for VsomeipOfferedRequestedRegistry {
    type V = OfferedRequestedView;

    closed spec fn view(&self) -> OfferedRequestedView {
        OfferedRequestedView {
            offered_services: self.offered_services@,
            requested_services: self.requested_services@,
            offered_events: self.offered_events@,
            requested_events: self.requested_events@,
        }
    }
}

impl VsomeipOfferedRequestedRegistry {
    /// A registry in which nothing is offered or requested.
    pub fn new() -> (r: Self)
        ensures
            r@.offered_services.is_empty(),
            r@.requested_services.is_empty(),
            r@.offered_events.is_empty(),
            r@.requested_events.is_empty(),
    {
        VsomeipOfferedRequestedRegistry {
            offered_services: TripleSet::new(),
            requested_services: TripleSet::new(),
            offered_events: TripleSet::new(),
            requested_events: TripleSet::new(),
        }
    }

    /// Whether a method of a service instance has been offered.
    pub fn is_service_offered(&self, service_id: ServiceId, instance_id: InstanceId, method_id: MethodId) -> (b: bool)
        ensures
            b == self@.offered_services.contains((service_id, instance_id, method_id)),
    {
        self.offered_services.contains(service_id, instance_id, method_id)
    }

    /// Records that a method of a service instance has been offered.
    pub fn insert_service_offered(&mut self, service_id: ServiceId, instance_id: InstanceId, method_id: MethodId)
        ensures
            final(self)@ == (OfferedRequestedView {
                offered_services: old(self)@.offered_services.insert((service_id, instance_id, method_id)),
                ..old(self)@
            }),
    {
        self.offered_services.insert(service_id, instance_id, method_id)
    }

    /// Whether a method of a service instance has been requested.
    pub fn is_service_requested(&self, service_id: ServiceId, instance_id: InstanceId, method_id: MethodId) -> (b: bool)
        ensures
            b == self@.requested_services.contains((service_id, instance_id, method_id)),
    {
        self.requested_services.contains(service_id, instance_id, method_id)
    }

    /// Records that a method of a service instance has been requested.
    pub fn insert_service_requested(&mut self, service_id: ServiceId, instance_id: InstanceId, method_id: MethodId)
        ensures
            final(self)@ == (OfferedRequestedView {
                requested_services: old(self)@.requested_services.insert((service_id, instance_id, method_id)),
                ..old(self)@
            }),
    {
        self.requested_services.insert(service_id, instance_id, method_id)
    }

    /// Whether an event of a service instance has been offered.
    pub fn is_event_offered(&self, service_id: ServiceId, instance_id: InstanceId, event_id: EventId) -> (b: bool)
        ensures
            b == self@.offered_events.contains((service_id, instance_id, event_id)),
    {
        self.offered_events.contains(service_id, instance_id, event_id)
    }

    /// Records that an event of a service instance has been offered.
    pub fn insert_event_offered(&mut self, service_id: ServiceId, instance_id: InstanceId, event_id: EventId)
        ensures
            final(self)@ == (OfferedRequestedView {
                offered_events: old(self)@.offered_events.insert((service_id, instance_id, event_id)),
                ..old(self)@
            }),
    {
        self.offered_events.insert(service_id, instance_id, event_id)
    }

    /// Whether an event of a service instance has been requested.
    pub fn is_event_requested(&self, service_id: ServiceId, instance_id: InstanceId, event_id: EventId) -> (b: bool)
        ensures
            b == self@.requested_events.contains((service_id, instance_id, event_id)),
    {
        self.requested_events.contains(service_id, instance_id, event_id)
    }

    /// Records that an event of a service instance has been requested.
    pub fn insert_event_requested(&mut self, service_id: ServiceId, instance_id: InstanceId, event_id: EventId)
        ensures
            final(self)@ == (OfferedRequestedView {
                requested_events: old(self)@.requested_events.insert((service_id, instance_id, event_id)),
                ..old(self)@
            }),
    {
        self.requested_events.insert(service_id, instance_id, event_id)
    }
}

} // verus!
