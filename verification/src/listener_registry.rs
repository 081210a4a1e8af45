//! The listener bookkeeping of the transport's first generation: listener configurations
//! mapped to listener ids, and per listener id its authorities, its listener and the client
//! id of its application.

use crate::id_pool::{take_available_id};
use crate::listener_config_map::{config_view, ListenerConfigKey, ListenerConfigView, ListenerKey, UriKey};
use crate::status::StatusCode;
use crate::{AuthorityName, ClientId};
use std::collections::{HashMap, HashSet};
use vstd::prelude::*;

verus! {

broadcast use vstd::std_specs::hash::group_hash_axioms;

/// What the registry holds.
#[verifier::ext_equal]
pub struct ListenerRegistryView {
    /// listener configuration -> listener id
    pub listener_ids: Map<ListenerConfigView, usize>,
    pub authority_names: Map<usize, Seq<char>>,
    pub remote_authority_names: Map<usize, Seq<char>>,
    /// listener id -> listener
    pub listeners: Map<usize, ListenerKey>,
    /// listener id -> client id of its application
    pub client_ids: Map<usize, ClientId>,
    /// listener ids free to hand out
    pub free_ids: Set<usize>,
}

/// The map that a list of (configuration, id) pairs with distinct configurations stands for.
pub open spec fn pairs_map(s: Seq<(ListenerConfigKey, usize)>) -> Map<ListenerConfigView, usize> {
    Map::new(
        |k: ListenerConfigView| exists|i: int| 0 <= i < s.len() && config_view(#[trigger] s[i].0) == k,
        |k: ListenerConfigView| s[choose|i: int| 0 <= i < s.len() && config_view(#[trigger] s[i].0) == k].1,
    )
}

/// No configuration occurs twice in the list.
pub open spec fn distinct_configs(s: Seq<(ListenerConfigKey, usize)>) -> bool {
    forall|i: int, j: int|
        #![trigger s[i].0, s[j].0]
        0 <= i < s.len() && 0 <= j < s.len() && config_view(s[i].0) == config_view(s[j].0) ==> i == j
}

proof fn lemma_pairs_map_at(s: Seq<(ListenerConfigKey, usize)>, i: int)
    requires
        distinct_configs(s),
        0 <= i < s.len(),
    ensures
        pairs_map(s).contains_key(config_view(s[i].0)),
        pairs_map(s)[config_view(s[i].0)] == s[i].1,
{
    let k = config_view(s[i].0);
    assert(exists|j: int| 0 <= j < s.len() && config_view(#[trigger] s[j].0) == k);
    let j = choose|j: int| 0 <= j < s.len() && config_view(#[trigger] s[j].0) == k;
    assert(j == i);
}

proof fn lemma_pairs_map_remove(s: Seq<(ListenerConfigKey, usize)>, i: int)
    requires
        distinct_configs(s),
        0 <= i < s.len(),
    ensures
        distinct_configs(s.remove(i)),
        pairs_map(s.remove(i)) =~= pairs_map(s).remove(config_view(s[i].0)),
{
    let t = s.remove(i);
    let kv = config_view(s[i].0);
    assert forall|a: int, b: int|
        #![trigger t[a].0, t[b].0]
        0 <= a < t.len() && 0 <= b < t.len() && config_view(t[a].0) == config_view(t[b].0)
        implies a == b by {
        let a2 = if a < i { a } else { a + 1 };
        let b2 = if b < i { b } else { b + 1 };
        assert(t[a] == s[a2] && t[b] == s[b2]);
        assert(config_view(s[a2].0) == config_view(s[b2].0));
    }
    lemma_pairs_map_at(s, i);
    assert forall|k: ListenerConfigView| #[trigger] pairs_map(t).contains_key(k)
        == pairs_map(s).remove(kv).contains_key(k) by {
        if pairs_map(t).contains_key(k) {
            let j = choose|j: int| 0 <= j < t.len() && config_view(#[trigger] t[j].0) == k;
            let j2 = if j < i { j } else { j + 1 };
            assert(t[j] == s[j2]);
            lemma_pairs_map_at(s, j2);
        }
        if pairs_map(s).contains_key(k) && k != kv {
            let j = choose|j: int| 0 <= j < s.len() && config_view(#[trigger] s[j].0) == k;
            assert(j != i);
            let j2 = if j < i { j } else { j - 1 };
            assert(t[j2] == s[j]);
        }
    }
    assert forall|k: ListenerConfigView| #[trigger] pairs_map(t).contains_key(k) implies pairs_map(t)[k]
        == pairs_map(s).remove(kv)[k] by {
        let j = choose|j: int| 0 <= j < t.len() && config_view(#[trigger] t[j].0) == k;
        lemma_pairs_map_at(t, j);
        let j2 = if j < i { j } else { j + 1 };
        assert(t[j] == s[j2]);
        lemma_pairs_map_at(s, j2);
    }
}

/// Whether recording configuration `kv` under listener id `id` is refused: the
/// configuration is recorded already, or the id has an authority name or a remote authority
/// name already.
pub open spec fn insert_refused(o: ListenerRegistryView, kv: ListenerConfigView, id: usize) -> bool {
    ||| o.listener_ids.contains_key(kv)
    ||| o.authority_names.contains_key(id)
    ||| o.remote_authority_names.contains_key(id)
}

/// Recording configuration `kv` under listener id `id`, with the authority names: a refused
/// recording (see `insert_refused`) changes nothing and gives `false`; otherwise the
/// configuration and both names are recorded and the outcome is `true`.
pub open spec fn insert_steps(
    o: ListenerRegistryView,
    kv: ListenerConfigView,
    id: usize,
    authority_name: Seq<char>,
    remote_authority_name: Seq<char>,
) -> (ListenerRegistryView, bool) {
    if insert_refused(o, kv, id) {
        (o, false)
    } else {
        (
            ListenerRegistryView {
                listener_ids: o.listener_ids.insert(kv, id),
                authority_names: o.authority_names.insert(id, authority_name),
                remote_authority_names: o.remote_authority_names.insert(id, remote_authority_name),
                ..o
            },
            true,
        )
    }
}

/// The steps of releasing the listener registered under configuration `kv`, in order: the
/// configuration, the authority name, the remote authority name and the listener are
/// removed, the id goes back to the free ids, and the client id mapping is removed. The
/// first step that finds nothing to remove (or the id free already) stops there with
/// `INTERNAL`, keeping what the steps before it did.
pub open spec fn release_steps(o: ListenerRegistryView, kv: ListenerConfigView) -> (ListenerRegistryView, Result<(), StatusCode>) {
    if !o.listener_ids.contains_key(kv) {
        (o, Err(StatusCode::INTERNAL))
    } else {
        let id = o.listener_ids[kv];
        let s1 = ListenerRegistryView { listener_ids: o.listener_ids.remove(kv), ..o };
        if !s1.authority_names.contains_key(id) {
            (s1, Err(StatusCode::INTERNAL))
        } else {
            let s2 = ListenerRegistryView { authority_names: s1.authority_names.remove(id), ..s1 };
            if !s2.remote_authority_names.contains_key(id) {
                (s2, Err(StatusCode::INTERNAL))
            } else {
                let s3 = ListenerRegistryView { remote_authority_names: s2.remote_authority_names.remove(id), ..s2 };
                if !s3.listeners.contains_key(id) {
                    (s3, Err(StatusCode::INTERNAL))
                } else {
                    let s4 = ListenerRegistryView { listeners: s3.listeners.remove(id), ..s3 };
                    if s4.free_ids.contains(id) {
                        (s4, Err(StatusCode::INTERNAL))
                    } else {
                        let s5 = ListenerRegistryView { free_ids: s4.free_ids.insert(id), ..s4 };
                        if !s5.client_ids.contains_key(id) {
                            (s5, Err(StatusCode::INTERNAL))
                        } else {
                            (ListenerRegistryView { client_ids: s5.client_ids.remove(id), ..s5 }, Ok(()))
                        }
                    }
                }
            }
        }
    }
}

/// The steps of recording a listener under the free listener id `id`. A refused recording
/// (see `insert_refused`) gives the id back and changes nothing: `ALREADY_EXISTS`.
/// Otherwise the id is taken from the free ids, the configuration and the authority names
/// are recorded as `insert_steps` says, and the listener is recorded under the id, replacing
/// the one it held (which makes the outcome `INTERNAL`).
pub open spec fn record_steps(
    o: ListenerRegistryView,
    kv: ListenerConfigView,
    id: usize,
    authority_name: Seq<char>,
    remote_authority_name: Seq<char>,
    listener: ListenerKey,
) -> (ListenerRegistryView, Result<usize, StatusCode>) {
    if insert_refused(o, kv, id) {
        (o, Err(StatusCode::ALREADY_EXISTS))
    } else {
        let s1 = ListenerRegistryView { free_ids: o.free_ids.remove(id), ..o };
        let s2 = insert_steps(s1, kv, id, authority_name, remote_authority_name).0;
        (
            ListenerRegistryView { listeners: s2.listeners.insert(id, listener), ..s2 },
            if s2.listeners.contains_key(id) {
                Err(StatusCode::INTERNAL)
            } else {
                Ok(id)
            },
        )
    }
}

/// Recording a listener under a fresh configuration and a free id that nothing else uses,
/// then its client id, and then releasing it: the recording gives that id, the release
/// succeeds, and the registry is as it was before.
pub proof fn lemma_register_then_release_restores(
    o: ListenerRegistryView,
    kv: ListenerConfigView,
    id: usize,
    authority_name: Seq<char>,
    remote_authority_name: Seq<char>,
    listener: ListenerKey,
    client_id: ClientId,
)
    requires
        !o.listener_ids.contains_key(kv),
        o.free_ids.contains(id),
        !o.authority_names.contains_key(id),
        !o.remote_authority_names.contains_key(id),
        !o.listeners.contains_key(id),
        !o.client_ids.contains_key(id),
    ensures
        ({
            let (s, r) = record_steps(o, kv, id, authority_name, remote_authority_name, listener);
            let s_client = ListenerRegistryView { client_ids: s.client_ids.insert(id, client_id), ..s };
            &&& r == Ok::<usize, StatusCode>(id)
            &&& release_steps(s_client, kv) == (o, Ok::<(), StatusCode>(()))
        }),
{
    let (s, r) = record_steps(o, kv, id, authority_name, remote_authority_name, listener);
    let sc = ListenerRegistryView { client_ids: s.client_ids.insert(id, client_id), ..s };
    assert(sc.listener_ids.remove(kv) =~= o.listener_ids);
    assert(sc.authority_names.remove(id) =~= o.authority_names);
    assert(sc.remote_authority_names.remove(id) =~= o.remote_authority_names);
    assert(sc.listeners.remove(id) =~= o.listeners);
    assert(sc.client_ids.remove(id) =~= o.client_ids);
    assert(sc.free_ids.insert(id) =~= o.free_ids);
    assert(release_steps(sc, kv).0 =~= o);
}

/// Listener ids, their configurations, authorities, listeners and client ids.
///
/// The configurations are held in a list of distinct configurations, searched in order: a
/// configuration holds strings, and only integer keys have a known hash-table model.
pub struct ListenerRegistry {
    listener_id_map: Vec<(ListenerConfigKey, usize)>,
    listener_id_authority_name: HashMap<usize, AuthorityName>,
    listener_id_remote_authority_name: HashMap<usize, AuthorityName>,
    listener_registry: HashMap<usize, ListenerKey>,
    listener_id_client_id_mapping: HashMap<usize, ClientId>,
    free_listener_ids: HashSet<usize>,
}

/// The view of a map from ids to strings.
pub open spec fn strings_view(m: Map<usize, String>) -> Map<usize, Seq<char>> {
    Map::new(|k: usize| m.contains_key(k), |k: usize| m[k]@)
}

impl View for ListenerRegistry {
    type V = ListenerRegistryView;

    closed spec fn view(&self) -> ListenerRegistryView {
        ListenerRegistryView {
            listener_ids: pairs_map(self.listener_id_map@),
            authority_names: strings_view(self.listener_id_authority_name@),
            remote_authority_names: strings_view(self.listener_id_remote_authority_name@),
            listeners: self.listener_registry@,
            client_ids: self.listener_id_client_id_mapping@,
            free_ids: self.free_listener_ids@,
        }
    }
}

fn uri_key_eq(a: &UriKey, b: &UriKey) -> (r: bool)
    ensures
        r == (a.0@ == b.0@ && a.1 == b.1 && a.2 == b.2 && a.3 == b.3),
{
    a.0 == b.0 && a.1 == b.1 && a.2 == b.2 && a.3 == b.3
}

fn config_eq(a: &ListenerConfigKey, b: &ListenerConfigKey) -> (r: bool)
    ensures
        r == (config_view(*a) == config_view(*b)),
{
    let sinks = match (&a.1, &b.1) {
        (Some(x), Some(y)) => uri_key_eq(x, y),
        (None, None) => true,
        _ => false,
    };
    uri_key_eq(&a.0, &b.0) && sinks && a.2 == b.2
}

impl ListenerRegistry {
    /// Whether the registry's list holds distinct configurations.
    pub closed spec fn wf(&self) -> bool {
        distinct_configs(self.listener_id_map@)
    }

    /// A registry whose free ids are `0 .. num_listener_ids` and that holds nothing else.
    pub fn new(num_listener_ids: usize) -> (r: Self)
        ensures
            r.wf(),
            r@.listener_ids.is_empty(),
            r@.authority_names.is_empty(),
            r@.remote_authority_names.is_empty(),
            r@.listeners.is_empty(),
            r@.client_ids.is_empty(),
            r@.free_ids == Set::new(|id: usize| id < num_listener_ids),
    {
        let r = ListenerRegistry {
            listener_id_map: Vec::new(),
            listener_id_authority_name: HashMap::new(),
            listener_id_remote_authority_name: HashMap::new(),
            listener_registry: HashMap::new(),
            listener_id_client_id_mapping: HashMap::new(),
            free_listener_ids: crate::id_pool::full_pool(num_listener_ids),
        };
        assert(r@.listener_ids.dom() =~= Set::<ListenerConfigView>::empty());
        assert(r@.authority_names.dom() =~= Set::<usize>::empty());
        assert(r@.remote_authority_names.dom() =~= Set::<usize>::empty());
        r
    }

    fn find_config(&self, key: &ListenerConfigKey) -> (r: Option<usize>)
        requires
            self.wf(),
        ensures
            match r {
                Some(i) => i < self.listener_id_map@.len() && config_view(self.listener_id_map@[i as int].0) == config_view(*key),
                None => !self@.listener_ids.contains_key(config_view(*key)),
            },
    {
        let n = self.listener_id_map.len();
        let mut i: usize = 0;
        while i < n
            invariant
                n == self.listener_id_map@.len(),
                i <= n,
                forall|j: int| 0 <= j < i ==> config_view(#[trigger] self.listener_id_map@[j].0) != config_view(*key),
            decreases n - i,
        {
            if config_eq(&self.listener_id_map[i].0, key) {
                return Some(i);
            }
            i = i + 1;
        }
        None
    }

    /// Takes a free listener id; `RESOURCE_EXHAUSTED` when none is free.
    pub fn find_available_listener_id(&mut self) -> (r: Result<usize, StatusCode>)
        requires
            old(self).wf(),
        ensures
            final(self).wf(),
            match r {
                Ok(id) => old(self)@.free_ids.contains(id)
                    && final(self)@ == (ListenerRegistryView { free_ids: old(self)@.free_ids.remove(id), ..old(self)@ }),
                Err(code) => code == StatusCode::RESOURCE_EXHAUSTED && old(self)@.free_ids.is_empty()
                    && final(self)@ == old(self)@,
            },
    {
        take_available_id(&mut self.free_listener_ids)
    }

    /// Puts back a listener id that turned out not to be needed, because its configuration is
    /// registered already, and gives the status to report: `ALREADY_EXISTS`.
    pub fn free_listener_id(&mut self, listener_id: usize) -> (code: StatusCode)
        requires
            old(self).wf(),
        ensures
            final(self).wf(),
            code == StatusCode::ALREADY_EXISTS,
            final(self)@ == (ListenerRegistryView { free_ids: old(self)@.free_ids.insert(listener_id), ..old(self)@ }),
    {
        self.free_listener_ids.insert(listener_id);
        StatusCode::ALREADY_EXISTS
    }

    /// Records a listener configuration under a listener id, with the authority names: see
    /// `insert_steps`. A configuration recorded already, or an id that has an authority name
    /// already, is not recorded again, and nothing changes.
    pub fn insert_into_listener_id_map(
        &mut self,
        authority_name: &AuthorityName,
        remote_authority_name: &AuthorityName,
        key: ListenerConfigKey,
        listener_id: usize,
    ) -> (inserted: bool)
        requires
            old(self).wf(),
        ensures
            final(self).wf(),
            final(self)@ == insert_steps(old(self)@, config_view(key), listener_id, authority_name@, remote_authority_name@).0,
            inserted == insert_steps(old(self)@, config_view(key), listener_id, authority_name@, remote_authority_name@).1,
    {
        let ghost old_map = self.listener_id_map@;
        let ghost kv = config_view(key);
        let ghost o = self@;
        if self.find_config(&key).is_some() || self.listener_id_authority_name.contains_key(&listener_id)
            || self.listener_id_remote_authority_name.contains_key(&listener_id) {
            return false;
        }
        self.listener_id_map.push((key, listener_id));
        proof {
            let s = self.listener_id_map@;
            let n = old_map.len() as int;
            assert(s[n] == (key, listener_id));
            assert(distinct_configs(s)) by {
                assert forall|a: int, b: int|
                    #![trigger s[a].0, s[b].0]
                    0 <= a < s.len() && 0 <= b < s.len() && config_view(s[a].0) == config_view(s[b].0)
                    implies a == b by {
                    if a < n && b < n {
                        assert(old_map[a] == s[a] && old_map[b] == s[b]);
                    } else if a < n {
                        assert(old_map[a] == s[a]);
                        lemma_pairs_map_at(old_map, a);
                    } else if b < n {
                        assert(old_map[b] == s[b]);
                        lemma_pairs_map_at(old_map, b);
                    }
                }
            }
            assert(pairs_map(s) =~= pairs_map(old_map).insert(kv, listener_id)) by {
                lemma_pairs_map_at(s, n);
                assert forall|k: ListenerConfigView| #[trigger] pairs_map(s).contains_key(k)
                    == pairs_map(old_map).insert(kv, listener_id).contains_key(k) by {
                    if pairs_map(old_map).contains_key(k) {
                        let j = choose|j: int| 0 <= j < old_map.len() && config_view(#[trigger] old_map[j].0) == k;
                        assert(old_map[j] == s[j]);
                    }
                    if pairs_map(s).contains_key(k) && k != kv {
                        let j = choose|j: int| 0 <= j < s.len() && config_view(#[trigger] s[j].0) == k;
                        assert(j < n);
                        assert(old_map[j] == s[j]);
                    }
                }
                assert forall|k: ListenerConfigView| #[trigger] pairs_map(s).contains_key(k) implies pairs_map(s)[k]
                    == pairs_map(old_map).insert(kv, listener_id)[k] by {
                    let j = choose|j: int| 0 <= j < s.len() && config_view(#[trigger] s[j].0) == k;
                    lemma_pairs_map_at(s, j);
                    if j < n {
                        assert(old_map[j] == s[j]);
                        lemma_pairs_map_at(old_map, j);
                    }
                }
            }
        }
        self.listener_id_authority_name.insert(listener_id, authority_name.clone());
        self.listener_id_remote_authority_name.insert(listener_id, remote_authority_name.clone());
        proof {
            assert(strings_view(self.listener_id_authority_name@) =~= strings_view(
                old(self).listener_id_authority_name@,
            ).insert(listener_id, authority_name@));
            assert(strings_view(self.listener_id_remote_authority_name@) =~= strings_view(
                old(self).listener_id_remote_authority_name@,
            ).insert(listener_id, remote_authority_name@));
        }
        assert(self@ =~= insert_steps(o, kv, listener_id, authority_name@, remote_authority_name@).0);
        true
    }

    /// Records a listener as registering it takes: a free listener id
    /// (`RESOURCE_EXHAUSTED` when none is free), then the steps of `record_steps` with it.
    pub fn record_listener(
        &mut self,
        authority_name: &AuthorityName,
        remote_authority_name: &AuthorityName,
        key: ListenerConfigKey,
        listener: ListenerKey,
    ) -> (r: Result<usize, StatusCode>)
        requires
            old(self).wf(),
        ensures
            final(self).wf(),
            old(self)@.free_ids.is_empty() ==> r == Err::<usize, StatusCode>(StatusCode::RESOURCE_EXHAUSTED)
                && final(self)@ == old(self)@,
            !old(self)@.free_ids.is_empty() ==> exists|id: usize|
                #[trigger] old(self)@.free_ids.contains(id) && (final(self)@, r) == record_steps(
                    old(self)@,
                    config_view(key),
                    id,
                    authority_name@,
                    remote_authority_name@,
                    listener,
                ),
    {
        let ghost o = self@;
        let ghost kv = config_view(key);
        let listener_id = self.find_available_listener_id()?;
        if !self.insert_into_listener_id_map(authority_name, remote_authority_name, key, listener_id) {
            let code = self.free_listener_id(listener_id);
            assert(o.free_ids.contains(listener_id));
            assert(o.free_ids.remove(listener_id).insert(listener_id) =~= o.free_ids);
            assert(self@ =~= o);
            assert((self@, Err::<usize, StatusCode>(code)) == record_steps(
                o,
                kv,
                listener_id,
                authority_name@,
                remote_authority_name@,
                listener,
            ));
            return Err(code);
        }
        let r = match self.register_listener_id_with_listener(listener_id, listener) {
            Ok(()) => Ok(listener_id),
            Err(e) => Err(e),
        };
        assert(o.free_ids.contains(listener_id));
        assert((self@, r) == record_steps(o, kv, listener_id, authority_name@, remote_authority_name@, listener));
        r
    }

    /// Releases the listener registered under a configuration: see `release_steps`.
    pub fn release_listener_id(&mut self, key: &ListenerConfigKey) -> (r: Result<(), StatusCode>)
        requires
            old(self).wf(),
        ensures
            final(self).wf(),
            final(self)@ == release_steps(old(self)@, config_view(*key)).0,
            r == release_steps(old(self)@, config_view(*key)).1,
    {
        let ghost kv = config_view(*key);
        let ghost o = self@;
        let i = match self.find_config(key) {
            Some(i) => i,
            None => {
                return Err(StatusCode::INTERNAL);
            },
        };
        let listener_id = self.listener_id_map[i].1;
        proof {
            lemma_pairs_map_at(self.listener_id_map@, i as int);
            lemma_pairs_map_remove(self.listener_id_map@, i as int);
        }
        self.listener_id_map.remove(i);
        let removed = self.listener_id_authority_name.remove(&listener_id);
        proof {
            assert(strings_view(self.listener_id_authority_name@) =~= strings_view(
                old(self).listener_id_authority_name@,
            ).remove(listener_id));
        }
        if removed.is_none() {
            assert(self@ =~= release_steps(o, kv).0);
            return Err(StatusCode::INTERNAL);
        }
        let removed = self.listener_id_remote_authority_name.remove(&listener_id);
        proof {
            assert(strings_view(self.listener_id_remote_authority_name@) =~= strings_view(
                old(self).listener_id_remote_authority_name@,
            ).remove(listener_id));
        }
        if removed.is_none() {
            assert(self@ =~= release_steps(o, kv).0);
            return Err(StatusCode::INTERNAL);
        }
        if self.listener_registry.remove(&listener_id).is_none() {
            assert(self@ =~= release_steps(o, kv).0);
            return Err(StatusCode::INTERNAL);
        }
        if !self.free_listener_ids.insert(listener_id) {
            assert(self@ =~= release_steps(o, kv).0);
            return Err(StatusCode::INTERNAL);
        }
        if self.listener_id_client_id_mapping.remove(&listener_id).is_none() {
            assert(self@ =~= release_steps(o, kv).0);
            return Err(StatusCode::INTERNAL);
        }
        assert(self@ =~= release_steps(o, kv).0);
        Ok(())
    }

    /// Records the listener of a listener id. The listener is recorded either way; where the id
    /// had one already, `INTERNAL` is reported.
    pub fn register_listener_id_with_listener(&mut self, listener_id: usize, listener: ListenerKey) -> (r: Result<
        (),
        StatusCode,
    >)
        requires
            old(self).wf(),
        ensures
            final(self).wf(),
            final(self)@ == (ListenerRegistryView {
                listeners: old(self)@.listeners.insert(listener_id, listener),
                ..old(self)@
            }),
            r == (if old(self)@.listeners.contains_key(listener_id) {
                Err(StatusCode::INTERNAL)
            } else {
                Ok(())
            }),
    {
        match self.listener_registry.insert(listener_id, listener) {
            Some(_) => Err(StatusCode::INTERNAL),
            None => Ok(()),
        }
    }

    /// Records the client id of the application that a listener id's listener belongs to. The
    /// client id is recorded either way; where the id had one already, `INTERNAL` is reported.
    pub fn map_listener_id_to_client_id(&mut self, client_id: ClientId, listener_id: usize) -> (r: Result<
        (),
        StatusCode,
    >)
        requires
            old(self).wf(),
        ensures
            final(self).wf(),
            final(self)@ == (ListenerRegistryView {
                client_ids: old(self)@.client_ids.insert(listener_id, client_id),
                ..old(self)@
            }),
            r == (if old(self)@.client_ids.contains_key(listener_id) {
                Err(StatusCode::INTERNAL)
            } else {
                Ok(())
            }),
    {
        match self.listener_id_client_id_mapping.insert(listener_id, client_id) {
            Some(_) => Err(StatusCode::INTERNAL),
            None => Ok(()),
        }
    }
}

} // verus!
