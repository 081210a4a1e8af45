//! The bidirectional map from message handler ids to listener configurations, kept in a
//! `bimap::BiHashMap`.
//!
//! A listener configuration is a source filter, an optional sink filter and the identity of
//! a listener.  Inside the map it is held as a tuple of `String`s and integers, whose
//! equality and hashing the standard library defines field by field.

use crate::uri::{Uri, UriView};
use crate::MessageHandlerId;
use bimap::BiHashMap;
use std::collections::hash_map::RandomState;
use vstd::prelude::*;

verus! {

/// The identity of a listener: two registrations with the same key are the same listener.
pub type ListenerKey = u64;

/// A URI as a tuple: authority name, uEntity id, major version, resource id.
pub type UriKey = (String, u32, u32, u32);

/// A listener configuration as held in the map: source filter, optional sink filter, listener.
pub type ListenerConfigKey = (UriKey, Option<UriKey>, ListenerKey);

/// The value of a `UriKey`.
pub type UriKeyView = (Seq<char>, u32, u32, u32);

/// The value of a `ListenerConfigKey`.
pub type ListenerConfigView = (UriKeyView, Option<UriKeyView>, ListenerKey);

/// The map type.
pub type ListenerConfigMap = BiHashMap<MessageHandlerId, ListenerConfigKey, RandomState, RandomState>;

/// bimap's `BiHashMap`, held opaque: what it holds is `config_map_contents`.
#[verifier::external_type_specification]
#[verifier::external_body]
#[verifier::reject_recursive_types(L)]
#[verifier::reject_recursive_types(R)]
#[verifier::reject_recursive_types(LS)]
#[verifier::reject_recursive_types(RS)]
pub struct ExBiHashMap<L, R, LS, RS>(BiHashMap<L, R, LS, RS>);

/// What a listener configuration map holds: each handler id with the value of its configuration.
pub uninterp spec fn config_map_contents(m: ListenerConfigMap) -> Map<MessageHandlerId, ListenerConfigView>;

/// The value of a URI key, with the authority name as a sequence of characters.
pub open spec fn uri_key_view(u: UriKey) -> UriKeyView {
    (u.0@, u.1, u.2, u.3)
}

/// The value of an optional URI key.
pub open spec fn opt_uri_key_view(u: Option<UriKey>) -> Option<UriKeyView> {
    match u {
        Some(x) => Some(uri_key_view(x)),
        None => None,
    }
}

/// The value of a listener configuration.
pub open spec fn config_view(c: ListenerConfigKey) -> ListenerConfigView {
    (uri_key_view(c.0), opt_uri_key_view(c.1), c.2)
}

/// The key of a URI view.
pub open spec fn uri_view_key(u: UriView) -> UriKeyView {
    (u.authority_name, u.ue_id, u.ue_version_major, u.resource_id)
}

/// Whether a configuration value is held under some id.
pub open spec fn holds_config(m: Map<MessageHandlerId, ListenerConfigView>, c: ListenerConfigView) -> bool {
    exists|id: MessageHandlerId| #[trigger] m.contains_key(id) && m[id] == c
}

/// Builds the map key of a URI.
pub fn uri_key(u: &Uri) -> (k: UriKey)
    ensures
        uri_key_view(k) == uri_view_key(u@),
{
    (u.authority_name.clone(), u.ue_id, u.ue_version_major, u.resource_id)
}

/// Builds the listener configuration of a source filter, an optional sink filter and a listener.
pub fn listener_config(source_filter: &Uri, sink_filter: &Option<Uri>, listener: ListenerKey) -> (c:
    ListenerConfigKey)
    ensures
        config_view(c) == (
            uri_view_key(source_filter@),
            match sink_filter {
                Some(s) => Some(uri_view_key(s@)),
                None => None,
            },
            listener,
        ),
{
    let sink = match sink_filter {
        Some(s) => Some(uri_key(s)),
        None => None,
    };
    (uri_key(source_filter), sink, listener)
}

/// A copy of a listener configuration.
pub fn clone_config(c: &ListenerConfigKey) -> (d: ListenerConfigKey)
    ensures
        config_view(d) == config_view(*c),
{
    let source = (c.0.0.clone(), c.0.1, c.0.2, c.0.3);
    let sink = match &c.1 {
        Some(s) => Some((s.0.clone(), s.1, s.2, s.3)),
        None => None,
    };
    (source, sink, c.2)
}

/// Makes an empty map (`BiHashMap::new`).
#[verifier::external_body]
pub fn config_map_new() -> (map: ListenerConfigMap)
    ensures
        config_map_contents(map).is_empty(),
{
    BiHashMap::new()
}

/// The id held for a configuration (`BiHashMap::get_by_right`).
#[verifier::external_body]
pub fn config_map_get_by_right(m: &ListenerConfigMap, c: &ListenerConfigKey) -> (r: Option<MessageHandlerId>)
    ensures
        match r {
            Some(id) => config_map_contents(*m).contains_key(id) && config_map_contents(*m)[id] == config_view(*c),
            None => !holds_config(config_map_contents(*m), config_view(*c)),
        },
{
    m.get_by_right(c).copied()
}

/// The configuration held for an id (`BiHashMap::get_by_left`).
#[verifier::external_body]
pub fn config_map_get_by_left(m: &ListenerConfigMap, id: MessageHandlerId) -> (r: Option<&ListenerConfigKey>)
    ensures
        match r {
            Some(c) => config_map_contents(*m).contains_key(id) && config_map_contents(*m)[id] == config_view(*c),
            None => !config_map_contents(*m).contains_key(id),
        },
{
    m.get_by_left(&id)
}

/// Whether an id is held (`BiHashMap::contains_left`).
#[verifier::external_body]
pub fn config_map_contains_left(m: &ListenerConfigMap, id: MessageHandlerId) -> (b: bool)
    ensures
        b == config_map_contents(*m).contains_key(id),
{
    m.contains_left(&id)
}

/// Whether a configuration is held (`BiHashMap::contains_right`).
#[verifier::external_body]
pub fn config_map_contains_right(m: &ListenerConfigMap, c: &ListenerConfigKey) -> (b: bool)
    ensures
        b == holds_config(config_map_contents(*m), config_view(*c)),
{
    m.contains_right(c)
}

/// Removes the pair of an id (`BiHashMap::remove_by_left`).
#[verifier::external_body]
pub fn config_map_remove_by_left(m: &mut ListenerConfigMap, id: MessageHandlerId) -> (r: Option<
    (MessageHandlerId, ListenerConfigKey),
>)
    ensures
        config_map_contents(*final(m)) == config_map_contents(*old(m)).remove(id),
        match r {
            Some(pair) => {
                &&& pair.0 == id
                &&& config_map_contents(*old(m)).contains_key(id)
                &&& config_map_contents(*old(m))[id] == config_view(pair.1)
            },
            None => !config_map_contents(*old(m)).contains_key(id),
        },
{
    m.remove_by_left(&id)
}

/// Inserts a pair unless its id or its configuration is held already
/// (`BiHashMap::insert_no_overwrite`).
#[verifier::external_body]
pub fn config_map_insert_no_overwrite(m: &mut ListenerConfigMap, id: MessageHandlerId, c: ListenerConfigKey) -> (r:
    Result<(), (MessageHandlerId, ListenerConfigKey)>)
    ensures
        (config_map_contents(*old(m)).contains_key(id) || holds_config(config_map_contents(*old(m)), config_view(c))) ==> {
            &&& r is Err
            &&& config_map_contents(*final(m)) == config_map_contents(*old(m))
        },
        !(config_map_contents(*old(m)).contains_key(id) || holds_config(config_map_contents(*old(m)), config_view(c))) ==> {
            &&& r is Ok
            &&& config_map_contents(*final(m)) == config_map_contents(*old(m)).insert(id, config_view(c))
        },
{
    m.insert_no_overwrite(id, c)
}

/// All ids held, each once, in the map's own order (`BiHashMap::left_values`).
#[verifier::external_body]
pub fn config_map_left_values(m: &ListenerConfigMap) -> (ids: Vec<MessageHandlerId>)
    ensures
        ids@.to_set() == config_map_contents(*m).dom(),
        ids@.no_duplicates(),
{
    m.left_values().copied().collect()
}

} // verus!
