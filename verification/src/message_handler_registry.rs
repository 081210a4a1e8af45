//! Which pre-generated message handler slot serves which listener configuration, and which
//! transport each slot delivers to.

use crate::id_pool::{return_id, take_available_id};
use crate::listener_config_map::{
    clone_config, config_map_contains_left, config_map_contains_right, config_map_contents,
    config_map_get_by_left, config_map_get_by_right, config_map_insert_no_overwrite,
    config_map_left_values, config_map_new, config_map_remove_by_left, config_view, holds_config,
    ListenerConfigKey, ListenerConfigMap, ListenerConfigView, ListenerKey,
};
use crate::status::StatusCode;
use crate::MessageHandlerId;
use std::collections::{HashMap, HashSet};
use vstd::prelude::*;

verus! {

broadcast use vstd::std_specs::hash::group_hash_axioms;

/// Why no message handler could be handed out.
#[derive(Clone, Copy, Debug, PartialEq, Eq, Structural)]
pub enum GetMessageHandlerError {
    /// The slot id was in use already.
    ListenerIdAlreadyExists(MessageHandlerId),
    /// The listener configuration is registered already; the slot that was tried is given.
    ListenerConfigAlreadyExists(MessageHandlerId),
    /// Any other failure, with its status code.
    OtherError(StatusCode),
}

/// Why a slot id and a listener configuration could not be paired.
#[derive(Clone, Copy, Debug, PartialEq, Eq, Structural)]
pub enum MessageHandlerIdAndListenerConfigError {
    MessageHandlerIdAlreadyExists(MessageHandlerId),
    ListenerConfigAlreadyExists,
}

/// What the registry holds.
pub struct MessageHandlerRegistryView<T> {
    /// slots that are free to hand out
    pub free_ids: Set<MessageHandlerId>,
    /// slot -> transport that its messages go to
    pub transports: Map<MessageHandlerId, T>,
    /// slot -> listener configuration it serves
    pub configs: Map<MessageHandlerId, ListenerConfigView>,
    /// the number of slots: they are `0 .. capacity`
    pub capacity: nat,
}

/// Slots, their transports and their listener configurations.
pub struct InMemoryMessageHandlerRegistry<T> {
    free_message_handler_ids: HashSet<MessageHandlerId>,
    message_handler_id_to_transport_storage: HashMap<MessageHandlerId, T>,
    message_handler_id_and_listener_config: ListenerConfigMap,
    capacity: Ghost<nat>,
}

/// No two slots serve the same configuration.
pub open spec fn configs_injective(configs: Map<MessageHandlerId, ListenerConfigView>) -> bool {
    forall|a: MessageHandlerId, b: MessageHandlerId|
        #![trigger configs[a], configs[b]]
        configs.contains_key(a) && configs.contains_key(b) && configs[a] == configs[b] ==> a == b
}

impl<T> MessageHandlerRegistryView<T> {
    /// Each slot `0 .. capacity` is either free, or in use with both a transport and a
    /// configuration, and there are no other slots; no configuration is served twice.
    pub open spec fn wf(self) -> bool {
        &&& self.transports.dom() == self.configs.dom()
        &&& self.free_ids.disjoint(self.configs.dom())
        &&& self.free_ids + self.configs.dom() == Set::new(|id: MessageHandlerId| id < self.capacity)
        &&& configs_injective(self.configs)
    }

    /// The registry after a slot was handed out for a configuration.
    pub open spec fn after_get(self, id: MessageHandlerId, transport: T, config: ListenerConfigView) -> Self {
        MessageHandlerRegistryView {
            free_ids: self.free_ids.remove(id),
            transports: self.transports.insert(id, transport),
            configs: self.configs.insert(id, config),
            capacity: self.capacity,
        }
    }

    /// The registry after a slot was released.
    pub open spec fn after_release(self, id: MessageHandlerId) -> Self {
        MessageHandlerRegistryView {
            free_ids: self.free_ids.insert(id),
            transports: self.transports.remove(id),
            configs: self.configs.remove(id),
            capacity: self.capacity,
        }
    }
}

impl<T> View for InMemoryMessageHandlerRegistry<T> {
    type V = MessageHandlerRegistryView<T>;

    closed spec fn view(&self) -> MessageHandlerRegistryView<T> {
        MessageHandlerRegistryView {
            free_ids: self.free_message_handler_ids@,
            transports: self.message_handler_id_to_transport_storage@,
            configs: config_map_contents(self.message_handler_id_and_listener_config),
            capacity: self.capacity@,
        }
    }
}

/// Gives access to the transport of a slot, from within a message handler.
pub struct ProcMacroMessageHandlerAccess;

impl ProcMacroMessageHandlerAccess {
    /// The transport that a slot delivers to, if the slot is in use.
    pub fn get_message_handler_id_transport<T>(
        registry: &InMemoryMessageHandlerRegistry<T>,
        message_handle_id: MessageHandlerId,
    ) -> (r: Option<&T>)
        ensures
            match r {
                Some(t) => registry@.transports.contains_key(message_handle_id)
                    && *t == registry@.transports[message_handle_id],
                None => !registry@.transports.contains_key(message_handle_id),
            },
    {
        registry.message_handler_id_to_transport_storage.get(&message_handle_id)
    }
}

impl<T> InMemoryMessageHandlerRegistry<T> {
    /// A registry whose free slots are `0 .. num_handlers` and that serves nothing yet.
    pub fn new(num_handlers: usize) -> (r: Self)
        ensures
            r@.free_ids == Set::new(|id: usize| id < num_handlers),
            r@.transports.is_empty(),
            r@.configs.is_empty(),
            r@.capacity == num_handlers,
            r@.wf(),
    {
        let r = InMemoryMessageHandlerRegistry {
            free_message_handler_ids: crate::id_pool::full_pool(num_handlers),
            message_handler_id_to_transport_storage: HashMap::new(),
            message_handler_id_and_listener_config: config_map_new(),
            capacity: Ghost(num_handlers as nat),
        };
        proof {
            assert(r@.free_ids + r@.configs.dom() =~= Set::new(|id: MessageHandlerId| id < r@.capacity));
            assert(r@.configs.dom() =~= Set::<usize>::empty());
            assert(r@.transports.dom() =~= Set::<usize>::empty());
        }
        r
    }

    /// Hands out a free slot for a listener configuration, recording the transport its
    /// messages go to.
    ///
    /// Fails with `OtherError(RESOURCE_EXHAUSTED)` when no slot is free and with
    /// `ListenerConfigAlreadyExists` when the configuration is served already; a failure leaves
    /// the registry as it was.
    pub fn get_message_handler(&mut self, transport_storage: T, listener_config: ListenerConfigKey) -> (r:
        Result<MessageHandlerId, GetMessageHandlerError>)
        requires
            old(self)@.wf(),
        ensures
            final(self)@.wf(),
            match r {
                Ok(id) => {
                    &&& old(self)@.free_ids.contains(id)
                    &&& !holds_config(old(self)@.configs, config_view(listener_config))
                    &&& final(self)@ == old(self)@.after_get(id, transport_storage, config_view(listener_config))
                },
                Err(e) => {
                    &&& final(self)@ == old(self)@
                    &&& match e {
                        GetMessageHandlerError::OtherError(code) => code == StatusCode::RESOURCE_EXHAUSTED
                            && old(self)@.free_ids.is_empty(),
                        GetMessageHandlerError::ListenerConfigAlreadyExists(id) => old(self)@.free_ids.contains(id)
                            && holds_config(old(self)@.configs, config_view(listener_config)),
                        GetMessageHandlerError::ListenerIdAlreadyExists(_) => false,
                    }
                },
            },
            old(self)@.free_ids.is_empty() ==> r == Err::<MessageHandlerId, GetMessageHandlerError>(
                GetMessageHandlerError::OtherError(StatusCode::RESOURCE_EXHAUSTED),
            ),
            (!old(self)@.free_ids.is_empty() && !holds_config(old(self)@.configs, config_view(listener_config)))
                ==> r is Ok,
    {
        let ghost old_view = self@;
        let message_handler_id = match Self::find_available_message_handler_id(
            &mut self.free_message_handler_ids,
        ) {
            Ok(id) => id,
            Err(code) => {
                return Err(GetMessageHandlerError::OtherError(code));
            },
        };

        let insert_res = Self::insert_message_handler_id_transport(
            &mut self.message_handler_id_to_transport_storage,
            message_handler_id,
            transport_storage,
        );
        if let Err(code) = insert_res {
            // the slot was free, so it cannot have had a transport
            proof {
                assert(false);
            }
            let _ = Self::free_message_handler_id(&mut self.free_message_handler_ids, message_handler_id);
            return Err(GetMessageHandlerError::OtherError(code));
        }

        let config_copy = clone_config(&listener_config);
        let insert_res = Self::insert_message_handler_id_and_listener_config(
            &mut self.message_handler_id_and_listener_config,
            message_handler_id,
            config_copy,
        );
        if let Err(err) = insert_res {
            // roll back the two steps that succeeded
            let _ = Self::free_message_handler_id(&mut self.free_message_handler_ids, message_handler_id);
            let _ = Self::remove_message_handler_id_transport(
                &mut self.message_handler_id_to_transport_storage,
                message_handler_id,
            );
            proof {
                assert(self.free_message_handler_ids@ =~= old_view.free_ids);
                assert(self.message_handler_id_to_transport_storage@ =~= old_view.transports);
            }
            return Err(
                match err {
                    MessageHandlerIdAndListenerConfigError::MessageHandlerIdAlreadyExists(listener_id) => {
                        GetMessageHandlerError::ListenerIdAlreadyExists(listener_id)
                    },
                    MessageHandlerIdAndListenerConfigError::ListenerConfigAlreadyExists => {
                        GetMessageHandlerError::ListenerConfigAlreadyExists(message_handler_id)
                    },
                },
            );
        }
        proof {
            let v = self@;
            assert(v.transports.dom() =~= v.configs.dom());
            assert(v.free_ids.disjoint(v.configs.dom()));
            assert(v.free_ids + v.configs.dom() =~= old_view.free_ids + old_view.configs.dom());
            assert forall|a: MessageHandlerId, b: MessageHandlerId|
                #![trigger v.configs[a], v.configs[b]]
                v.configs.contains_key(a) && v.configs.contains_key(b) && v.configs[a] == v.configs[b]
                    implies a == b by {
                if a != message_handler_id && b == message_handler_id {
                    assert(old_view.configs.contains_key(a) && old_view.configs[a] == config_view(listener_config));
                }
                if a == message_handler_id && b != message_handler_id {
                    assert(old_view.configs.contains_key(b) && old_view.configs[b] == config_view(listener_config));
                }
            }
            assert(v == old_view.after_get(message_handler_id, transport_storage, config_view(listener_config)));
        }
        Ok(message_handler_id)
    }

    /// Releases the slot that serves a listener configuration: the slot becomes free and
    /// loses its transport and configuration.  `NOT_FOUND` when no slot serves it.
    pub fn release_message_handler(&mut self, listener_config: ListenerConfigKey) -> (r: Result<
        (),
        StatusCode,
    >)
        requires
            old(self)@.wf(),
        ensures
            final(self)@.wf(),
            holds_config(old(self)@.configs, config_view(listener_config)) ==> {
                &&& r is Ok
                &&& exists|id: MessageHandlerId|
                    #![trigger old(self)@.configs[id]]
                    old(self)@.configs.contains_key(id) && old(self)@.configs[id] == config_view(listener_config)
                        && final(self)@ == old(self)@.after_release(id)
            },
            !holds_config(old(self)@.configs, config_view(listener_config)) ==> {
                &&& r == Err::<(), StatusCode>(StatusCode::NOT_FOUND)
                &&& final(self)@ == old(self)@
            },
    {
        let ghost old_view = self@;
        let message_handler_id = match Self::get_message_handler_id_for_listener_config(
            &self.message_handler_id_and_listener_config,
            &listener_config,
        ) {
            Some(id) => id,
            None => {
                return Err(StatusCode::NOT_FOUND);
            },
        };
        let _ = Self::free_message_handler_id(&mut self.free_message_handler_ids, message_handler_id);
        let _ = Self::remove_message_handler_id_transport(
            &mut self.message_handler_id_to_transport_storage,
            message_handler_id,
        );
        let _ = Self::remove_message_handler_id_and_listener_config_based_on_message_handler_id(
            &mut self.message_handler_id_and_listener_config,
            message_handler_id,
        );
        proof {
            let v = self@;
            assert(v.transports.dom() =~= v.configs.dom());
            assert(v.free_ids.disjoint(v.configs.dom()));
            assert(v.free_ids + v.configs.dom() =~= old_view.free_ids + old_view.configs.dom());
            assert(v == old_view.after_release(message_handler_id));
        }
        Ok(())
    }

    /// The configurations of all slots in use, each once.
    pub fn get_all_listener_configs(&self) -> (configs: Vec<ListenerConfigKey>)
        requires
            self@.wf(),
        ensures
            configs@.len() == self@.configs.dom().len(),
            forall|i: int| 0 <= i < configs@.len() ==> holds_config(self@.configs, #[trigger] config_view(configs@[i])),
            forall|id: MessageHandlerId| #[trigger] self@.configs.contains_key(id) ==>
                exists|i: int| 0 <= i < configs@.len() && config_view(configs@[i]) == self@.configs[id],
    {
        let all_message_handler_ids = self.get_message_handler_ids();
        let mut listener_configs: Vec<ListenerConfigKey> = Vec::new();
        let n = all_message_handler_ids.len();
        let mut i: usize = 0;
        proof {
            all_message_handler_ids@.unique_seq_to_set();
        }
        while i < n
            invariant
                n == all_message_handler_ids@.len(),
                i <= n,
                all_message_handler_ids@.to_set() == self@.configs.dom(),
                listener_configs@.len() == i,
                forall|j: int| 0 <= j < i ==> self@.configs.contains_key(all_message_handler_ids@[j])
                    && #[trigger] config_view(listener_configs@[j]) == self@.configs[all_message_handler_ids@[j]],
            decreases n - i,
        {
            let message_handler_id = all_message_handler_ids[i];
            assert(all_message_handler_ids@.to_set().contains(all_message_handler_ids@[i as int]));
            match self.get_listener_config_for_message_handler_id(message_handler_id) {
                Some(listener_config) => {
                    listener_configs.push(listener_config);
                },
                None => {
                    // every listed slot is in use
                    assert(false);
                },
            }
            i = i + 1;
        }
        proof {
            assert forall|k: int| 0 <= k < listener_configs@.len() implies holds_config(
                self@.configs,
                #[trigger] config_view(listener_configs@[k]),
            ) by {
                let id = all_message_handler_ids@[k];
                assert(self@.configs.contains_key(id) && self@.configs[id] == config_view(listener_configs@[k]));
            }
            assert forall|id: MessageHandlerId| #[trigger] self@.configs.contains_key(id) implies exists|k: int|
                0 <= k < listener_configs@.len() && config_view(listener_configs@[k]) == self@.configs[id] by {
                assert(all_message_handler_ids@.to_set().contains(id));
                let k = all_message_handler_ids@.index_of(id);
                assert(config_view(listener_configs@[k]) == self@.configs[id]);
            }
        }
        listener_configs
    }

    /// The ids of all slots in use, each once.
    fn get_message_handler_ids(&self) -> (ids: Vec<MessageHandlerId>)
        ensures
            ids@.to_set() == self@.configs.dom(),
            ids@.no_duplicates(),
    {
        config_map_left_values(&self.message_handler_id_and_listener_config)
    }

    /// The slot that serves a listener configuration.
    fn get_message_handler_id_for_listener_config(
        message_handler_id_and_listener_config: &ListenerConfigMap,
        listener_config: &ListenerConfigKey,
    ) -> (r: Option<MessageHandlerId>)
        ensures
            match r {
                Some(id) => config_map_contents(*message_handler_id_and_listener_config).contains_key(id)
                    && config_map_contents(*message_handler_id_and_listener_config)[id] == config_view(*listener_config),
                None => !holds_config(config_map_contents(*message_handler_id_and_listener_config), config_view(*listener_config)),
            },
    {
        config_map_get_by_right(message_handler_id_and_listener_config, listener_config)
    }

    /// The listener that a slot serves.
    pub fn get_listener_for_message_handler_id(&self, message_handler_id: MessageHandlerId) -> (r: Option<ListenerKey>)
        ensures
            match r {
                Some(listener) => self@.configs.contains_key(message_handler_id)
                    && self@.configs[message_handler_id].2 == listener,
                None => !self@.configs.contains_key(message_handler_id),
            },
    {
        match config_map_get_by_left(&self.message_handler_id_and_listener_config, message_handler_id) {
            Some(config) => Some(config.2),
            None => None,
        }
    }

    /// A copy of the configuration that a slot serves.
    fn get_listener_config_for_message_handler_id(&self, message_handler_id: MessageHandlerId) -> (r: Option<
        ListenerConfigKey,
    >)
        ensures
            match r {
                Some(c) => self@.configs.contains_key(message_handler_id)
                    && self@.configs[message_handler_id] == config_view(c),
                None => !self@.configs.contains_key(message_handler_id),
            },
    {
        match config_map_get_by_left(&self.message_handler_id_and_listener_config, message_handler_id) {
            Some(config) => Some(clone_config(config)),
            None => None,
        }
    }

    /// Records the transport of a slot; `ALREADY_EXISTS` if the slot has one.
    fn insert_message_handler_id_transport(
        message_handler_id_to_transport_storage: &mut HashMap<MessageHandlerId, T>,
        listener_id: MessageHandlerId,
        transport: T,
    ) -> (r: Result<(), StatusCode>)
        ensures
            old(message_handler_id_to_transport_storage)@.contains_key(listener_id) ==> {
                &&& r == Err::<(), StatusCode>(StatusCode::ALREADY_EXISTS)
                &&& final(message_handler_id_to_transport_storage)@ == old(message_handler_id_to_transport_storage)@
            },
            !old(message_handler_id_to_transport_storage)@.contains_key(listener_id) ==> {
                &&& r is Ok
                &&& final(message_handler_id_to_transport_storage)@ == old(
                    message_handler_id_to_transport_storage,
                )@.insert(listener_id, transport)
            },
    {
        if message_handler_id_to_transport_storage.contains_key(&listener_id) {
            Err(StatusCode::ALREADY_EXISTS)
        } else {
            message_handler_id_to_transport_storage.insert(listener_id, transport);
            Ok(())
        }
    }

    /// Forgets the transport of a slot; `NOT_FOUND` if the slot has none.
    fn remove_message_handler_id_transport(
        message_handler_id_to_transport_storage: &mut HashMap<MessageHandlerId, T>,
        listener_id: MessageHandlerId,
    ) -> (r: Result<(), StatusCode>)
        ensures
            final(message_handler_id_to_transport_storage)@ == old(message_handler_id_to_transport_storage)@.remove(
                listener_id,
            ),
            r is Ok <==> old(message_handler_id_to_transport_storage)@.contains_key(listener_id),
            r is Err ==> r == Err::<(), StatusCode>(StatusCode::NOT_FOUND),
    {
        if message_handler_id_to_transport_storage.contains_key(&listener_id) {
            message_handler_id_to_transport_storage.remove(&listener_id);
            Ok(())
        } else {
            assert(message_handler_id_to_transport_storage@ =~= message_handler_id_to_transport_storage@.remove(
                listener_id,
            ));
            Err(StatusCode::NOT_FOUND)
        }
    }

    /// Returns a slot to the free pool.
    fn free_message_handler_id(free_message_handler_ids: &mut HashSet<MessageHandlerId>, listener_id: MessageHandlerId) -> (r:
        Result<(), StatusCode>)
        ensures
            r is Ok,
            final(free_message_handler_ids)@ == old(free_message_handler_ids)@.insert(listener_id),
    {
        return_id(free_message_handler_ids, listener_id)
    }

    /// Takes a free slot out of the pool; `RESOURCE_EXHAUSTED` when none is free.
    fn find_available_message_handler_id(free_message_handler_ids: &mut HashSet<MessageHandlerId>) -> (r: Result<
        MessageHandlerId,
        StatusCode,
    >)
        ensures
            match r {
                Ok(id) => old(free_message_handler_ids)@.contains(id) && final(free_message_handler_ids)@ == old(
                    free_message_handler_ids,
                )@.remove(id),
                Err(code) => code == StatusCode::RESOURCE_EXHAUSTED && old(free_message_handler_ids)@.is_empty()
                    && final(free_message_handler_ids)@ == old(free_message_handler_ids)@,
            },
    {
        take_available_id(free_message_handler_ids)
    }

    /// Forgets the configuration of a slot; `NOT_FOUND` if the slot has none.
    fn remove_message_handler_id_and_listener_config_based_on_message_handler_id(
        message_handler_id_and_listener_config: &mut ListenerConfigMap,
        message_handler_id: MessageHandlerId,
    ) -> (r: Result<(), StatusCode>)
        ensures
            config_map_contents(*final(message_handler_id_and_listener_config)) == config_map_contents(
                *old(message_handler_id_and_listener_config),
            ).remove(message_handler_id),
            r is Ok <==> config_map_contents(*old(message_handler_id_and_listener_config)).contains_key(
                message_handler_id,
            ),
            r is Err ==> r == Err::<(), StatusCode>(StatusCode::NOT_FOUND),
    {
        let removed = config_map_remove_by_left(message_handler_id_and_listener_config, message_handler_id);
        if removed.is_none() {
            return Err(StatusCode::NOT_FOUND);
        }
        Ok(())
    }

    /// Pairs a slot with a listener configuration, refusing a slot or a configuration that is
    /// paired already.
    fn insert_message_handler_id_and_listener_config(
        message_handler_id_and_listener_config: &mut ListenerConfigMap,
        message_handler_id: MessageHandlerId,
        listener_config: ListenerConfigKey,
    ) -> (r: Result<(), MessageHandlerIdAndListenerConfigError>)
        ensures
            config_map_contents(*old(message_handler_id_and_listener_config)).contains_key(message_handler_id) ==> {
                &&& r == Err::<(), MessageHandlerIdAndListenerConfigError>(
                    MessageHandlerIdAndListenerConfigError::MessageHandlerIdAlreadyExists(message_handler_id),
                )
                &&& config_map_contents(*final(message_handler_id_and_listener_config)) == config_map_contents(
                    *old(message_handler_id_and_listener_config),
                )
            },
            (!config_map_contents(*old(message_handler_id_and_listener_config)).contains_key(message_handler_id)
                && holds_config(config_map_contents(*old(message_handler_id_and_listener_config)), config_view(listener_config)))
                ==> {
                &&& r == Err::<(), MessageHandlerIdAndListenerConfigError>(
                    MessageHandlerIdAndListenerConfigError::ListenerConfigAlreadyExists,
                )
                &&& config_map_contents(*final(message_handler_id_and_listener_config)) == config_map_contents(
                    *old(message_handler_id_and_listener_config),
                )
            },
            (!config_map_contents(*old(message_handler_id_and_listener_config)).contains_key(message_handler_id)
                && !holds_config(config_map_contents(*old(message_handler_id_and_listener_config)), config_view(listener_config)))
                ==> {
                &&& r is Ok
                &&& config_map_contents(*final(message_handler_id_and_listener_config)) == config_map_contents(
                    *old(message_handler_id_and_listener_config),
                ).insert(message_handler_id, config_view(listener_config))
            },
    {
        let ghost c = config_view(listener_config);
        let probe = clone_config(&listener_config);
        let insertion_res = config_map_insert_no_overwrite(
            message_handler_id_and_listener_config,
            message_handler_id,
            listener_config,
        );
        if insertion_res.is_err() {
            if config_map_contains_left(message_handler_id_and_listener_config, message_handler_id) {
                return Err(
                    MessageHandlerIdAndListenerConfigError::MessageHandlerIdAlreadyExists(message_handler_id),
                );
            }
            if config_map_contains_right(message_handler_id_and_listener_config, &probe) {
                return Err(MessageHandlerIdAndListenerConfigError::ListenerConfigAlreadyExists);
            }
        }
        Ok(())
    }
}

/// Handing out a slot and releasing it again leaves the registry as it was.
pub proof fn lemma_get_then_release_restores<T>(
    v: MessageHandlerRegistryView<T>,
    id: MessageHandlerId,
    transport: T,
    config: ListenerConfigView,
)
    requires
        v.wf(),
        v.free_ids.contains(id),
    ensures
        v.after_get(id, transport, config).after_release(id) == v,
{
    let w = v.after_get(id, transport, config).after_release(id);
    assert(!v.configs.contains_key(id));
    assert(w.free_ids =~= v.free_ids);
    assert(w.transports =~= v.transports);
    assert(w.configs =~= v.configs);
}

} // verus!
