//! The pool of pre-generated application state handler slots.

use crate::id_pool::{full_pool, return_id, take_available_id};
use crate::status::StatusCode;
use std::collections::HashSet;
use vstd::prelude::*;

verus! {

/// The slots that are free to watch an application's start-up state.
pub struct InMemoryApplicationStateAvailabilityHandlerRegistry {
    free_state_handler_ids: HashSet<usize>,
}

impl View for InMemoryApplicationStateAvailabilityHandlerRegistry {
    type V = Set<usize>;

    closed spec fn view(&self) -> Set<usize> {
        self.free_state_handler_ids@
    }
}

impl InMemoryApplicationStateAvailabilityHandlerRegistry {
    /// A registry whose free slots are `0 .. num_handlers`.
    pub fn new(num_handlers: usize) -> (r: Self)
        ensures
            r@ == Set::new(|id: usize| id < num_handlers),
    {
        InMemoryApplicationStateAvailabilityHandlerRegistry { free_state_handler_ids: full_pool(num_handlers) }
    }

    /// Returns a slot to the free pool.
    pub fn free_state_handler_id(&mut self, state_handler_id: usize) -> (r: Result<(), StatusCode>)
        ensures
            r is Ok,
            final(self)@ == old(self)@.insert(state_handler_id),
    {
        return_id(&mut self.free_state_handler_ids, state_handler_id)
    }

    /// Takes some free slot out of the pool; `RESOURCE_EXHAUSTED` when none is free.
    pub fn find_available_state_handler_id(&mut self) -> (r: Result<usize, StatusCode>)
        ensures
            match r {
                Ok(id) => old(self)@.contains(id) && final(self)@ == old(self)@.remove(id),
                Err(code) => code == StatusCode::RESOURCE_EXHAUSTED && old(self)@.is_empty()
                    && final(self)@ == old(self)@,
            },
    {
        take_available_id(&mut self.free_state_handler_ids)
    }
}

} // verus!
