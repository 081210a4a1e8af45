//! Which vsomeip application (by name) serves which client id.

use crate::status::StatusCode;
use crate::{ApplicationName, ClientId};
use std::collections::HashMap;
use vstd::prelude::*;

verus! {

broadcast use vstd::std_specs::hash::group_hash_axioms;

/// The applications started so far, by client id.
pub struct ApplicationRegistry {
    client_id_app_mapping: HashMap<ClientId, ApplicationName>,
}

impl View for ApplicationRegistry {
    type V = Map<ClientId, Seq<char>>;

    closed spec fn view(&self) -> Map<ClientId, Seq<char>> {
        Map::new(
            |c: ClientId| self.client_id_app_mapping@.contains_key(c),
            |c: ClientId| self.client_id_app_mapping@[c]@,
        )
    }
}

impl ApplicationRegistry {
    /// A registry without applications.
    pub fn new() -> (r: Self)
        ensures
            r@.is_empty(),
    {
        let r = ApplicationRegistry { client_id_app_mapping: HashMap::new() };
        assert(r@.dom() =~= Set::<ClientId>::empty());
        r
    }

    /// The name of the application that serves a client id; `NOT_FOUND` if there is none.
    pub fn find_app_name(&self, client_id: ClientId) -> (r: Result<ApplicationName, StatusCode>)
        ensures
            match r {
                Ok(name) => self@.contains_key(client_id) && name@ == self@[client_id],
                Err(code) => code == StatusCode::NOT_FOUND && !self@.contains_key(client_id),
            },
    {
        match self.client_id_app_mapping.get(&client_id) {
            Some(app_name) => Ok(app_name.clone()),
            None => Err(StatusCode::NOT_FOUND),
        }
    }

    /// Records the application of a client id; `ALREADY_EXISTS` if the client id has one.
    pub fn add_client_id_app_name(&mut self, client_id: ClientId, app_name: &ApplicationName) -> (r: Result<(), StatusCode>)
        ensures
            old(self)@.contains_key(client_id) ==> r == Err::<(), StatusCode>(StatusCode::ALREADY_EXISTS)
                && final(self)@ == old(self)@,
            !old(self)@.contains_key(client_id) ==> r is Ok && final(self)@ == old(self)@.insert(client_id, app_name@),
    {
        if self.client_id_app_mapping.contains_key(&client_id) {
            Err(StatusCode::ALREADY_EXISTS)
        } else {
            self.client_id_app_mapping.insert(client_id, app_name.clone());
            assert(self@ =~= old(self)@.insert(client_id, app_name@));
            Ok(())
        }
    }
    /// Whether a new application may be started for a client id: `ALREADY_EXISTS` when the
    /// client id has one already.
    pub fn check_new_app(&self, client_id: ClientId) -> (r: Result<(), StatusCode>)
        ensures
            r == (if self@.contains_key(client_id) {
                Err(StatusCode::ALREADY_EXISTS)
            } else {
                Ok(())
            }),
    {
        if self.client_id_app_mapping.contains_key(&client_id) {
            Err(StatusCode::ALREADY_EXISTS)
        } else {
            Ok(())
        }
    }
}

} // verus!
