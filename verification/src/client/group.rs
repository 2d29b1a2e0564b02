//! A named group of clients.
//!
//! The membership rows live in the catalog; a group value caches its member
//! list once fetched. Adding and removing memberships are catalog writes and
//! stay with the application; what a group value holds is verified here.

use vstd::prelude::*;

use crate::client::Client;
use crate::ids::create_id;

verus! {

/// A named client group: an id, a unique name, and the cached member list —
/// absent until fetched.
#[derive(Debug)]
pub struct Group {
    id: String,
    name: String,
    clients: Option<Vec<Client>>,
}

impl Group {
    /// The id, as characters.
    pub closed spec fn spec_id(self) -> Seq<char> {
        self.id@
    }

    /// The name, as characters.
    pub closed spec fn spec_name(self) -> Seq<char> {
        self.name@
    }

    /// The cached member list, if fetched.
    pub closed spec fn spec_clients(self) -> Option<Seq<Client>> {
        match self.clients {
            Some(v) => Some(v@),
            None => None,
        }
    }

    /// A group under a fresh id, with an empty cached member list. The
    /// caller persists the row.
    pub fn create(name: String) -> (r: Group)
        ensures
            r.spec_name() == name@,
            r.spec_id().len() == 24,
            r.spec_clients() matches Some(c) && c.len() == 0,
    {
        Group { id: create_id(), name, clients: Some(Vec::new()) }
    }

    /// Rebuild a group from its stored columns; no member list is cached.
    pub fn from_sql(id: String, name: String) -> (r: Group)
        ensures
            r.spec_id() == id@,
            r.spec_name() == name@,
            r.spec_clients() is None,
    {
        Group { id, name, clients: None }
    }

    /// The name.
    pub fn name(&self) -> (r: &str)
        ensures
            r@ == self.spec_name(),
    {
        self.name.as_str()
    }

    /// The id.
    pub fn id(&self) -> (r: &str)
        ensures
            r@ == self.spec_id(),
    {
        self.id.as_str()
    }

    /// The cached member list, if fetched.
    pub fn clients(&self) -> (r: Option<&Vec<Client>>)
        ensures
            (match r {
                Some(v) => self.spec_clients() == Some(v@),
                None => self.spec_clients() is None,
            }),
    {
        self.clients.as_ref()
    }

    /// Cache a fetched member list, replacing any previous one.
    pub fn set_clients(&mut self, clients: Vec<Client>)
        ensures
            final(self).spec_clients() == Some(clients@),
            final(self).spec_id() == old(self).spec_id(),
            final(self).spec_name() == old(self).spec_name(),
    {
        self.clients = Some(clients);
    }
}

} // verus!
