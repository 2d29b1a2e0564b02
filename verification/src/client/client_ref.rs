//! A thin owning handle around a client.

use vstd::prelude::*;

use crate::client::Client;

verus! {

/// An owning handle to a client row.
pub struct ClientRef(pub Client);

impl ClientRef {
    /// The client behind the handle.
    pub fn as_ref(&self) -> (r: &Client)
        ensures
            *r == self.0,
    {
        &self.0
    }
}

impl From<Client> for ClientRef {
    /// Wrap a client.
    fn from(client: Client) -> (r: ClientRef) {
        ClientRef(client)
    }
}

impl vstd::std_specs::convert::FromSpecImpl<Client> for ClientRef {
    open spec fn obeys_from_spec() -> bool {
        true
    }

    open spec fn from_spec(client: Client) -> ClientRef {
        ClientRef(client)
    }
}

} // verus!
