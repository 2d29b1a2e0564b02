//! What the mailer adapter decides, apart from its SMTP and catalog effects.
//!
//! The adapter itself — the SMTP transport, the audit writes — lives with the
//! application; the recipient sum type and the rule that a group send
//! succeeds exactly when every per-recipient send succeeded are verified
//! here.

use vstd::prelude::*;

use crate::client::Client;
use crate::client::Group;

verus! {

/// A recipient of one send: a single client, or a whole group.
pub enum Receiver {
    Client(Client),
    Group(Group),
}

impl From<Client> for Receiver {
    /// A single-client recipient.
    fn from(value: Client) -> (r: Receiver) {
        Receiver::Client(value)
    }
}

impl vstd::std_specs::convert::FromSpecImpl<Client> for Receiver {
    open spec fn obeys_from_spec() -> bool {
        true
    }

    open spec fn from_spec(value: Client) -> Receiver {
        Receiver::Client(value)
    }
}

impl From<Group> for Receiver {
    /// A group recipient.
    fn from(value: Group) -> (r: Receiver) {
        Receiver::Group(value)
    }
}

impl vstd::std_specs::convert::FromSpecImpl<Group> for Receiver {
    open spec fn obeys_from_spec() -> bool {
        true
    }

    open spec fn from_spec(value: Group) -> Receiver {
        Receiver::Group(value)
    }
}

/// A group send succeeds exactly when every per-recipient send succeeded.
pub fn send_outcome(per_recipient: &Vec<bool>) -> (r: bool)
    ensures
        r <==> (forall|i: int| 0 <= i < per_recipient@.len() ==> per_recipient@[i]),
{
    let n = per_recipient.len();
    let mut i: usize = 0;
    while i < n
        invariant
            0 <= i <= n,
            n == per_recipient@.len(),
            forall|j: int| 0 <= j < i ==> per_recipient@[j],
        decreases n - i,
    {
        if !per_recipient[i] {
            return false;
        }
        i = i + 1;
    }
    true
}

} // verus!
