//! Recipients of the catalog: individual clients and named groups.

use vstd::prelude::*;

pub mod client_ref;
pub mod group;

pub use client_ref::ClientRef;
pub use group::Group;

use crate::address::email_valid;
use crate::address::parse_email_address;
use crate::email::Email;
use crate::error::ValidationError;
use crate::ids::create_id;

verus! {

/// A recipient: a collision-resistant id and a validated email address.
#[derive(Debug)]
pub struct Client {
    id: String,
    adresse: String,
    received_emails: Option<Vec<Email>>,
}

impl Client {
    /// The id, as characters.
    pub closed spec fn spec_id(self) -> Seq<char> {
        self.id@
    }

    /// The address, as characters.
    pub closed spec fn spec_adresse(self) -> Seq<char> {
        self.adresse@
    }

    /// The type's invariant: the stored address is valid.
    pub open spec fn wf(self) -> bool {
        email_valid(self.spec_adresse())
    }

    /// A client under a fresh id; rejected iff the address is malformed.
    /// The caller persists the row.
    pub fn create(adresse: &str) -> (r: Result<Client, ValidationError>)
        ensures
            r is Ok <==> email_valid(adresse@),
            r matches Ok(c) ==> {
                &&& c.spec_adresse() == adresse@
                &&& c.spec_id().len() == 24
                &&& c.wf()
            },
            r matches Err(e) ==> e == ValidationError::MalformedAddress,
    {
        match parse_email_address(adresse) {
            Some(a) => Ok(Client { id: create_id(), adresse: a, received_emails: None }),
            None => Err(ValidationError::MalformedAddress),
        }
    }

    /// Rebuild a client from its stored columns; the stored address is
    /// validated anew and rejected iff malformed.
    pub fn from_sql(id: String, adresse: &str) -> (r: Result<Client, ValidationError>)
        ensures
            r is Ok <==> email_valid(adresse@),
            r matches Ok(c) ==> {
                &&& c.spec_id() == id@
                &&& c.spec_adresse() == adresse@
                &&& c.wf()
            },
            r matches Err(e) ==> e == ValidationError::MalformedAddress,
    {
        match parse_email_address(adresse) {
            Some(a) => Ok(Client { id, adresse: a, received_emails: None }),
            None => Err(ValidationError::MalformedAddress),
        }
    }

    /// The id.
    pub fn id(&self) -> (r: &str)
        ensures
            r@ == self.spec_id(),
    {
        self.id.as_str()
    }

    /// The address.
    pub fn adresse(&self) -> (r: &str)
        ensures
            r@ == self.spec_adresse(),
    {
        self.adresse.as_str()
    }
}

} // verus!
