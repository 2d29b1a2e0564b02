//! A plain email body: subject and text, stored by id in the catalog.

use vstd::prelude::*;

use crate::ids::create_id;

verus! {

/// A plain email: subject and body, under a collision-resistant id.
#[derive(Debug)]
pub struct PlainEmail {
    id: String,
    subject: String,
    body: String,
}

impl PlainEmail {
    /// The id, as characters.
    pub closed spec fn spec_id(self) -> Seq<char> {
        self.id@
    }

    /// The subject, as characters.
    pub closed spec fn spec_subject(self) -> Seq<char> {
        self.subject@
    }

    /// The body, as characters.
    pub closed spec fn spec_body(self) -> Seq<char> {
        self.body@
    }

    /// A plain email under a fresh id.
    pub(crate) fn new(subject: String, body: String) -> (r: PlainEmail)
        ensures
            r.spec_subject() == subject@,
            r.spec_body() == body@,
            r.spec_id().len() == 24,
    {
        PlainEmail { id: create_id(), subject, body }
    }

    /// A plain email under a fresh id; the caller persists it.
    pub fn create(subject: String, body: String) -> (r: PlainEmail)
        ensures
            r.spec_subject() == subject@,
            r.spec_body() == body@,
            r.spec_id().len() == 24,
    {
        Self::new(subject, body)
    }

    /// Rebuild a plain email from its stored columns.
    pub fn from_sql(id: String, subject: String, body: String) -> (r: PlainEmail)
        ensures
            r.spec_id() == id@,
            r.spec_subject() == subject@,
            r.spec_body() == body@,
    {
        PlainEmail { id, subject, body }
    }

    /// The subject.
    pub fn subject(&self) -> (r: &str)
        ensures
            r@ == self.spec_subject(),
    {
        self.subject.as_str()
    }

    /// The body.
    pub fn body(&self) -> (r: &str)
        ensures
            r@ == self.spec_body(),
    {
        self.body.as_str()
    }

    /// The id.
    pub fn id(&self) -> (r: &str)
        ensures
            r@ == self.spec_id(),
    {
        self.id.as_str()
    }
}

} // verus!
