//! A templated email body: structurally present in the catalog, but never
//! rendered; sending one is rejected.

use vstd::prelude::*;

use crate::ids::create_id;

verus! {

/// A templated email: subject, template text and its source path, under a
/// collision-resistant id.
#[derive(Debug)]
pub struct TemplateEmail {
    id: String,
    subject: String,
    body: String,
    source_path: String,
}

impl TemplateEmail {
    /// The id, as characters.
    pub closed spec fn spec_id(self) -> Seq<char> {
        self.id@
    }

    /// The subject, as characters.
    pub closed spec fn spec_subject(self) -> Seq<char> {
        self.subject@
    }

    /// The template text, as characters.
    pub closed spec fn spec_body(self) -> Seq<char> {
        self.body@
    }

    /// The source path, as characters.
    pub closed spec fn spec_source_path(self) -> Seq<char> {
        self.source_path@
    }

    /// A templated email under a fresh id.
    pub(crate) fn new(subject: String, body: String, source_path: String) -> (r: TemplateEmail)
        ensures
            r.spec_subject() == subject@,
            r.spec_body() == body@,
            r.spec_source_path() == source_path@,
            r.spec_id().len() == 24,
    {
        TemplateEmail { id: create_id(), subject, body, source_path }
    }

    /// A templated email under a fresh id; the caller persists it.
    pub fn create(subject: String, body: String, source_path: String) -> (r: TemplateEmail)
        ensures
            r.spec_subject() == subject@,
            r.spec_body() == body@,
            r.spec_source_path() == source_path@,
            r.spec_id().len() == 24,
    {
        Self::new(subject, body, source_path)
    }

    /// The id.
    pub fn id(&self) -> (r: &str)
        ensures
            r@ == self.spec_id(),
    {
        self.id.as_str()
    }

    /// The subject.
    pub fn subject(&self) -> (r: &str)
        ensures
            r@ == self.spec_subject(),
    {
        self.subject.as_str()
    }

    /// The template text.
    pub fn body(&self) -> (r: &str)
        ensures
            r@ == self.spec_body(),
    {
        self.body.as_str()
    }

    /// The source path.
    pub fn source_path(&self) -> (r: &str)
        ensures
            r@ == self.spec_source_path(),
    {
        self.source_path.as_str()
    }
}

} // verus!
