//! Emails of the catalog: a sender address, a tag list, and a plain or
//! templated body.

use vstd::prelude::*;

pub mod builder;
pub mod plain_email;
pub mod tags;
pub mod template_email;

pub use builder::EmailBuilder;
pub use plain_email::PlainEmail;
pub use tags::Tags;
pub use template_email::TemplateEmail;

use crate::address::email_valid;
use crate::address::parse_email_address;
use crate::email::tags::all_tags_ok;
use crate::email::tags::spec_join;
use crate::email::tags::spec_split;
use crate::email::tags::strings_view;
use crate::error::ValidationError;
use crate::ids::create_id;

verus! {

/// The body of an email: plain, or templated (never rendered; rejected at
/// send time).
#[derive(Debug)]
pub enum EmailModel {
    Plain(PlainEmail),
    Template(TemplateEmail),
}

/// An email of the catalog: sender address, tags, and a body.
#[derive(Debug)]
pub struct Email {
    id: String,
    sender_adresse: String,
    tags: Tags,
    email: EmailModel,
}

impl Email {
    /// The id, as characters.
    pub closed spec fn spec_id(self) -> Seq<char> {
        self.id@
    }

    /// The sender address, as characters.
    pub closed spec fn spec_sender(self) -> Seq<char> {
        self.sender_adresse@
    }

    /// The tag list, as character sequences.
    pub closed spec fn spec_tags(self) -> Seq<Seq<char>> {
        self.tags@
    }

    /// The body.
    pub closed spec fn spec_model(self) -> EmailModel {
        self.email
    }

    /// The type's invariant: the sender address is valid and no tag holds
    /// the separator.
    pub open spec fn wf(self) -> bool {
        &&& email_valid(self.spec_sender())
        &&& all_tags_ok(self.spec_tags())
    }

    /// Put validated parts together under the given id.
    pub(crate) fn assemble(id: String, sender_adresse: String, tags: Tags, email: EmailModel) -> (r:
        Email)
        requires
            email_valid(sender_adresse@),
            tags.wf(),
        ensures
            r.spec_id() == id@,
            r.spec_sender() == sender_adresse@,
            r.spec_tags() == tags@,
            r.spec_model() == email,
            r.wf(),
    {
        Email { id, sender_adresse, tags, email }
    }

    /// A builder for an email.
    pub fn builder() -> (r: EmailBuilder)
        ensures
            r == EmailBuilder::spec_empty(),
    {
        EmailBuilder::new()
    }

    /// An email under a fresh id; rejected iff the sender address is
    /// malformed or a tag holds the separator (the address is judged first).
    /// The caller persists the email and its body.
    pub fn create(sender_adresse: &str, email: EmailModel, tags: Vec<String>) -> (r: Result<
        Email,
        ValidationError,
    >)
        ensures
            r is Ok <==> email_valid(sender_adresse@) && all_tags_ok(strings_view(tags@)),
            r matches Ok(e) ==> {
                &&& e.spec_sender() == sender_adresse@
                &&& e.spec_tags() == strings_view(tags@)
                &&& e.spec_model() == email
                &&& e.spec_id().len() == 24
                &&& e.wf()
            },
            r matches Err(e) ==> e == if !email_valid(sender_adresse@) {
                ValidationError::MalformedAddress
            } else {
                ValidationError::ForbiddenTagCharacter
            },
    {
        let sender = match parse_email_address(sender_adresse) {
            Some(s) => s,
            None => {
                return Err(ValidationError::MalformedAddress);
            },
        };
        let tags = match Tags::new(tags) {
            Ok(t) => t,
            Err(_) => {
                return Err(ValidationError::ForbiddenTagCharacter);
            },
        };
        Ok(Email { id: create_id(), sender_adresse: sender, tags, email })
    }

    /// Rebuild an email from its stored columns: the tag column is decoded
    /// at the separator, and the stored sender address is validated anew;
    /// rejected iff it is malformed.
    pub fn from_sql(id: String, sender_adresse: &str, tags_encoded: &str, email: EmailModel) -> (r:
        Result<Email, ValidationError>)
        ensures
            r is Ok <==> email_valid(sender_adresse@),
            r matches Ok(e) ==> {
                &&& e.spec_id() == id@
                &&& e.spec_sender() == sender_adresse@
                &&& e.spec_tags() == spec_split(tags_encoded@)
                &&& e.spec_model() == email
                &&& e.wf()
            },
            r matches Err(e) ==> e == ValidationError::MalformedAddress,
    {
        let sender = match parse_email_address(sender_adresse) {
            Some(s) => s,
            None => {
                return Err(ValidationError::MalformedAddress);
            },
        };
        let tags = Tags::decode(tags_encoded);
        Ok(Email { id, sender_adresse: sender, tags, email })
    }

    /// The id.
    pub fn id(&self) -> (r: &str)
        ensures
            r@ == self.spec_id(),
    {
        self.id.as_str()
    }

    /// The id; alias kept for diagnostic callers.
    pub fn id_(&self) -> (r: &str)
        ensures
            r@ == self.spec_id(),
    {
        self.id.as_str()
    }

    /// The sender address.
    pub fn sender_adresse(&self) -> (r: &str)
        ensures
            r@ == self.spec_sender(),
    {
        self.sender_adresse.as_str()
    }

    /// The tag column as stored: the tags joined with the separator.
    pub fn tags_encoded(&self) -> (r: String)
        ensures
            r@ == spec_join(self.spec_tags()),
    {
        self.tags.encode()
    }

    /// The body.
    pub fn model(&self) -> (r: &EmailModel)
        ensures
            *r == self.spec_model(),
    {
        &self.email
    }

    /// Whether the body is plain; templated bodies are rejected at send
    /// time.
    pub fn is_plain(&self) -> (r: bool)
        ensures
            r == (self.spec_model() is Plain),
    {
        match &self.email {
            EmailModel::Plain(_) => true,
            EmailModel::Template(_) => false,
        }
    }

    /// The subject; templated bodies are not yet rendered, so the body must
    /// be plain.
    pub fn subject(&self) -> (r: &str)
        requires
            self.spec_model() is Plain,
        ensures
            (match self.spec_model() {
                EmailModel::Plain(p) => r@ == p.spec_subject(),
                EmailModel::Template(_) => false,
            }),
    {
        match &self.email {
            EmailModel::Plain(p) => p.subject(),
            EmailModel::Template(_) => "",
        }
    }

    /// The body text; templated bodies are not yet rendered, so the body
    /// must be plain.
    pub fn body(&self) -> (r: String)
        requires
            self.spec_model() is Plain,
        ensures
            (match self.spec_model() {
                EmailModel::Plain(p) => r@ == p.spec_body(),
                EmailModel::Template(_) => false,
            }),
    {
        match &self.email {
            EmailModel::Plain(p) => p.body().to_owned(),
            EmailModel::Template(_) => String::new(),
        }
    }
}

} // verus!
