//! A step-by-step builder for emails.
//!
//! Every field is optional until `create`; validation failures — a malformed
//! sender address, a forbidden tag character, a template without a source
//! path, a missing sender — are returned, never panicked.

use vstd::prelude::*;

use crate::address::email_valid;
use crate::address::parse_email_address;
use crate::email::Email;
use crate::email::EmailModel;
use crate::email::PlainEmail;
use crate::email::TemplateEmail;
use crate::email::tags::Tags;
use crate::email::tags::all_tags_ok;
use crate::email::tags::strings_view;
use crate::error::ValidationError;
use crate::ids::create_id;

verus! {

/// An email under construction.
#[derive(Debug)]
pub struct EmailBuilder {
    subject: Option<String>,
    plain_body: Option<String>,
    template_body: Option<String>,
    sender_adresse: Option<String>,
    source_path: Option<String>,
    tags: Option<Tags>,
}

impl EmailBuilder {
    /// Whatever address or tags the builder holds already passed validation.
    #[verifier::type_invariant]
    pub closed spec fn inv(self) -> bool {
        &&& match self.sender_adresse {
            Some(s) => email_valid(s@),
            None => true,
        }
        &&& match self.tags {
            Some(t) => t.wf(),
            None => true,
        }
    }

    /// The subject set so far, as characters.
    pub closed spec fn spec_subject(self) -> Option<Seq<char>> {
        match self.subject {
            Some(s) => Some(s@),
            None => None,
        }
    }

    /// The plain body set so far, as characters.
    pub closed spec fn spec_plain_body(self) -> Option<Seq<char>> {
        match self.plain_body {
            Some(s) => Some(s@),
            None => None,
        }
    }

    /// The template body set so far, as characters.
    pub closed spec fn spec_template_body(self) -> Option<Seq<char>> {
        match self.template_body {
            Some(s) => Some(s@),
            None => None,
        }
    }

    /// The sender address set so far, as characters.
    pub closed spec fn spec_sender(self) -> Option<Seq<char>> {
        match self.sender_adresse {
            Some(s) => Some(s@),
            None => None,
        }
    }

    /// The source path set so far, as characters.
    pub closed spec fn spec_source_path(self) -> Option<Seq<char>> {
        match self.source_path {
            Some(s) => Some(s@),
            None => None,
        }
    }

    /// The tag list set so far, as character sequences.
    pub closed spec fn spec_tags(self) -> Option<Seq<Seq<char>>> {
        match self.tags {
            Some(t) => Some(t@),
            None => None,
        }
    }

    /// The view of a builder with nothing set.
    pub closed spec fn spec_empty() -> EmailBuilder {
        EmailBuilder {
            subject: None,
            plain_body: None,
            template_body: None,
            sender_adresse: None,
            source_path: None,
            tags: None,
        }
    }

    /// An empty builder.
    pub fn new() -> (r: EmailBuilder)
        ensures
            r == Self::spec_empty(),
            r.spec_subject() is None,
            r.spec_plain_body() is None,
            r.spec_template_body() is None,
            r.spec_sender() is None,
            r.spec_source_path() is None,
            r.spec_tags() is None,
    {
        EmailBuilder {
            subject: None,
            plain_body: None,
            template_body: None,
            sender_adresse: None,
            source_path: None,
            tags: None,
        }
    }

    /// Set the subject.
    pub fn subject(self, subject: &str) -> (r: EmailBuilder)
        ensures
            r.spec_subject() == Some(subject@),
            r.spec_plain_body() == self.spec_plain_body(),
            r.spec_template_body() == self.spec_template_body(),
            r.spec_sender() == self.spec_sender(),
            r.spec_source_path() == self.spec_source_path(),
            r.spec_tags() == self.spec_tags(),
    {
        proof {
            use_type_invariant(&self);
        }
        EmailBuilder { subject: Some(subject.to_owned()), ..self }
    }

    /// Set and validate the sender address; rejected iff malformed.
    pub fn sender_adresse(self, sender_adresse: &str) -> (r: Result<EmailBuilder, ValidationError>)
        ensures
            r is Ok <==> email_valid(sender_adresse@),
            r matches Ok(b) ==> {
                &&& b.spec_sender() == Some(sender_adresse@)
                &&& b.spec_subject() == self.spec_subject()
                &&& b.spec_plain_body() == self.spec_plain_body()
                &&& b.spec_template_body() == self.spec_template_body()
                &&& b.spec_source_path() == self.spec_source_path()
                &&& b.spec_tags() == self.spec_tags()
            },
            r matches Err(e) ==> e == ValidationError::MalformedAddress,
    {
        proof {
            use_type_invariant(&self);
        }
        match parse_email_address(sender_adresse) {
            Some(s) => Ok(EmailBuilder { sender_adresse: Some(s), ..self }),
            None => Err(ValidationError::MalformedAddress),
        }
    }

    /// Set a plain body; incompatible with a template body, which must not
    /// have been set.
    pub fn plain_body(self, body: &str) -> (r: EmailBuilder)
        requires
            self.spec_template_body() is None,
        ensures
            r.spec_plain_body() == Some(body@),
            r.spec_subject() == self.spec_subject(),
            r.spec_template_body() == self.spec_template_body(),
            r.spec_sender() == self.spec_sender(),
            r.spec_source_path() == self.spec_source_path(),
            r.spec_tags() == self.spec_tags(),
    {
        proof {
            use_type_invariant(&self);
        }
        EmailBuilder { plain_body: Some(body.to_owned()), ..self }
    }

    /// Set a template body; incompatible with a plain body, which must not
    /// have been set.
    pub fn template_body(self, body: &str) -> (r: EmailBuilder)
        requires
            self.spec_plain_body() is None,
        ensures
            r.spec_template_body() == Some(body@),
            r.spec_subject() == self.spec_subject(),
            r.spec_plain_body() == self.spec_plain_body(),
            r.spec_sender() == self.spec_sender(),
            r.spec_source_path() == self.spec_source_path(),
            r.spec_tags() == self.spec_tags(),
    {
        proof {
            use_type_invariant(&self);
        }
        EmailBuilder { template_body: Some(body.to_owned()), ..self }
    }

    /// Set the template's source path.
    pub fn source_path(self, source_path: &str) -> (r: EmailBuilder)
        ensures
            r.spec_source_path() == Some(source_path@),
            r.spec_subject() == self.spec_subject(),
            r.spec_plain_body() == self.spec_plain_body(),
            r.spec_template_body() == self.spec_template_body(),
            r.spec_sender() == self.spec_sender(),
            r.spec_tags() == self.spec_tags(),
    {
        proof {
            use_type_invariant(&self);
        }
        EmailBuilder { source_path: Some(source_path.to_owned()), ..self }
    }

    /// Set and validate the tag list; rejected iff a tag holds the
    /// separator.
    pub fn tags(self, tags: Vec<String>) -> (r: Result<EmailBuilder, ValidationError>)
        ensures
            r is Ok <==> all_tags_ok(strings_view(tags@)),
            r matches Ok(b) ==> {
                &&& b.spec_tags() == Some(strings_view(tags@))
                &&& b.spec_subject() == self.spec_subject()
                &&& b.spec_plain_body() == self.spec_plain_body()
                &&& b.spec_template_body() == self.spec_template_body()
                &&& b.spec_sender() == self.spec_sender()
                &&& b.spec_source_path() == self.spec_source_path()
            },
            r matches Err(e) ==> e == ValidationError::ForbiddenTagCharacter,
    {
        proof {
            use_type_invariant(&self);
        }
        match Tags::new(tags) {
            Ok(t) => Ok(EmailBuilder { tags: Some(t), ..self }),
            Err(e) => Err(e),
        }
    }

    /// Whether `create` succeeds: a sender is set, and a template body — if
    /// that is what the email has — comes with a source path.
    pub open spec fn buildable(self) -> bool {
        &&& self.spec_sender() is Some
        &&& (self.spec_plain_body() is Some || self.spec_template_body() is None
            || self.spec_source_path() is Some)
    }

    /// Whether the body `m` is the one this builder describes: the plain
    /// body if one is set, else the template body with its source path, else
    /// an empty plain body; the subject defaults to empty.
    pub open spec fn model_matches(self, m: EmailModel) -> bool {
        let subject = match self.spec_subject() {
            Some(s) => s,
            None => Seq::<char>::empty(),
        };
        match self.spec_plain_body() {
            Some(pb) => m matches EmailModel::Plain(p) && p.spec_subject() == subject
                && p.spec_body() == pb,
            None => match self.spec_template_body() {
                Some(tb) => m matches EmailModel::Template(t) && t.spec_subject() == subject
                    && t.spec_body() == tb && Some(t.spec_source_path())
                    == self.spec_source_path(),
                None => m matches EmailModel::Plain(p) && p.spec_subject() == subject
                    && p.spec_body().len() == 0,
            },
        }
    }

    /// Build the email under a fresh id; the caller persists it. Fails with
    /// `MissingSender` when no sender was set, and with `MissingSourcePath`
    /// when a template body lacks its source path.
    pub fn create(self) -> (r: Result<Email, ValidationError>)
        ensures
            r is Ok <==> self.buildable(),
            r matches Ok(e) ==> {
                &&& Some(e.spec_sender()) == self.spec_sender()
                &&& e.spec_tags() == (match self.spec_tags() {
                    Some(t) => t,
                    None => Seq::<Seq<char>>::empty(),
                })
                &&& self.model_matches(e.spec_model())
                &&& e.spec_id().len() == 24
                &&& e.wf()
            },
            r matches Err(e) ==> e == if self.spec_sender() is None {
                ValidationError::MissingSender
            } else {
                ValidationError::MissingSourcePath
            },
    {
        proof {
            use_type_invariant(&self);
        }
        let EmailBuilder { subject, plain_body, template_body, sender_adresse, source_path, tags } =
            self;
        let subject = match subject {
            Some(s) => s,
            None => String::new(),
        };
        let sender_adresse = match sender_adresse {
            Some(s) => s,
            None => {
                return Err(ValidationError::MissingSender);
            },
        };
        let email = match plain_body {
            Some(pb) => EmailModel::Plain(PlainEmail::new(subject, pb)),
            None => match template_body {
                Some(tb) => {
                    let source_path = match source_path {
                        Some(sp) => sp,
                        None => {
                            return Err(ValidationError::MissingSourcePath);
                        },
                    };
                    EmailModel::Template(TemplateEmail::new(subject, tb, source_path))
                },
                None => EmailModel::Plain(PlainEmail::new(subject, String::new())),
            },
        };
        let tags = match tags {
            Some(t) => t,
            None => {
                let empty: Vec<String> = Vec::new();
                match Tags::new(empty) {
                    Ok(t) => t,
                    Err(_) => {
                        return Err(ValidationError::ForbiddenTagCharacter);
                    },
                }
            },
        };
        Ok(Email::assemble(create_id(), sender_adresse, tags, email))
    }
}

} // verus!
