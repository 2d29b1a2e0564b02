//! Errors returned by constructors of the catalog value types.
//!
//! Validation failures are reported to the caller at construction time; no
//! verified function of this crate panics.

use vstd::prelude::*;

verus! {

/// A value offered to a constructor was malformed.
#[derive(Clone, Copy, Debug, PartialEq, Eq, Structural)]
pub enum ValidationError {
    /// A sender or recipient address is not a well-formed email address.
    MalformedAddress,
    /// A tag contains the reserved separator character.
    ForbiddenTagCharacter,
    /// An email was built without a sender address.
    MissingSender,
    /// A template email was built without a source path.
    MissingSourcePath,
}

impl ValidationError {
    /// A short description, for logs and messages.
    pub fn message(&self) -> (r: &'static str)
        ensures
            r@.len() > 0,
    {
        proof {
            reveal_strlit("malformed email address");
            reveal_strlit("the tag separator is forbidden inside a tag");
            reveal_strlit("a sender address is required");
            reveal_strlit("a source path is required for a template email");
        }
        match self {
            ValidationError::MalformedAddress => "malformed email address",
            ValidationError::ForbiddenTagCharacter => "the tag separator is forbidden inside a tag",
            ValidationError::MissingSender => "a sender address is required",
            ValidationError::MissingSourcePath => "a source path is required for a template email",
        }
    }
}

} // verus!
