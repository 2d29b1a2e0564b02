//! Email address validation, through a trusted parser.

use vstd::prelude::*;

verus! {

/// Whether a string is a valid RFC 5321 email address, as the catalog's
/// parser judges it. The full grammar is the parser's; this name stands for
/// its verdict, a function of the characters alone.
pub uninterp spec fn email_valid(s: Seq<char>) -> bool;

/// Relies on `email_address::EmailAddress::from_str`: it accepts exactly the
/// valid addresses, and on success stores the input string unchanged (its
/// source wraps `address.to_owned()`).
#[verifier::external_body]
pub(crate) fn parse_email_address(s: &str) -> (r: Option<String>)
    ensures
        r is Some <==> email_valid(s@),
        r matches Some(t) ==> t@ == s@,
{
    match <email_address::EmailAddress as core::str::FromStr>::from_str(s) {
        Ok(a) => Some(String::from(a)),
        Err(_) => None,
    }
}

} // verus!
