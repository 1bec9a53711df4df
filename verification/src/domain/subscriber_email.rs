//! The email address of a subscriber.

use vstd::prelude::*;
use vstd::string::StringExecFns;

verus! {

/// Whether the text `s` is a syntactically valid email address, as the
/// validator crate judges it.
pub uninterp spec fn email_is_valid(s: Seq<char>) -> bool;

/// What `parse` answers to a text that is not a valid address.
pub open spec fn invalid_email_message(s: Seq<char>) -> Seq<char> {
    s + " is not a valid subscriber email"@
}

/// `validator::validate_email` of validator: trusted to decide whether `s`
/// is a valid email address.
#[verifier::external_body]
fn validate(s: &str) -> (valid: bool)
    ensures
        valid == email_is_valid(s@),
{
    validator::validate_email(s)
}

/// Turns the validator's verdict on `s` into the text to keep or the
/// message that refuses it.
pub fn accept_or_refuse(s: &str, accepted: bool) -> (r: Result<String, String>)
    ensures
        r is Ok <==> accepted,
        r matches Ok(text) ==> text@ == s@,
        r matches Err(message) ==> message@ == invalid_email_message(s@),
{
    if accepted {
        Ok(String::from_str(s))
    } else {
        let mut message = String::from_str(s);
        message.append(" is not a valid subscriber email");
        Err(message)
    }
}

/// An email address that passed validation.
#[derive(Debug, PartialEq, Eq)]
pub struct SubscriberEmail(String);

impl View for SubscriberEmail {
    type V = Seq<char>;

    closed spec fn view(&self) -> Seq<char> {
        self.0@
    }
}

impl SubscriberEmail {
    #[verifier::type_invariant]
    spec fn valid(self) -> bool {
        email_is_valid(self.0@)
    }

    /// Accepts `s` as an address when it is valid, and keeps it unchanged;
    /// otherwise answers with a message that quotes `s`.
    pub fn parse(s: &str) -> (r: Result<Self, String>)
        ensures
            r is Ok <==> email_is_valid(s@),
            r matches Ok(email) ==> email@ == s@,
            r matches Err(message) ==> message@ == invalid_email_message(s@),
    {
        match accept_or_refuse(s, validate(s)) {
            Ok(text) => Ok(Self(text)),
            Err(message) => Err(message),
        }
    }

    /// The address as text; it is always a valid address.
    pub fn as_ref(&self) -> (s: &String)
        ensures
            s@ == self@,
            email_is_valid(s@),
    {
        proof {
            use_type_invariant(self);
        }
        &self.0
    }
}

} // verus!
