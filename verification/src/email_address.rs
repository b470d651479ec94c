//! E-mail addresses, validated by the `validator` crate.

use crate::validation::{ValidationError, ValidationFault};
use vstd::prelude::*;

verus! {

/// Whether `validator::validate_email` accepts the text as an e-mail address.
pub uninterp spec fn email_is_valid(address: Seq<char>) -> bool;

/// Asks `validator::validate_email` whether the text is an e-mail address.
/// The contract names the answer; the rules are the outside crate's.
#[verifier::external_body]
fn validate_email(value: &str) -> (valid: bool)
    ensures
        valid == email_is_valid(value@),
{
    validator::validate_email(value)
}

/// A validated e-mail address.
#[derive(Debug)]
pub struct EmailAddress {
    value: String,
}

impl View for EmailAddress {
    type V = Seq<char>;

    closed spec fn view(&self) -> Seq<char> {
        self.value@
    }
}

impl Clone for EmailAddress {
    fn clone(&self) -> (copy: Self)
        ensures
            copy@ == self@,
    {
        proof {
            use_type_invariant(self);
        }
        EmailAddress { value: self.value.clone() }
    }
}

impl EmailAddress {
    #[verifier::type_invariant]
    spec fn holds_valid_address(&self) -> bool {
        email_is_valid(self.value@)
    }

    /// What validation answers for a text, given whether the validator
    /// accepted it: nothing to object, or the error that keeps the text.
    pub fn validation_result(value: &str, valid: bool) -> (outcome: Result<(), ValidationError>)
        ensures
            valid ==> outcome is Ok,
            !valid ==> (outcome matches Err(e) && e@ == ValidationFault::EmailAddress(value@)),
    {
        if valid {
            Ok(())
        } else {
            Err(ValidationError::EmailAddress(value.to_owned()))
        }
    }

    /// Makes an e-mail address of a text that the validator accepts. Any
    /// other text is a validation error that keeps the text.
    pub fn gen(value: &str) -> (address: Result<Self, ValidationError>)
        ensures
            address matches Ok(a) ==> email_is_valid(value@) && a@ == value@,
            address matches Err(e) ==> !email_is_valid(value@) && e@
                == ValidationFault::EmailAddress(value@),
    {
        match Self::validation_result(value, validate_email(value)) {
            Ok(()) => Ok(EmailAddress { value: value.to_owned() }),
            Err(e) => Err(e),
        }
    }

    /// The address as text. Every address is one that the validator accepts.
    pub fn value(&self) -> (text: &str)
        ensures
            text@ == self@,
            email_is_valid(text@),
    {
        proof {
            use_type_invariant(self);
        }
        self.value.as_str()
    }
}

} // verus!
