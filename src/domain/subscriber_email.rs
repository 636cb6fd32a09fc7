use vstd::prelude::*;
use vstd::string::*;

verus! {

/// Whether a string is an email address by the HTML5 grammar that the
/// `validator` crate checks.
pub uninterp spec fn valid_email_of(s: Seq<char>) -> bool;

/// An `@` with at least one character on each side of it.
pub open spec fn has_inner_at(s: Seq<char>) -> bool {
    exists|i: int| 0 < i < s.len() - 1 && s[i] == '@'
}

/// Relies on `validator::validate_email`: the HTML5 email grammar. It refuses
/// a string without `@`, and it splits at the last `@` into a local part that
/// must hold at least one character and a domain that must start with one.
#[verifier::external_body]
fn validate_email(s: &str) -> (r: bool)
    ensures
        r == valid_email_of(s@),
        r ==> has_inner_at(s@),
{
    validator::validate_email(s)
}

/// An email address that passed the grammar check.
#[derive(Debug)]
pub struct SubscriberEmail(String);

impl View for SubscriberEmail {
    type V = Seq<char>;

    closed spec fn view(&self) -> Seq<char> {
        self.0@
    }
}

impl SubscriberEmail {
    pub closed spec fn wf(&self) -> bool {
        valid_email_of(self.0@)
    }

    /// Accepts `email` exactly when it passes the grammar check; the error
    /// names the rejected input.
    pub fn parse(email: String) -> (r: Result<SubscriberEmail, String>)
        ensures
            r is Ok <==> valid_email_of(email@),
            r matches Ok(e) ==> e@ == email@ && e.wf(),
            r matches Err(m) ==> m@ == email@ + " is not a valid email"@,
    {
        let valid = validate_email(email.as_str());
        Self::from_verdict(email, valid)
    }

    /// Builds the result of `parse` from the grammar check's verdict on `email`.
    pub fn from_verdict(email: String, valid: bool) -> (r: Result<SubscriberEmail, String>)
        requires
            valid ==> valid_email_of(email@),
        ensures
            r is Ok <==> valid,
            r matches Ok(e) ==> e@ == email@ && e.wf(),
            r matches Err(m) ==> m@ == email@ + " is not a valid email"@,
    {
        if valid {
            Ok(SubscriberEmail(email))
        } else {
            let mut m = email.clone();
            m.append(" is not a valid email");
            Err(m)
        }
    }

    pub fn as_str(&self) -> (r: &str)
        ensures
            r@ == self@,
    {
        self.0.as_str()
    }
}

} // verus!
