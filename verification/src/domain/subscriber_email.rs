//! Email addresses of subscribers.

use validator::validate_email;
use vstd::prelude::*;
use vstd::string::StringExecFns;

verus! {

/// Whether `s` is an email address by the grammar of the HTML5 standard:
/// what `validator::validate_email` answers for it.
pub uninterp spec fn email_grammar(s: Seq<char>) -> bool;

/// Whether `s` begins with its only `@`, so that nothing stands before the
/// last `@` in it.
pub open spec fn local_part_is_empty(s: Seq<char>) -> bool {
    s.len() > 0 && s[0] == '@' && !s.subrange(1, s.len() as int).contains('@')
}

/// Whether `s` ends with an `@`, so that nothing stands after the last `@`
/// in it.
pub open spec fn domain_is_empty(s: Seq<char>) -> bool {
    s.len() > 0 && s.last() == '@'
}

/// Whether `s` lacks a part that every email address has: it is empty, it
/// has no `@`, or nothing stands before or after its last `@`.
pub open spec fn malformed(s: Seq<char>) -> bool {
    s.len() == 0 || !s.contains('@') || local_part_is_empty(s) || domain_is_empty(s)
}

/// Whether `s` is accepted as an email address: the grammar accepts it, and
/// so it is not malformed.
pub open spec fn valid_email(s: Seq<char>) -> bool {
    email_grammar(s) && !malformed(s)
}

/// Asks `validator::validate_email` whether `s` is an email address.
/// Assumed: the answer depends on the text alone, and it is no for the empty
/// text, for a text without `@`, and for a text with nothing before its last
/// `@` or nothing after it.
#[verifier::external_body]
fn matches_email_grammar(s: &str) -> (b: bool)
    ensures
        b == email_grammar(s@),
        b ==> !malformed(s@),
{
    validate_email(s)
}

/// What follows the rejected text in the error that turns it down.
pub open spec fn rejection_suffix() -> Seq<char> {
    " is an invalid email."@
}

/// The error that turns `s` down: `s` followed by [`rejection_suffix`].
pub open spec fn rejection_text(s: Seq<char>) -> Seq<char> {
    s + rejection_suffix()
}

/// The error that turns `s` down.
pub fn rejection(s: String) -> (e: String)
    ensures
        e@ == rejection_text(s@),
{
    s.concat(" is an invalid email.")
}

/// A subscriber's email address. A value of this type holds a text that
/// [`SubscriberEmail::parse`] accepted.
#[derive(Debug)]
pub struct SubscriberEmail(String);

impl View for SubscriberEmail {
    type V = Seq<char>;

    closed spec fn view(&self) -> Seq<char> {
        self.0@
    }
}

impl SubscriberEmail {
    #[verifier::type_invariant]
    closed spec fn accepted(&self) -> bool {
        valid_email(self.0@)
    }

    /// Accepts `s` as an email address, unchanged, or turns it down with an
    /// error that carries it.
    pub fn parse(s: String) -> (r: Result<SubscriberEmail, String>)
        ensures
            match r {
                Ok(email) => valid_email(s@) && email@ == s@,
                Err(e) => !email_grammar(s@) && e@ == rejection_text(s@),
            },
            malformed(s@) ==> r is Err,
    {
        if matches_email_grammar(s.as_str()) {
            Ok(SubscriberEmail(s))
        } else {
            Err(rejection(s))
        }
    }
}

impl AsRef<str> for SubscriberEmail {
    /// The address as it was given to [`SubscriberEmail::parse`].
    fn as_ref(&self) -> (text: &str)
        ensures
            text@ == self@,
            valid_email(self@),
    {
        proof {
            use_type_invariant(self);
        }
        self.0.as_str()
    }
}

} // verus!
