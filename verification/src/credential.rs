//! Secret texts: tokens and passwords.

use vstd::prelude::*;

verus! {

/// A secret text. The type has no formatting trait, so a value cannot be
/// printed or logged; the text is read through [`Credential::expose`] alone.
pub struct Credential(String);

impl View for Credential {
    type V = Seq<char>;

    closed spec fn view(&self) -> Seq<char> {
        self.0@
    }
}

impl Credential {
    pub fn new(secret: String) -> (c: Credential)
        ensures
            c@ == secret@,
    {
        Credential(secret)
    }

    /// The secret text itself.
    pub fn expose(&self) -> (secret: &str)
        ensures
            secret@ == self@,
    {
        self.0.as_str()
    }
}

} // verus!
