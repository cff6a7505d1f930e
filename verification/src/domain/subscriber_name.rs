//! Names of subscribers.
//!
//! A name is accepted when it is not blank, has at most
//! [`MAX_NAME_GRAPHEMES`] grapheme clusters and holds none of the forbidden
//! characters. The three tests are made in that order and the first that
//! fails gives the rejection.

use unicode_segmentation::UnicodeSegmentation;
use vstd::prelude::*;

verus! {

/// Most grapheme clusters a name may have.
pub const MAX_NAME_GRAPHEMES: usize = 256;

/// Whether `c` has the Unicode property `White_Space`: what
/// `char::is_whitespace` answers for it.
pub uninterp spec fn white_space(c: char) -> bool;

/// The number of extended grapheme clusters in `s`: what counting the items
/// of `UnicodeSegmentation::graphemes(s, true)` gives.
pub uninterp spec fn grapheme_clusters(s: Seq<char>) -> nat;

/// `char::is_whitespace` tells whether a character has the Unicode property
/// `White_Space`. Assumed: the answer depends on the character alone.
pub assume_specification[ char::is_whitespace ](c: char) -> (b: bool)
    ensures
        b == white_space(c),
;

/// Counts the items of `UnicodeSegmentation::graphemes(s, true)`, the
/// extended grapheme clusters of `s`. Assumed: the count depends on the text
/// alone.
#[verifier::external_body]
fn count_graphemes(s: &str) -> (n: usize)
    ensures
        n == grapheme_clusters(s@),
{
    s.graphemes(true).count()
}

/// The characters no name may hold.
pub open spec fn forbidden(c: char) -> bool {
    c == '/' || c == '(' || c == ')' || c == '"' || c == '<' || c == '>' || c == '\\' || c == '{'
        || c == '}'
}

/// Whether some character of `s` is forbidden.
pub open spec fn holds_forbidden(s: Seq<char>) -> bool {
    exists|i: int| 0 <= i < s.len() && forbidden(#[trigger] s[i])
}

/// Whether `s` holds nothing but white space. The empty text is blank.
pub open spec fn blank(s: Seq<char>) -> bool {
    forall|i: int| 0 <= i < s.len() ==> white_space(#[trigger] s[i])
}

/// `s` without the white space at its start.
pub open spec fn trim_start(s: Seq<char>) -> Seq<char>
    decreases s.len(),
{
    if s.len() > 0 && white_space(s.first()) {
        trim_start(s.drop_first())
    } else {
        s
    }
}

/// `s` without the white space at its end.
pub open spec fn trim_end(s: Seq<char>) -> Seq<char>
    decreases s.len(),
{
    if s.len() > 0 && white_space(s.last()) {
        trim_end(s.drop_last())
    } else {
        s
    }
}

/// `s` with the white space at its start and at its end trimmed away.
pub open spec fn trimmed(s: Seq<char>) -> Seq<char> {
    trim_end(trim_start(s))
}

/// Why a name is turned down.
#[derive(Debug, Clone, Copy, PartialEq, Eq, Structural)]
pub enum NameRejection {
    /// Nothing is left of the name once white space is trimmed away.
    Blank,
    /// The name has more grapheme clusters than [`MAX_NAME_GRAPHEMES`].
    TooLong,
    /// The name holds a forbidden character.
    ForbiddenCharacter,
}

impl NameRejection {
    /// The text shown for the rejection.
    pub open spec fn text(self) -> Seq<char> {
        match self {
            NameRejection::Blank => "Subscriber name has to have at least one non-empty character"@,
            NameRejection::TooLong => "Subscriber name max length is 256 characters"@,
            NameRejection::ForbiddenCharacter =>
                "Subscriber name can't contain a forbidden character: ['/', '(', ')', '\"', '<', '>', '\\\\', '{', '}']"@,
        }
    }

    pub fn message(&self) -> (m: String)
        ensures
            m@ == self.text(),
    {
        match self {
            NameRejection::Blank => "Subscriber name has to have at least one non-empty character".to_owned(),
            NameRejection::TooLong => "Subscriber name max length is 256 characters".to_owned(),
            NameRejection::ForbiddenCharacter =>
                "Subscriber name can't contain a forbidden character: ['/', '(', ')', '\"', '<', '>', '\\\\', '{', '}']".to_owned(),
        }
    }
}

/// The decision on a name, from whether it is blank, how many grapheme
/// clusters it has and whether it holds a forbidden character: the first
/// test that fails, or `None` when the name passes all three.
pub open spec fn verdict(blank: bool, graphemes: nat, forbidden: bool) -> Option<NameRejection> {
    if blank {
        Some(NameRejection::Blank)
    } else if graphemes > MAX_NAME_GRAPHEMES {
        Some(NameRejection::TooLong)
    } else if forbidden {
        Some(NameRejection::ForbiddenCharacter)
    } else {
        None
    }
}

/// The decision on the name `s`.
pub open spec fn name_verdict(s: Seq<char>) -> Option<NameRejection> {
    verdict(blank(s), grapheme_clusters(s), holds_forbidden(s))
}

/// Whether `s` is accepted as a name.
pub open spec fn valid_name(s: Seq<char>) -> bool {
    name_verdict(s) is None
}

pub fn is_forbidden(c: char) -> (b: bool)
    ensures
        b == forbidden(c),
{
    c == '/' || c == '(' || c == ')' || c == '"' || c == '<' || c == '>' || c == '\\' || c == '{'
        || c == '}'
}

pub fn contains_forbidden(s: &str) -> (b: bool)
    ensures
        b == holds_forbidden(s@),
{
    for c in it: s.chars()
        invariant
            it.seq() == s@,
            forall|i: int| 0 <= i < it.index() ==> !forbidden(#[trigger] s@[i]),
    {
        if is_forbidden(c) {
            return true;
        }
    }
    false
}

pub fn is_blank(s: &str) -> (b: bool)
    ensures
        b == blank(s@),
{
    for c in it: s.chars()
        invariant
            it.seq() == s@,
            forall|i: int| 0 <= i < it.index() ==> white_space(#[trigger] s@[i]),
    {
        if !c.is_whitespace() {
            return false;
        }
    }
    true
}

/// A subscriber's name. A value of this type holds a text that
/// [`SubscriberName::parse`] accepted.
#[derive(Debug)]
pub struct SubscriberName(String);

impl View for SubscriberName {
    type V = Seq<char>;

    closed spec fn view(&self) -> Seq<char> {
        self.0@
    }
}

impl SubscriberName {
    #[verifier::type_invariant]
    closed spec fn accepted(&self) -> bool {
        valid_name(self.0@)
    }

    /// Decides on the name `s`, given whether it is blank and how many
    /// grapheme clusters it has.
    pub fn screen(s: &str, blank: bool, graphemes: usize) -> (v: Option<NameRejection>)
        ensures
            v == verdict(blank, graphemes as nat, holds_forbidden(s@)),
    {
        if blank {
            Some(NameRejection::Blank)
        } else if graphemes > MAX_NAME_GRAPHEMES {
            Some(NameRejection::TooLong)
        } else if contains_forbidden(s) {
            Some(NameRejection::ForbiddenCharacter)
        } else {
            None
        }
    }

    /// Accepts `s` as a name, unchanged, or turns it down with the text of
    /// the rejection.
    pub fn parse(s: String) -> (r: Result<SubscriberName, String>)
        ensures
            match r {
                Ok(name) => valid_name(s@) && name@ == s@,
                Err(e) => name_verdict(s@) matches Some(why) && e@ == why.text(),
            },
            blank(s@) || holds_forbidden(s@) || grapheme_clusters(s@) > MAX_NAME_GRAPHEMES
                ==> r is Err,
            !blank(s@) && !holds_forbidden(s@) && grapheme_clusters(s@) <= MAX_NAME_GRAPHEMES
                ==> r is Ok,
    {
        let blank = is_blank(s.as_str());
        let graphemes = count_graphemes(s.as_str());
        match Self::screen(s.as_str(), blank, graphemes) {
            Some(why) => Err(why.message()),
            None => Ok(SubscriberName(s)),
        }
    }
}

impl AsRef<str> for SubscriberName {
    /// The name as it was given to [`SubscriberName::parse`].
    fn as_ref(&self) -> (text: &str)
        ensures
            text@ == self@,
            valid_name(self@),
    {
        proof {
            use_type_invariant(self);
        }
        self.0.as_str()
    }
}

proof fn lemma_trim_start(s: Seq<char>)
    ensures
        trim_start(s).len() == 0 <==> blank(s),
        trim_start(s).len() > 0 ==> !white_space(trim_start(s).first()),
    decreases s.len(),
{
    if s.len() > 0 && white_space(s.first()) {
        let rest = s.drop_first();
        lemma_trim_start(rest);
        if blank(rest) {
            assert forall|i: int| 0 <= i < s.len() implies white_space(#[trigger] s[i]) by {
                if i > 0 {
                    assert(s[i] == rest[i - 1]);
                }
            }
        } else {
            let i = choose|i: int| 0 <= i < rest.len() && !white_space(#[trigger] rest[i]);
            assert(s[i + 1] == rest[i]);
        }
    } else if s.len() > 0 {
        assert(!white_space(s[0]));
    }
}

proof fn lemma_trim_end_keeps_start(s: Seq<char>)
    requires
        s.len() > 0,
        !white_space(s.first()),
    ensures
        trim_end(s).len() > 0,
    decreases s.len(),
{
    if white_space(s.last()) {
        lemma_trim_end_keeps_start(s.drop_last());
    }
}

/// A text is blank exactly when nothing is left of it once it is trimmed.
pub proof fn lemma_blank_iff_trimmed_empty(s: Seq<char>)
    ensures
        blank(s) <==> trimmed(s).len() == 0,
{
    lemma_trim_start(s);
    if trim_start(s).len() > 0 {
        lemma_trim_end_keeps_start(trim_start(s));
    }
}

/// A name that is empty, that is blank, or that holds a forbidden character
/// is turned down.
pub proof fn lemma_blank_or_forbidden_is_rejected(s: Seq<char>)
    requires
        s.len() == 0 || blank(s) || holds_forbidden(s),
    ensures
        !valid_name(s),
{
}

/// A name of exactly [`MAX_NAME_GRAPHEMES`] grapheme clusters is accepted
/// if it is not blank and holds no forbidden character.
pub proof fn lemma_longest_name_is_accepted(s: Seq<char>)
    requires
        grapheme_clusters(s) == MAX_NAME_GRAPHEMES,
        !blank(s),
        !holds_forbidden(s),
    ensures
        valid_name(s),
{
}

/// A name of one grapheme cluster more than [`MAX_NAME_GRAPHEMES`] is turned
/// down.
pub proof fn lemma_longer_name_is_rejected(s: Seq<char>)
    requires
        grapheme_clusters(s) == MAX_NAME_GRAPHEMES + 1,
    ensures
        !valid_name(s),
{
}

} // verus!
