//! The display name of a subscriber.

use crate::text::{blank, is_blank, texts};
use unicode_segmentation::UnicodeSegmentation;
use vstd::prelude::*;
use vstd::string::StringExecFns;

verus! {

/// The largest number of grapheme clusters a name may have.
pub const MAX_NAME_GRAPHEMES: usize = 256;

/// The extended grapheme clusters that the text `s` is made of, in their
/// order.
pub uninterp spec fn grapheme_clusters(s: Seq<char>) -> Seq<Seq<char>>;

/// The number of extended grapheme clusters that the text `s` is made of.
pub open spec fn grapheme_count(s: Seq<char>) -> nat {
    grapheme_clusters(s).len()
}

/// Characters that may not occur in a name.
pub open spec fn is_forbidden(c: char) -> bool {
    c == '/' || c == '(' || c == ')' || c == '"' || c == '<' || c == '>' || c == '\\' || c == '{'
        || c == '}'
}

/// Whether some character of `s` is forbidden.
pub open spec fn has_forbidden(s: Seq<char>) -> bool {
    exists|i: int| 0 <= i < s.len() && is_forbidden(#[trigger] s[i])
}

/// A text of `graphemes` grapheme clusters is acceptable as a name when it
/// is not blank, not too long and free of forbidden characters.
pub open spec fn acceptable_name(s: Seq<char>, graphemes: nat) -> bool {
    !is_blank(s) && graphemes <= MAX_NAME_GRAPHEMES && !has_forbidden(s)
}

/// The texts that are valid subscriber names.
pub open spec fn is_valid_name(s: Seq<char>) -> bool {
    acceptable_name(s, grapheme_count(s))
}

/// What `parse` answers to a text that is not a valid name.
pub open spec fn invalid_name_message(s: Seq<char>) -> Seq<char> {
    s + " is not a valid subscriber name"@
}

/// `UnicodeSegmentation::graphemes` of unicode-segmentation, called for
/// extended clusters: trusted to yield the grapheme clusters of `s`, in
/// their order.
#[verifier::external_body]
fn graphemes(s: &str) -> (clusters: Vec<String>)
    ensures
        texts(clusters@) == grapheme_clusters(s@),
{
    s.graphemes(true).map(|cluster| cluster.to_owned()).collect()
}

fn forbidden(c: char) -> (b: bool)
    ensures
        b == is_forbidden(c),
{
    c == '/' || c == '(' || c == ')' || c == '"' || c == '<' || c == '>' || c == '\\' || c == '{'
        || c == '}'
}

/// Whether `s` holds a forbidden character.
pub fn contains_forbidden(s: &str) -> (b: bool)
    ensures
        b == has_forbidden(s@),
{
    let mut found = false;
    for c in it: s.chars()
        invariant
            it.seq() == s@,
            found == has_forbidden(s@.take(it.index() as int)),
    {
        let ghost before = s@.take(it.index() as int);
        let hit = forbidden(c);
        proof {
            let after = s@.take(it.index() + 1);
            assert(after =~= before.push(c));
            if found {
                let j = choose|j: int| 0 <= j < before.len() && is_forbidden(before[j]);
                assert(is_forbidden(after[j]));
            } else if hit {
                assert(is_forbidden(after[after.len() - 1]));
            } else {
                assert forall|i: int| 0 <= i < after.len() implies !is_forbidden(
                    #[trigger] after[i],
                ) by {
                    if i < before.len() {
                        assert(before[i] == after[i]);
                    }
                }
            }
        }
        found = found || hit;
    }
    proof {
        assert(s@.take(s@.len() as int) =~= s@);
    }
    found
}

/// Decides whether `s`, known to consist of `graphemes` grapheme clusters,
/// is acceptable as a name.
pub fn name_is_acceptable(s: &str, graphemes: usize) -> (b: bool)
    ensures
        b == acceptable_name(s@, graphemes as nat),
{
    let is_empty_or_whitespace = blank(s);
    let is_too_long = graphemes > MAX_NAME_GRAPHEMES;
    let contains_forbidden_chars = contains_forbidden(s);
    !(is_empty_or_whitespace || is_too_long || contains_forbidden_chars)
}

/// A subscriber name that passed validation.
#[derive(Debug, PartialEq, Eq)]
pub struct SubscriberName(String);

impl View for SubscriberName {
    type V = Seq<char>;

    closed spec fn view(&self) -> Seq<char> {
        self.0@
    }
}

impl SubscriberName {
    #[verifier::type_invariant]
    spec fn valid(self) -> bool {
        is_valid_name(self.0@)
    }

    /// Accepts `s` as a name when it is valid, and keeps it unchanged;
    /// otherwise answers with a message that quotes `s`.
    pub fn parse(s: &str) -> (r: Result<Self, String>)
        ensures
            r is Ok <==> is_valid_name(s@),
            r matches Ok(name) ==> name@ == s@,
            r matches Err(message) ==> message@ == invalid_name_message(s@),
    {
        let clusters = graphemes(s);
        if name_is_acceptable(s, clusters.len()) {
            Ok(Self(String::from_str(s)))
        } else {
            let mut message = String::from_str(s);
            message.append(" is not a valid subscriber name");
            Err(message)
        }
    }

    /// The name as text; it is always a valid name.
    pub fn as_ref(&self) -> (s: &String)
        ensures
            s@ == self@,
            is_valid_name(s@),
    {
        proof {
            use_type_invariant(self);
        }
        &self.0
    }
}

} // verus!
