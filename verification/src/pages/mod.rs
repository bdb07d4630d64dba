//! What each page of the application decides: its form, the records it
//! shows, how it reacts to the user and to what the database answered,
//! and the messages it gives. Drawing the page is left to the caller.
use vstd::prelude::*;

pub mod dashboard;
pub mod padlocks;
pub mod payments;
pub mod rentals;
pub mod reports;
pub mod settings;
pub mod tenants;
pub mod units;

verus! {

/// The first element of `s` that satisfies `p`, if any (what
/// `Iterator::find` gives).
pub open spec fn first_match<T>(s: Seq<T>, p: spec_fn(T) -> bool) -> Option<T>
    decreases s.len(),
{
    if s.len() == 0 {
        None
    } else if p(s[0]) {
        Some(s[0])
    } else {
        first_match(s.drop_first(), p)
    }
}

/// One step of a search from the front.
pub proof fn lemma_first_match_step<T>(s: Seq<T>, i: int, p: spec_fn(T) -> bool)
    requires
        0 <= i < s.len(),
    ensures
        p(s[i]) ==> first_match(s.skip(i), p) == Some(s[i]),
        !p(s[i]) ==> first_match(s.skip(i), p) == first_match(s.skip(i + 1), p),
{
    assert(s.skip(i).drop_first() =~= s.skip(i + 1));
    assert(s.skip(i)[0] == s[i]);
}

/// A search over the whole sequence starts at its front and ends with
/// nothing left.
pub proof fn lemma_first_match_start<T>(s: Seq<T>, p: spec_fn(T) -> bool)
    ensures
        first_match(s.skip(0), p) == first_match(s, p),
        first_match(s.skip(s.len() as int), p) is None,
{
    assert(s.skip(0) =~= s);
    assert(s.skip(s.len() as int).len() == 0);
}

/// An error message of the form `Unable to <what>: <error>`.
pub open spec fn unable_message(what: Seq<char>, error: Seq<char>) -> Seq<char> {
    "Unable to "@ + what + ": "@ + error
}

pub fn unable(what: &str, error: &str) -> (s: String)
    ensures
        s@ == unable_message(what@, error@),
{
    let mut out = crate::text::chars_of("Unable to ");
    crate::text::append_str(&mut out, what);
    crate::text::append_str(&mut out, ": ");
    crate::text::append_str(&mut out, error);
    crate::text::string_of(&out)
}

/// `text`, or an em dash when it is empty, as lists show optional fields.
pub open spec fn or_dash(text: Seq<char>) -> Seq<char> {
    if text.len() == 0 { "—"@ } else { text }
}

pub fn text_or_dash(text: &str) -> (s: String)
    ensures
        s@ == or_dash(text@),
{
    if text.is_empty() {
        crate::text::owned("—")
    } else {
        crate::text::owned(text)
    }
}

} // verus!
