//! Regular expressions, which are left to `regex`.

use vstd::prelude::*;

verus! {

/// What the groups of the leftmost match of the regular expression
/// `pattern` in `text` hold, the whole match first, as `regex` finds them.
/// There is none where nothing in `text` matches, and where `pattern` is no
/// regular expression.
pub uninterp spec fn captures_of(pattern: Seq<char>, text: Seq<char>) -> Option<
    Seq<Option<Seq<char>>>,
>;

/// The character sequences of a list of optional strings.
pub open spec fn group_texts(groups: Seq<Option<String>>) -> Seq<Option<Seq<char>>> {
    Seq::new(
        groups.len(),
        |k: int|
            match groups[k] {
                Some(s) => Some(s@),
                None => None,
            },
    )
}

/// The mathematical value of the result of [`captures`].
pub open spec fn captures_view(r: Option<Vec<Option<String>>>) -> Option<Seq<Option<Seq<char>>>> {
    match r {
        Some(groups) => Some(group_texts(groups@)),
        None => None,
    }
}

/// Compiles `pattern` with `regex::Regex::new` and searches `text` with
/// `regex::Regex::captures`. The result holds the text of each group of the
/// match, in the order of `regex::Captures::iter`. It depends on the two
/// texts alone; nothing else is claimed of it.
#[verifier::external_body]
pub(crate) fn captures(pattern: &str, text: &str) -> (r: Option<Vec<Option<String>>>)
    ensures
        captures_view(r) == captures_of(pattern@, text@),
{
    let found = regex::Regex::new(pattern).ok()?.captures(text)?;
    Some(found.iter().map(|group| group.map(|m| m.as_str().to_owned())).collect())
}

} // verus!
