//! Text operations that are left to the regular expression engine and to
//! the standard library. What the engine and the Unicode tables return is
//! named here, not described: each result depends on the arguments alone.

use regex::Regex;
use vstd::prelude::*;

verus! {

/// What `regex` makes of `text` when every match of `pattern` is replaced
/// by `replacement`; `None` where `pattern` is no regular expression.
pub uninterp spec fn pattern_replaced(
    pattern: Seq<char>,
    text: Seq<char>,
    replacement: Seq<char>,
) -> Option<Seq<char>>;

/// The matches of `pattern` that `regex` finds in `text`, one after the
/// other and without overlap, each as the list of its groups: group zero is
/// the whole match, and a group that took no part in the match is `None`.
/// The whole is `None` where `pattern` is no regular expression.
pub uninterp spec fn pattern_captures(pattern: Seq<char>, text: Seq<char>) -> Option<
    Seq<Seq<Option<Seq<char>>>>,
>;

/// The lower-case form of a text, as `str::to_lowercase` gives it.
pub uninterp spec fn lowercased(text: Seq<char>) -> Seq<char>;

/// A text without the white space at its ends, as `str::trim` gives it.
pub uninterp spec fn trimmed(text: Seq<char>) -> Seq<char>;

/// A text in which every occurrence of `from` is replaced by `to`. The
/// occurrences are taken from left to right and do not overlap. With an
/// empty `from` the text is left as it is.
pub open spec fn replaced(text: Seq<char>, from: Seq<char>, to: Seq<char>) -> Seq<char>
    decreases text.len(),
{
    if from.len() == 0 || text.len() < from.len() {
        text
    } else if text.subrange(0, from.len() as int) == from {
        to + replaced(text.skip(from.len() as int), from, to)
    } else {
        seq![text[0]] + replaced(text.drop_first(), from, to)
    }
}

/// The groups of one match as mathematical values.
pub open spec fn group_views(groups: Seq<Option<String>>) -> Seq<Option<Seq<char>>> {
    groups.map_values(
        |g: Option<String>|
            match g {
                Some(text) => Some(text@),
                None => None,
            },
    )
}

/// The matches of a pattern as mathematical values.
pub open spec fn capture_views(captures: Seq<Vec<Option<String>>>) -> Seq<Seq<Option<Seq<char>>>> {
    captures.map_values(|groups: Vec<Option<String>>| group_views(groups@))
}

/// Compiles `pattern` with `Regex::new` and calls `Regex::replace_all`.
/// Nothing is claimed of the result but that it depends on the arguments
/// alone.
#[verifier::external_body]
pub(crate) fn replace_pattern(pattern: &str, text: &str, replacement: &str) -> (r: Option<String>)
    ensures
        match r {
            Some(result) => pattern_replaced(pattern@, text@, replacement@) == Some(result@),
            None => pattern_replaced(pattern@, text@, replacement@) is None,
        },
{
    match Regex::new(pattern) {
        Ok(re) => Some(re.replace_all(text, replacement).into_owned()),
        Err(_) => None,
    }
}

/// Compiles `pattern` with `Regex::new`, calls `Regex::captures_iter` and
/// copies the text of every group of every match. Nothing is claimed of the
/// result but that it depends on the arguments alone.
#[verifier::external_body]
pub(crate) fn capture_pattern(pattern: &str, text: &str) -> (r: Option<Vec<Vec<Option<String>>>>)
    ensures
        match r {
            Some(captures) => pattern_captures(pattern@, text@) == Some(capture_views(captures@)),
            None => pattern_captures(pattern@, text@) is None,
        },
{
    match Regex::new(pattern) {
        Ok(re) => Some(
            re.captures_iter(text).map(
                |found| found.iter().map(|group| group.map(|m| m.as_str().to_owned())).collect(),
            ).collect(),
        ),
        Err(_) => None,
    }
}

/// Calls `str::to_lowercase`.
#[verifier::external_body]
pub(crate) fn to_lowercase(text: &str) -> (r: String)
    ensures
        r@ == lowercased(text@),
{
    text.to_lowercase()
}

/// Calls `str::trim`.
#[verifier::external_body]
pub(crate) fn trim(text: &str) -> (r: String)
    ensures
        r@ == trimmed(text@),
{
    text.trim().to_owned()
}

/// Calls `str::replace`, which replaces every match of a text, from left
/// to right and without overlap. An empty `from`, which the standard
/// library matches between any two characters, is left out.
#[verifier::external_body]
pub(crate) fn replace(text: &str, from: &str, to: &str) -> (r: String)
    requires
        from@.len() > 0,
    ensures
        r@ == replaced(text@, from@, to@),
{
    text.replace(from, to)
}

} // verus!
