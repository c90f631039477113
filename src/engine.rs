//! The matcher engine: the regular-expression crate runs a compiled template
//! against a path.

use vstd::prelude::*;
use crate::pattern::names_view;

verus! {

/// What the engine reports for a matcher text, a list of group names and a
/// path: `None` when the matcher does not compile or the path does not match;
/// otherwise the number of groups of the matcher (the whole match included)
/// and, for each name in turn, the text its group captured, if any.
pub uninterp spec fn regex_captures(
    pattern: Seq<char>,
    names: Seq<Seq<char>>,
    text: Seq<char>,
) -> Option<(nat, Seq<Option<Seq<char>>>)>;

pub open spec fn opt_view(o: Option<String>) -> Option<Seq<char>> {
    match o {
        Some(s) => Some(s@),
        None => None,
    }
}

pub open spec fn captures_view(r: Option<(usize, Vec<Option<String>>)>) -> Option<
    (nat, Seq<Option<Seq<char>>>),
> {
    match r {
        Some((n, v)) => Some((n as nat, v@.map_values(|o: Option<String>| opt_view(o)))),
        None => None,
    }
}

/// Relies on regex::Regex::new to compile `pattern`, on Regex::captures to run
/// it on `text`, on Captures::len for the number of groups, and on
/// Captures::name for the text of each named group.
#[verifier::external_body]
pub(crate) fn run_matcher(pattern: &str, names: &Vec<String>, text: &str) -> (r: Option<
    (usize, Vec<Option<String>>),
>)
    ensures
        captures_view(r) == regex_captures(pattern@, names_view(names@), text@),
        r matches Some((_, v)) ==> v@.len() == names@.len(),
{
    let re = regex::Regex::new(pattern).ok()?;
    let caps = re.captures(text)?;
    let vals = names.iter().map(|n| caps.name(n).map(|m| m.as_str().to_string())).collect();
    Some((caps.len(), vals))
}

} // verus!
