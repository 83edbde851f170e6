//! Regular expressions over the output of the policy tools.
//!
//! Matching is done by the `regex` crate. What a pattern matches in a text
//! is named here, not defined: the functions of the library that read tool
//! output say what they make of each match, whatever it is.

use crate::model::views;
use crate::text::{lines, lines_of};
use vstd::prelude::*;
use vstd::string::*;

verus! {

#[verifier::external_type_specification]
#[verifier::external_body]
pub struct ExRegex(regex::Regex);

#[verifier::external_type_specification]
#[verifier::external_body]
pub struct ExRegexError(regex::Error);

/// Whether `Regex::new` accepts the pattern `source`.
pub uninterp spec fn pattern_compiles(source: Seq<char>) -> bool;

/// What `Regex::captures` finds for the pattern `source` in `haystack`: the
/// groups of the leftmost match, the whole match first, or `None` where there
/// is no match. A group that took no part in the match is `None`.
pub uninterp spec fn first_match(source: Seq<char>, haystack: Seq<char>) -> Option<
    Seq<Option<Seq<char>>>,
>;

/// What `Regex::captures_iter` finds for the pattern `source` in `haystack`:
/// the groups of each of the successive matches that do not overlap.
pub uninterp spec fn all_matches(source: Seq<char>, haystack: Seq<char>) -> Seq<
    Seq<Option<Seq<char>>>,
>;

/// The texts of the groups of one match.
pub open spec fn groups_view(groups: Seq<Option<String>>) -> Seq<Option<Seq<char>>> {
    groups.map_values(
        |g: Option<String>|
            match g {
                Some(s) => Some(s@),
                None => None,
            },
    )
}

/// The texts of the groups of each match.
pub open spec fn matches_view(matches: Seq<Vec<Option<String>>>) -> Seq<Seq<Option<Seq<char>>>> {
    matches.map_values(|m: Vec<Option<String>>| groups_view(m@))
}

/// A pattern cannot be used.
#[derive(Debug, Clone, Copy, PartialEq, Eq, Structural)]
pub enum PatternError {
    /// The `regex` crate does not accept the pattern.
    Invalid,
}

impl PatternError {
    /// A description of the error for the operator.
    pub fn message(&self) -> (r: &'static str)
        ensures
            r@ == "Invalid pattern"@,
    {
        "Invalid pattern"
    }
}

/// A compiled pattern together with the text it was compiled from. Only
/// `Pattern::new` makes such a value, so the two always belong together.
pub struct Pattern {
    source: String,
    compiled: regex::Regex,
}

impl View for Pattern {
    type V = Seq<char>;

    closed spec fn view(&self) -> Seq<char> {
        self.source@
    }
}

/// Calls `Regex::new` and keeps the compiled pattern beside its source. The
/// contract claims that the call succeeds or fails by the pattern alone, and
/// that the value it gives stands for the pattern it was given.
#[verifier::external_body]
fn compile_regex(source: &str) -> (r: Result<Pattern, regex::Error>)
    ensures
        r is Ok <==> pattern_compiles(source@),
        r matches Ok(p) ==> p@ == source@,
{
    match regex::Regex::new(source) {
        Ok(compiled) => Ok(Pattern { source: source.to_string(), compiled }),
        Err(e) => Err(e),
    }
}

/// Calls `Regex::captures` and copies the text of each group of the match,
/// as `Captures::get` gives it for the indices below `Captures::len`. The
/// contract names the result after the pattern's source and the text.
#[verifier::external_body]
fn regex_captures(pattern: &Pattern, haystack: &str) -> (r: Option<Vec<Option<String>>>)
    ensures
        match r {
            Some(groups) => first_match(pattern@, haystack@) == Some(groups_view(groups@)),
            None => first_match(pattern@, haystack@) is None,
        },
{
    pattern.compiled.captures(haystack).map(
        |c| (0..c.len()).map(|i| c.get(i).map(|m| m.as_str().to_string())).collect(),
    )
}

/// Calls `Regex::captures_iter` and copies, for each match, the text of
/// each group as `Captures::get` gives it. The contract names the result
/// after the pattern's source and the text.
#[verifier::external_body]
fn regex_captures_iter(pattern: &Pattern, haystack: &str) -> (r: Vec<Vec<Option<String>>>)
    ensures
        matches_view(r@) == all_matches(pattern@, haystack@),
{
    pattern.compiled.captures_iter(haystack).map(
        |c| (0..c.len()).map(|i| c.get(i).map(|m| m.as_str().to_string())).collect(),
    ).collect()
}

impl Pattern {
    /// Compiles `source`. Fails exactly where the `regex` crate does not
    /// accept it.
    pub fn new(source: &str) -> (r: Result<Self, PatternError>)
        ensures
            r is Ok <==> pattern_compiles(source@),
            r matches Ok(p) ==> p@ == source@,
    {
        match compile_regex(source) {
            Ok(p) => Ok(p),
            Err(_) => Err(PatternError::Invalid),
        }
    }

    /// The groups of the leftmost match of the pattern in `haystack`.
    pub fn captures(&self, haystack: &str) -> (r: Option<Vec<Option<String>>>)
        ensures
            match r {
                Some(groups) => first_match(self@, haystack@) == Some(groups_view(groups@)),
                None => first_match(self@, haystack@) is None,
            },
    {
        regex_captures(self, haystack)
    }

    /// The groups of each match of the pattern in `haystack`.
    pub fn captures_iter(&self, haystack: &str) -> (r: Vec<Vec<Option<String>>>)
        ensures
            matches_view(r@) == all_matches(self@, haystack@),
    {
        regex_captures_iter(self, haystack)
    }
}

/// The text of group `i` of a match, where the match has such a group and
/// the group took part in it.
pub open spec fn group_text(groups: Seq<Option<Seq<char>>>, i: int) -> Option<Seq<char>> {
    if 0 <= i < groups.len() {
        groups[i]
    } else {
        None
    }
}

/// The text of group `i` of a match.
pub fn group(groups: &Vec<Option<String>>, i: usize) -> (r: Option<String>)
    ensures
        match r {
            Some(s) => group_text(groups_view(groups@), i as int) == Some(s@),
            None => group_text(groups_view(groups@), i as int) is None,
        },
{
    if i < groups.len() {
        match &groups[i] {
            Some(s) => Some(s.clone()),
            None => None,
        }
    } else {
        None
    }
}

/// The groups of the first match in each of `lines` that has a match.
pub open spec fn matching_lines(source: Seq<char>, lines: Seq<Seq<char>>) -> Seq<
    Seq<Option<Seq<char>>>,
>
    decreases lines.len(),
{
    if lines.len() == 0 {
        Seq::empty()
    } else {
        let earlier = matching_lines(source, lines.drop_last());
        match first_match(source, lines.last()) {
            Some(groups) => earlier.push(groups),
            None => earlier,
        }
    }
}

/// What `read` makes of each match, without the matches of which it makes
/// nothing.
pub open spec fn collected<T>(
    matches: Seq<Seq<Option<Seq<char>>>>,
    read: spec_fn(Seq<Option<Seq<char>>>) -> Option<T>,
) -> Seq<T>
    decreases matches.len(),
{
    if matches.len() == 0 {
        Seq::empty()
    } else {
        let earlier = collected(matches.drop_last(), read);
        match read(matches.last()) {
            Some(x) => earlier.push(x),
            None => earlier,
        }
    }
}

/// Unfolds `collected` at the `i`-th match.
pub proof fn lemma_collected_step<T>(
    matches: Seq<Seq<Option<Seq<char>>>>,
    read: spec_fn(Seq<Option<Seq<char>>>) -> Option<T>,
    i: int,
)
    requires
        0 <= i < matches.len(),
    ensures
        collected(matches.take(i + 1), read) == match read(matches[i]) {
            Some(x) => collected(matches.take(i), read).push(x),
            None => collected(matches.take(i), read),
        },
{
    assert(matches.take(i + 1).drop_last() =~= matches.take(i));
    assert(matches.take(i + 1).last() == matches[i]);
}

impl Pattern {
    /// The groups of the first match in each line of `text` that has one.
    pub fn line_matches(&self, text: &str) -> (r: Vec<Vec<Option<String>>>)
        ensures
            matches_view(r@) == matching_lines(self@, lines_of(text@)),
    {
        let all = lines(text);
        let mut r: Vec<Vec<Option<String>>> = Vec::new();
        let mut i: usize = 0;
        assert(views(all@).take(0) =~= Seq::<Seq<char>>::empty());
        assert(matches_view(r@) =~= Seq::<Seq<Option<Seq<char>>>>::empty());
        while i < all.len()
            invariant
                i <= all.len(),
                matches_view(r@) == matching_lines(self@, views(all@).take(i as int)),
            decreases all.len() - i,
        {
            proof {
                assert(views(all@).take(i + 1).drop_last() =~= views(all@).take(i as int));
                assert(views(all@).take(i + 1).last() == all@[i as int]@);
            }
            match self.captures(all[i].as_str()) {
                Some(groups) => {
                    assert(matches_view(r@.push(groups)) =~= matches_view(r@).push(
                        groups_view(groups@),
                    ));
                    r.push(groups);
                },
                None => {},
            }
            i += 1;
        }
        assert(views(all@).take(all.len() as int) =~= views(all@));
        r
    }
}

} // verus!
