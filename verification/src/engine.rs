//! Extraction of the selected capture group from one unit of text.

use crate::pattern::{
    capture_view, captures_get, captures_name, index_capture, name_capture, occurs_in, Pattern,
};
use crate::selector::{Group, GroupView};
use vstd::prelude::*;

verus! {

/// The outcome of applying a pattern to one unit of text under a selector.
#[derive(Debug, Clone)]
pub enum MatchResult {
    /// The text that the selected group matched.
    Extracted(String),
    /// The pattern matched nowhere in the unit.
    NoMatch,
    /// The pattern matched, and the selected group took no part in the match
    /// (or the pattern has no such group).
    GroupAbsent,
}

/// The mathematical value of a [`MatchResult`].
pub enum MatchView {
    Extracted(Seq<char>),
    NoMatch,
    GroupAbsent,
}

impl View for MatchResult {
    type V = MatchView;

    open spec fn view(&self) -> MatchView {
        match self {
            MatchResult::Extracted(s) => MatchView::Extracted(s@),
            MatchResult::NoMatch => MatchView::NoMatch,
            MatchResult::GroupAbsent => MatchView::GroupAbsent,
        }
    }
}

/// The lookup that a selector asks for: by number or by name.
pub open spec fn capture(pattern: Seq<char>, group: GroupView, text: Seq<char>) -> Option<
    Option<Seq<char>>,
> {
    match group {
        GroupView::Number(index) => index_capture(pattern, text, index),
        GroupView::Name(name) => name_capture(pattern, text, name),
    }
}

/// The outcome of one unit of text.
pub open spec fn outcome(pattern: Seq<char>, group: GroupView, text: Seq<char>) -> MatchView {
    match capture(pattern, group, text) {
        None => MatchView::NoMatch,
        Some(None) => MatchView::GroupAbsent,
        Some(Some(s)) => MatchView::Extracted(s),
    }
}

/// The extracted text of one unit, with both causes of absence folded into
/// `None`.
pub open spec fn extraction(pattern: Seq<char>, group: GroupView, text: Seq<char>) -> Option<
    Seq<char>,
> {
    match outcome(pattern, group, text) {
        MatchView::Extracted(s) => Some(s),
        _ => None,
    }
}

/// The mathematical value of an optional string.
pub open spec fn text_view(value: Option<String>) -> Option<Seq<char>> {
    match value {
        Some(s) => Some(s@),
        None => None,
    }
}

/// Tells the three outcomes of a capture lookup apart.
pub fn classify(found: Option<Option<String>>) -> (r: MatchResult)
    ensures
        r == match found {
            None => MatchResult::NoMatch,
            Some(None) => MatchResult::GroupAbsent,
            Some(Some(s)) => MatchResult::Extracted(s),
        },
        r@ == match capture_view(found) {
            None => MatchView::NoMatch,
            Some(None) => MatchView::GroupAbsent,
            Some(Some(s)) => MatchView::Extracted(s),
        },
{
    match found {
        None => MatchResult::NoMatch,
        Some(None) => MatchResult::GroupAbsent,
        Some(Some(s)) => MatchResult::Extracted(s),
    }
}

/// Runs the pattern once against `text` and looks up the selected group.
pub fn match_unit(re: &Pattern, group: &Group, text: &str) -> (r: MatchResult)
    ensures
        r@ == outcome(re@, group@, text@),
        group@ == GroupView::Number(0) ==> !(r is GroupAbsent),
        r matches MatchResult::Extracted(s) ==> occurs_in(s@, text@),
{
    let found = match group {
        Group::Number(group_number) => captures_get(re, text, *group_number),
        Group::Name(group_name) => captures_name(re, text, group_name.as_str()),
    };
    classify(found)
}

/// Extracts the selected group from `text`: the matched text, or `None`
/// where the pattern does not match or the group is absent from the match.
pub fn extract(re: &Pattern, group: &Group, text: &str) -> (r: Option<String>)
    ensures
        text_view(r) == extraction(re@, group@, text@),
        r is None <==> !(outcome(re@, group@, text@) is Extracted),
        group@ == GroupView::Number(0) ==> (r is None <==> outcome(re@, group@, text@) is NoMatch),
        r matches Some(s) ==> occurs_in(s@, text@),
{
    match match_unit(re, group, text) {
        MatchResult::Extracted(value) => Some(value),
        MatchResult::NoMatch => None,
        MatchResult::GroupAbsent => None,
    }
}

/// As [`extract`], on a unit of text that the caller gives away.
pub fn get_cap_groups(re: &Pattern, group: &Group, contents: String) -> (r: Option<String>)
    ensures
        text_view(r) == extraction(re@, group@, contents@),
        r is None <==> !(outcome(re@, group@, contents@) is Extracted),
        r matches Some(s) ==> occurs_in(s@, contents@),
{
    extract(re, group, contents.as_str())
}

/// Extraction is a function of the pattern text, the selector and the unit
/// of text alone: the same three give the same outcome, whenever asked.
pub proof fn lemma_extraction_is_a_function(
    pattern_a: Seq<char>,
    group_a: GroupView,
    text_a: Seq<char>,
    pattern_b: Seq<char>,
    group_b: GroupView,
    text_b: Seq<char>,
)
    requires
        pattern_a == pattern_b,
        group_a == group_b,
        text_a == text_b,
    ensures
        outcome(pattern_a, group_a, text_a) == outcome(pattern_b, group_b, text_b),
        extraction(pattern_a, group_a, text_a) == extraction(pattern_b, group_b, text_b),
{
}

/// A group that took no part in a match, and a pattern that matched nowhere,
/// both give no text.
pub proof fn lemma_absence_gives_no_text(pattern: Seq<char>, group: GroupView, text: Seq<char>)
    ensures
        extraction(pattern, group, text) is None <==> !(outcome(pattern, group, text)
            is Extracted),
        outcome(pattern, group, text) is Extracted ==> extraction(pattern, group, text) == Some(
            outcome(pattern, group, text)->Extracted_0,
        ),
{
}

} // verus!
