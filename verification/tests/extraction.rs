use rextract::driver::{join_lines, run_document, run_lines, Mode};
use rextract::engine::{classify, extract, get_cap_groups, match_unit, MatchResult};
use rextract::pattern::{Pattern, PatternError};
use rextract::selector::Group;

fn pattern(text: &str) -> Pattern {
    match Pattern::compile(text) {
        Ok(p) => p,
        Err(e) => panic!("pattern {:?} did not compile: {:?}", text, e),
    }
}

fn strings(items: &[&str]) -> Vec<String> {
    items.iter().map(|s| String::from(*s)).collect()
}

#[test]
fn select_prefers_the_name() {
    let group = Group::select(2, Some(String::from("y")));
    assert!(matches!(group, Group::Name(ref n) if n == "y"));
    let group = Group::select(0, Some(String::from("y")));
    assert!(matches!(group, Group::Name(ref n) if n == "y"));
}

#[test]
fn select_falls_back_to_the_number() {
    assert!(matches!(Group::select(2, None), Group::Number(2)));
    assert!(matches!(Group::select(0, None), Group::Number(0)));
}

#[test]
fn select_keeps_an_empty_name() {
    let group = Group::select(1, Some(String::new()));
    assert!(matches!(group, Group::Name(ref n) if n.is_empty()));
}

#[test]
fn named_group_wins_over_ordinal() {
    let re = pattern(r"(?P<y>\d{4})-(\d{2})");
    let group = Group::select(2, Some(String::from("y")));
    assert_eq!(extract(&re, &group, "2024-01"), Some(String::from("2024")));
    let by_number = Group::select(2, None);
    assert_eq!(extract(&re, &by_number, "2024-01"), Some(String::from("01")));
}

#[test]
fn whole_match_is_the_default_group() {
    let re = pattern(r"\d+");
    let group = Group::select(0, None);
    assert_eq!(extract(&re, &group, "x42y"), Some(String::from("42")));
    assert_eq!(
        get_cap_groups(&re, &group, String::from("x42y")),
        Some(String::from("42"))
    );
}

#[test]
fn first_match_is_extracted() {
    let re = pattern(r"\d+");
    let group = Group::Number(0);
    assert_eq!(extract(&re, &group, "a1b22c333"), Some(String::from("1")));
}

#[test]
fn group_that_took_no_part_is_absent() {
    let re = pattern(r"(a)|(b)");
    let group = Group::Number(1);
    assert!(matches!(match_unit(&re, &group, "b"), MatchResult::GroupAbsent));
    assert_eq!(extract(&re, &group, "b"), None);
    assert_eq!(get_cap_groups(&re, &group, String::from("b")), None);
    let other = Group::Number(2);
    assert_eq!(extract(&re, &other, "b"), Some(String::from("b")));
}

#[test]
fn no_match_differs_from_absent_group() {
    let re = pattern(r"(a)|(b)");
    let group = Group::Number(1);
    assert!(matches!(match_unit(&re, &group, "c"), MatchResult::NoMatch));
    assert!(matches!(match_unit(&re, &group, "b"), MatchResult::GroupAbsent));
    assert!(matches!(
        match_unit(&re, &group, "a"),
        MatchResult::Extracted(ref s) if s == "a"
    ));
    assert_eq!(extract(&re, &group, "c"), None);
}

#[test]
fn group_index_out_of_range_is_absent() {
    let re = pattern(r"(\d+)");
    let group = Group::Number(7);
    assert!(matches!(match_unit(&re, &group, "42"), MatchResult::GroupAbsent));
    assert_eq!(extract(&re, &group, "42"), None);
}

#[test]
fn unknown_group_name_is_absent() {
    let re = pattern(r"(?P<n>\d+)");
    let group = Group::Name(String::from("missing"));
    assert!(matches!(match_unit(&re, &group, "42"), MatchResult::GroupAbsent));
    assert_eq!(extract(&re, &group, "42"), None);
    let known = Group::Name(String::from("n"));
    assert_eq!(extract(&re, &known, "x42"), Some(String::from("42")));
}

#[test]
fn empty_match_is_a_value() {
    let re = pattern(r"x*");
    let group = Group::Number(0);
    assert_eq!(extract(&re, &group, "abc"), Some(String::new()));
}

#[test]
fn optional_group_by_number_and_name() {
    let re = pattern(r"(?P<word>[a-z]+)(\d+)?");
    assert!(matches!(
        match_unit(&re, &Group::Number(0), "abc12"),
        MatchResult::Extracted(ref s) if s == "abc12"
    ));
    assert!(matches!(
        match_unit(&re, &Group::Number(2), "abc12"),
        MatchResult::Extracted(ref s) if s == "12"
    ));
    assert!(matches!(match_unit(&re, &Group::Number(2), "abc"), MatchResult::GroupAbsent));
    assert!(matches!(match_unit(&re, &Group::Number(0), "123"), MatchResult::NoMatch));
    let word = Group::Name(String::from("word"));
    assert!(matches!(
        match_unit(&re, &word, "abc12"),
        MatchResult::Extracted(ref s) if s == "abc"
    ));
    assert!(matches!(match_unit(&re, &word, "123"), MatchResult::NoMatch));
}

#[test]
fn classify_tells_three_outcomes_apart() {
    assert!(matches!(classify(None), MatchResult::NoMatch));
    assert!(matches!(classify(Some(None)), MatchResult::GroupAbsent));
    assert!(matches!(
        classify(Some(Some(String::from("v")))),
        MatchResult::Extracted(ref s) if s == "v"
    ));
}

#[test]
fn compile_keeps_the_pattern_text() {
    let re = pattern(r"^\d+$");
    assert_eq!(re.as_str(), r"^\d+$");
}

#[test]
fn compile_refuses_a_syntax_error() {
    match Pattern::compile("a(") {
        Err(PatternError::Syntax(message)) => assert!(!message.is_empty()),
        other => panic!("expected a syntax error, got {:?}", other.map(|p| String::from(p.as_str()))),
    }
    assert!(matches!(Pattern::compile("[z-a]"), Err(PatternError::Syntax(_))));
    assert!(matches!(Pattern::compile("(?P<n>a)(?P<n>b)"), Err(PatternError::Syntax(_))));
}

#[test]
fn compile_reports_the_same_diagnostic_each_time() {
    let first = match Pattern::compile("a(") {
        Err(PatternError::Syntax(message)) => message,
        _ => panic!("expected a syntax error"),
    };
    let second = match Pattern::compile("a(") {
        Err(PatternError::Syntax(message)) => message,
        _ => panic!("expected a syntax error"),
    };
    assert_eq!(first, second);
}

#[test]
fn compile_refuses_a_program_that_is_too_big() {
    assert!(matches!(
        Pattern::compile(r"\w{1000}{1000}"),
        Err(PatternError::TooBig(_))
    ));
}

#[test]
fn line_mode_skips_lines_without_a_match() {
    let re = pattern(r"^\d+$");
    let group = Group::select(0, None);
    let report = run_lines(&re, &group, &strings(&["abc", "123", "def"]));
    assert_eq!(report.output, strings(&["123"]));
    assert_eq!(report.code, 0);
}

#[test]
fn line_mode_keeps_the_order_of_the_lines() {
    let re = pattern(r"(\d+)");
    let group = Group::Number(1);
    let report = run_lines(&re, &group, &strings(&["b2", "none", "a1", "", "c3c4"]));
    assert_eq!(report.output, strings(&["2", "1", "3"]));
    assert_eq!(report.code, 0);
}

#[test]
fn line_mode_succeeds_with_no_match_at_all() {
    let re = pattern(r"\d");
    let group = Group::Number(0);
    let report = run_lines(&re, &group, &strings(&["abc", "def"]));
    assert!(report.output.is_empty());
    assert_eq!(report.code, 0);
    let empty = run_lines(&re, &group, &Vec::new());
    assert!(empty.output.is_empty());
    assert_eq!(empty.code, 0);
}

#[test]
fn line_mode_output_of_two_inputs_is_the_two_outputs() {
    let re = pattern(r"[a-z]+");
    let group = Group::Number(0);
    let first = strings(&["1a", "22", "bc3"]);
    let second = strings(&["44", "d"]);
    let mut both = first.clone();
    both.extend(second.clone());
    let mut expected = run_lines(&re, &group, &first).output;
    expected.extend(run_lines(&re, &group, &second).output);
    assert_eq!(run_lines(&re, &group, &both).output, expected);
    assert_eq!(expected, strings(&["a", "bc", "d"]));
}

#[test]
fn document_mode_fails_without_a_match() {
    let re = pattern(r"^\d+$");
    let group = Group::select(0, None);
    let report = run_document(&re, &group, "abc\n123");
    assert!(report.output.is_empty());
    assert_eq!(report.code, 1);
}

#[test]
fn document_mode_fails_on_an_absent_group() {
    let re = pattern(r"(a)|(b)");
    let group = Group::Number(1);
    let report = run_document(&re, &group, "b");
    assert!(report.output.is_empty());
    assert_eq!(report.code, 1);
}

#[test]
fn document_mode_prints_the_one_match() {
    let re = pattern(r"(?m)^\d+$");
    let group = Group::Number(0);
    let report = run_document(&re, &group, "abc\n123\n456");
    assert_eq!(report.output, strings(&["123"]));
    assert_eq!(report.code, 0);
}

#[test]
fn document_mode_sees_the_newlines() {
    let re = pattern(r"c\n(\d)");
    let group = Group::Number(1);
    let contents = join_lines(&strings(&["abc", "123"]));
    let report = run_document(&re, &group, contents.as_str());
    assert_eq!(report.output, strings(&["1"]));
    assert_eq!(report.code, 0);
}

#[test]
fn join_lines_separates_with_one_newline() {
    assert_eq!(join_lines(&strings(&["a", "b", "c"])), "a\nb\nc");
    assert_eq!(join_lines(&strings(&["a", "", "c"])), "a\n\nc");
}

#[test]
fn join_lines_of_none_and_of_one() {
    assert_eq!(join_lines(&Vec::new()), "");
    assert_eq!(join_lines(&strings(&["only"])), "only");
    assert_eq!(join_lines(&strings(&[""])), "");
}

#[test]
fn extraction_twice_gives_the_same() {
    let re = pattern(r"(\w+)@(\w+)");
    let group = Group::Number(2);
    let lines = strings(&["a@b", "nothing", "c@d e@f"]);
    let first = run_lines(&re, &group, &lines);
    let second = run_lines(&re, &group, &lines);
    assert_eq!(first.output, second.output);
    assert_eq!(first.code, second.code);
    assert_eq!(first.output, strings(&["b", "d"]));
    let contents = join_lines(&lines);
    let one = run_document(&re, &group, contents.as_str());
    let two = run_document(&re, &group, contents.as_str());
    assert_eq!(one.output, two.output);
    assert_eq!(one.code, two.code);
    assert_eq!(one.output, strings(&["b"]));
}

#[test]
fn mode_follows_the_flag() {
    assert_eq!(Mode::from_flag(true), Mode::Document);
    assert_eq!(Mode::from_flag(false), Mode::Lines);
}
