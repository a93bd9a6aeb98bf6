//! The two processing modes: the whole input as one unit, or line by line.

use crate::engine::{extract, extraction};
use crate::pattern::occurs_in;
use crate::pattern::Pattern;
use crate::selector::{Group, GroupView};
use vstd::prelude::*;

verus! {

/// How the input is cut into units of text.
#[derive(Debug, Clone, Copy, PartialEq, Eq, Structural)]
pub enum Mode {
    /// The whole input is one unit.
    Document,
    /// Each line is a unit.
    Lines,
}

impl Mode {
    /// The mode that the `doc` flag asks for.
    pub fn from_flag(doc: bool) -> (r: Mode)
        ensures
            r == (if doc {
                Mode::Document
            } else {
                Mode::Lines
            }),
    {
        if doc {
            Mode::Document
        } else {
            Mode::Lines
        }
    }
}

/// What a run printed, line by line, and its exit code.
#[derive(Debug, Clone)]
pub struct Report {
    pub output: Vec<String>,
    pub code: i32,
}

/// The texts of a list of strings.
pub open spec fn texts(lines: Seq<String>) -> Seq<Seq<char>> {
    lines.map_values(|s: String| s@)
}

/// The lines joined into one text, with `sep` between each two neighbours.
pub open spec fn joined(lines: Seq<Seq<char>>, sep: Seq<char>) -> Seq<char>
    decreases lines.len(),
{
    if lines.len() == 0 {
        Seq::empty()
    } else if lines.len() == 1 {
        lines[0]
    } else {
        joined(lines.drop_last(), sep) + sep + lines.last()
    }
}

/// The line terminator, which also separates the lines of a joined document.
pub open spec fn newline() -> Seq<char> {
    seq!['\n']
}

/// The output of line mode: the extracted text of each line that has one,
/// in the order of the lines.
pub open spec fn lines_output(pattern: Seq<char>, group: GroupView, lines: Seq<Seq<char>>) -> Seq<
    Seq<char>,
>
    decreases lines.len(),
{
    if lines.len() == 0 {
        Seq::empty()
    } else {
        let before = lines_output(pattern, group, lines.drop_last());
        match extraction(pattern, group, lines.last()) {
            Some(value) => before.push(value),
            None => before,
        }
    }
}

/// The output of document mode: the one extracted text, if there is one.
pub open spec fn document_output(pattern: Seq<char>, group: GroupView, contents: Seq<char>) -> Seq<
    Seq<char>,
> {
    match extraction(pattern, group, contents) {
        Some(value) => seq![value],
        None => Seq::empty(),
    }
}

/// The exit code of document mode: failure where nothing was extracted.
pub open spec fn document_code(pattern: Seq<char>, group: GroupView, contents: Seq<char>) -> int {
    if extraction(pattern, group, contents) is Some {
        0
    } else {
        1
    }
}

/// Calls `itertools::Itertools::join` on the lines. Trusted: the result is
/// the lines in order, each shown as it is, with `sep` between neighbours and
/// nothing before the first or after the last.
#[verifier::external_body]
fn itertools_join(lines: &Vec<String>, sep: &str) -> (r: String)
    ensures
        r@ == joined(texts(lines@), sep@),
{
    itertools::Itertools::join(&mut lines.iter(), sep)
}

/// Rebuilds a document from the lines of a line-oriented stream: the lines,
/// with one newline between each two. A terminator after the last line is
/// not restored.
pub fn join_lines(lines: &Vec<String>) -> (r: String)
    ensures
        r@ == joined(texts(lines@), newline()),
{
    proof {
        reveal_strlit("\n");
        assert("\n"@ =~= newline());
    }
    itertools_join(lines, "\n")
}

/// Document mode: one extraction from the whole contents. Its text is the
/// only output; where there is none the run fails.
pub fn run_document(re: &Pattern, group: &Group, contents: &str) -> (r: Report)
    ensures
        texts(r.output@) == document_output(re@, group@, contents@),
        r.code == document_code(re@, group@, contents@),
        r.output@.len() == 1 ==> occurs_in(r.output@[0]@, contents@),
{
    let mut output: Vec<String> = Vec::new();
    match extract(re, group, contents) {
        Some(value) => {
            output.push(value);
            proof {
                assert(texts(output@) =~= seq![value@]);
            }
            Report { output, code: 0 }
        },
        None => {
            proof {
                assert(texts(output@) =~= Seq::<Seq<char>>::empty());
            }
            Report { output, code: 1 }
        },
    }
}

/// Line mode: one extraction from each line. The lines without one are
/// skipped, and the run succeeds however many there are.
pub fn run_lines(re: &Pattern, group: &Group, lines: &Vec<String>) -> (r: Report)
    ensures
        texts(r.output@) == lines_output(re@, group@, texts(lines@)),
        r.code == 0,
        forall|k: int|
            0 <= k < r.output@.len() ==> exists|j: int|
                0 <= j < lines@.len() && occurs_in((#[trigger] r.output@[k])@, (
                #[trigger] lines@[j])@),
{
    let mut output: Vec<String> = Vec::new();
    let mut i: usize = 0;
    proof {
        assert(texts(output@) =~= Seq::<Seq<char>>::empty());
    }
    while i < lines.len()
        invariant
            i <= lines.len(),
            texts(output@) == lines_output(re@, group@, texts(lines@).take(i as int)),
            forall|k: int|
                0 <= k < output@.len() ==> exists|j: int|
                    0 <= j < i && occurs_in((#[trigger] output@[k])@, (#[trigger] lines@[j])@),
        decreases lines.len() - i,
    {
        let ghost before = output@;
        let found = extract(re, group, lines[i].as_str());
        proof {
            let upto = texts(lines@).take(i as int + 1);
            assert(upto.drop_last() =~= texts(lines@).take(i as int));
            assert(upto.last() == lines@[i as int]@);
        }
        match found {
            Some(value) => {
                output.push(value);
                proof {
                    assert(texts(output@) =~= texts(before).push(value@));
                    assert(occurs_in(value@, lines@[i as int]@));
                    assert forall|k: int| 0 <= k < output@.len() implies exists|j: int|
                        0 <= j < i + 1 && occurs_in(
                            (#[trigger] output@[k])@,
                            (#[trigger] lines@[j])@,
                        ) by {
                        if k < before.len() {
                            assert(output@[k] == before[k]);
                        } else {
                            assert(output@[k] == value);
                        }
                    }
                }
            },
            None => {},
        }
        i = i + 1;
    }
    proof {
        assert(texts(lines@).take(i as int) =~= texts(lines@));
    }
    Report { output, code: 0 }
}

/// One more line adds its extracted text at the end of the output, or
/// nothing where it has none; the output of the lines before it stays.
pub proof fn lemma_line_appends_or_skips(
    pattern: Seq<char>,
    group: GroupView,
    lines: Seq<Seq<char>>,
    line: Seq<char>,
)
    ensures
        lines_output(pattern, group, lines.push(line)) == match extraction(pattern, group, line) {
            Some(value) => lines_output(pattern, group, lines).push(value),
            None => lines_output(pattern, group, lines),
        },
{
    assert(lines.push(line).drop_last() =~= lines);
}

/// Lines are independent units: the output of two inputs, one after the
/// other, is the output of the first followed by the output of the second.
pub proof fn lemma_lines_output_concat(
    pattern: Seq<char>,
    group: GroupView,
    first: Seq<Seq<char>>,
    second: Seq<Seq<char>>,
)
    ensures
        lines_output(pattern, group, first + second) == lines_output(pattern, group, first)
            + lines_output(pattern, group, second),
    decreases second.len(),
{
    if second.len() == 0 {
        assert(first + second =~= first);
        assert(lines_output(pattern, group, first) + Seq::<Seq<char>>::empty() =~= lines_output(
            pattern,
            group,
            first,
        ));
    } else {
        lemma_lines_output_concat(pattern, group, first, second.drop_last());
        assert((first + second).drop_last() =~= first + second.drop_last());
        assert((first + second).last() == second.last());
        let head = lines_output(pattern, group, first);
        let tail = lines_output(pattern, group, second.drop_last());
        match extraction(pattern, group, second.last()) {
            Some(value) => {
                assert((head + tail).push(value) =~= head + tail.push(value));
            },
            None => {},
        }
    }
}

/// The same pattern, selector and input give the same output and the same
/// exit code, in both modes.
pub proof fn lemma_runs_repeat(
    pattern: Seq<char>,
    group: GroupView,
    lines: Seq<Seq<char>>,
    again: Seq<Seq<char>>,
)
    requires
        lines == again,
    ensures
        lines_output(pattern, group, lines) == lines_output(pattern, group, again),
        document_output(pattern, group, joined(lines, newline())) == document_output(
            pattern,
            group,
            joined(again, newline()),
        ),
        document_code(pattern, group, joined(lines, newline())) == document_code(
            pattern,
            group,
            joined(again, newline()),
        ),
{
}

/// The output of line mode never has more lines than the input.
pub proof fn lemma_lines_output_len(pattern: Seq<char>, group: GroupView, lines: Seq<Seq<char>>)
    ensures
        lines_output(pattern, group, lines).len() <= lines.len(),
    decreases lines.len(),
{
    if lines.len() > 0 {
        lemma_lines_output_len(pattern, group, lines.drop_last());
    }
}

/// Joining puts the separator before each line but the first.
pub proof fn lemma_joined_push(lines: Seq<Seq<char>>, sep: Seq<char>, line: Seq<char>)
    ensures
        joined(lines.push(line), sep) == (if lines.len() == 0 {
            line
        } else {
            joined(lines, sep) + sep + line
        }),
{
    assert(lines.push(line).drop_last() =~= lines);
}

} // verus!
