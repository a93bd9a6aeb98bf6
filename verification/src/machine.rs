//! The driver as a state machine: it decides, from what has happened so far,
//! what is done next, and what the run's outcome is.

use crate::driver::{document_code, document_output, lines_output, Mode};
use crate::engine::{extract, extraction, text_view};
use crate::pattern::{compiled, occurs_in, syntax_error, Pattern, PatternError};
use crate::selector::{Group, GroupView};
use vstd::prelude::*;

verus! {

/// Where a run stands.
#[derive(Debug, Clone, Copy, PartialEq, Eq, Structural)]
pub enum State {
    /// Nothing has been done yet.
    Init,
    /// The pattern is being compiled.
    Compiling,
    /// The pattern was refused; the run is over.
    Failed,
    /// The pattern is compiled; the input source is being opened.
    Ready,
    /// Units of text are being read and matched.
    Reading,
    /// The run is over, with success (`true`) or failure.
    Done(bool),
}

/// What happened since the last step.
#[derive(Debug, Clone, Copy, PartialEq, Eq, Structural)]
pub enum Event {
    /// The run was started.
    Begin,
    /// The pattern compiled.
    PatternAccepted,
    /// The pattern did not compile.
    PatternRejected,
    /// The input source is open.
    SourceOpened,
    /// The input source cannot be opened.
    SourceUnavailable,
    /// A unit of text was read, and the selected group gave a text.
    Extracted,
    /// A unit of text was read, and it gave nothing.
    Absent,
    /// The input has no further unit.
    EndOfInput,
    /// Reading the input failed.
    ReadFailed,
}

/// What is to be done next.
#[derive(Debug, Clone, Copy, PartialEq, Eq, Structural)]
pub enum Action {
    /// Compile the pattern.
    Compile,
    /// Write the pattern's diagnostic to the error stream.
    ReportPattern,
    /// Open the input source.
    OpenSource,
    /// Write to the error stream that the source is unavailable.
    ReportSource,
    /// Write to the error stream that reading failed.
    ReportRead,
    /// Write the extracted text to the output, as one line.
    Print,
    /// Nothing is written.
    Skip,
}

/// The transition: the next state, and the action to perform on the way.
/// An event that the state does not expect changes nothing.
pub open spec fn next(state: State, mode: Mode, event: Event) -> (State, Action) {
    match (state, event) {
        (State::Init, Event::Begin) => (State::Compiling, Action::Compile),
        (State::Compiling, Event::PatternAccepted) => (State::Ready, Action::OpenSource),
        (State::Compiling, Event::PatternRejected) => (State::Failed, Action::ReportPattern),
        (State::Ready, Event::SourceOpened) => (State::Reading, Action::Skip),
        (State::Ready, Event::SourceUnavailable) => (State::Done(false), Action::ReportSource),
        (State::Reading, Event::Extracted) => match mode {
            Mode::Document => (State::Done(true), Action::Print),
            Mode::Lines => (State::Reading, Action::Print),
        },
        (State::Reading, Event::Absent) => match mode {
            Mode::Document => (State::Done(false), Action::Skip),
            Mode::Lines => (State::Reading, Action::Skip),
        },
        (State::Reading, Event::EndOfInput) => match mode {
            Mode::Document => (State::Reading, Action::Skip),
            Mode::Lines => (State::Done(true), Action::Skip),
        },
        (State::Reading, Event::ReadFailed) => (State::Done(false), Action::ReportRead),
        _ => (state, Action::Skip),
    }
}

/// The exit code of a run that is over, and `None` while it is not.
pub open spec fn exit_code_of(state: State) -> Option<int> {
    match state {
        State::Failed => Some(1),
        State::Done(true) => Some(0),
        State::Done(false) => Some(1),
        _ => None,
    }
}

/// Whether a unit of text is to be read and matched in this state.
pub open spec fn reads(state: State) -> bool {
    state == State::Reading
}

/// The state after a sequence of events.
pub open spec fn state_after(state: State, mode: Mode, events: Seq<Event>) -> State
    decreases events.len(),
{
    if events.len() == 0 {
        state
    } else {
        next(state_after(state, mode, events.drop_last()), mode, events.last()).0
    }
}

/// The actions that a sequence of events causes, one for each event.
pub open spec fn actions_of(state: State, mode: Mode, events: Seq<Event>) -> Seq<Action>
    decreases events.len(),
{
    if events.len() == 0 {
        Seq::empty()
    } else {
        actions_of(state, mode, events.drop_last()).push(
            next(state_after(state, mode, events.drop_last()), mode, events.last()).1,
        )
    }
}

impl State {
    /// The state in which every run begins.
    pub fn start() -> (r: State)
        ensures
            r == State::Init,
    {
        State::Init
    }

    /// Takes one step.
    pub fn step(self, mode: Mode, event: Event) -> (r: (State, Action))
        ensures
            r == next(self, mode, event),
    {
        match self {
            State::Init => match event {
                Event::Begin => (State::Compiling, Action::Compile),
                _ => (self, Action::Skip),
            },
            State::Compiling => match event {
                Event::PatternAccepted => (State::Ready, Action::OpenSource),
                Event::PatternRejected => (State::Failed, Action::ReportPattern),
                _ => (self, Action::Skip),
            },
            State::Ready => match event {
                Event::SourceOpened => (State::Reading, Action::Skip),
                Event::SourceUnavailable => (State::Done(false), Action::ReportSource),
                _ => (self, Action::Skip),
            },
            State::Reading => match event {
                Event::Extracted => match mode {
                    Mode::Document => (State::Done(true), Action::Print),
                    Mode::Lines => (State::Reading, Action::Print),
                },
                Event::Absent => match mode {
                    Mode::Document => (State::Done(false), Action::Skip),
                    Mode::Lines => (State::Reading, Action::Skip),
                },
                Event::EndOfInput => match mode {
                    Mode::Document => (State::Reading, Action::Skip),
                    Mode::Lines => (State::Done(true), Action::Skip),
                },
                Event::ReadFailed => (State::Done(false), Action::ReportRead),
                _ => (self, Action::Skip),
            },
            State::Failed => (self, Action::Skip),
            State::Done(_) => (self, Action::Skip),
        }
    }

    /// The exit code, once the run is over.
    pub fn exit_code(self) -> (r: Option<i32>)
        ensures
            match exit_code_of(self) {
                Some(code) => r == Some(code as i32),
                None => r is None,
            },
    {
        match self {
            State::Failed => Some(1),
            State::Done(success) => if success {
                Some(0)
            } else {
                Some(1)
            },
            _ => None,
        }
    }
}

/// The event that the extraction from one unit of text stands for.
pub open spec fn unit_event(found: Option<Seq<char>>) -> Event {
    if found is Some {
        Event::Extracted
    } else {
        Event::Absent
    }
}

/// The events that the lines of an input stand for, in their order.
pub open spec fn unit_events(pattern: Seq<char>, group: GroupView, lines: Seq<Seq<char>>) -> Seq<
    Event,
> {
    Seq::new(lines.len(), |i: int| unit_event(extraction(pattern, group, lines[i])))
}

/// The first two steps of a run: the pattern is compiled, and the machine is
/// told how that went. A pattern with a syntax error leaves the run failed,
/// with the diagnostic to report; a compiled one leaves it ready, with the
/// input source to open.
pub fn compile_step(mode: Mode, pattern: &str) -> (r: (State, Action, Result<Pattern, PatternError>))
    ensures
        compiled(pattern@, r.2),
        r.2 is Ok ==> r.0 == State::Ready && r.1 == Action::OpenSource,
        r.2 is Err ==> r.0 == State::Failed && r.1 == Action::ReportPattern,
        syntax_error(pattern@) is Some ==> r.0 == State::Failed,
        r.0 == state_after(
            State::Init,
            mode,
            seq![
                Event::Begin,
                if r.2 is Ok {
                    Event::PatternAccepted
                } else {
                    Event::PatternRejected
                },
            ],
        ),
{
    let (compiling, _) = State::start().step(mode, Event::Begin);
    let result = Pattern::compile(pattern);
    let event = match &result {
        Ok(_) => Event::PatternAccepted,
        Err(_) => Event::PatternRejected,
    };
    let (state, action) = compiling.step(mode, event);
    proof {
        let events = seq![Event::Begin, event];
        assert(events.drop_last().drop_last() =~= Seq::<Event>::empty());
        assert(state_after(State::Init, mode, events.drop_last().drop_last()) == State::Init);
        assert(state_after(State::Init, mode, events.drop_last()) == State::Compiling);
    }
    (state, action, result)
}

/// One unit of text: while units are being read, the selected group is
/// extracted from it and the machine is told what came of it. In any other
/// state nothing is matched and nothing changes.
pub fn unit_step(state: State, mode: Mode, re: &Pattern, group: &Group, text: &str) -> (r: (
    State,
    Action,
    Option<String>,
))
    ensures
        reads(state) ==> text_view(r.2) == extraction(re@, group@, text@) && (r.0, r.1) == next(
            state,
            mode,
            unit_event(extraction(re@, group@, text@)),
        ),
        !reads(state) ==> r.0 == state && r.1 == Action::Skip && r.2 is None,
        r.1 == Action::Print <==> r.2 is Some,
        r.2 matches Some(s) ==> occurs_in(s@, text@),
{
    match state {
        State::Reading => {
            let found = extract(re, group, text);
            let event = match &found {
                Some(_) => Event::Extracted,
                None => Event::Absent,
            };
            let (after, action) = state.step(mode, event);
            (after, action, found)
        },
        _ => (state, Action::Skip, None),
    }
}

/// A run that is over stays as it is, whatever is reported to it, and asks
/// for nothing more.
pub proof fn lemma_over_is_over(state: State, mode: Mode, events: Seq<Event>)
    requires
        exit_code_of(state) is Some,
    ensures
        state_after(state, mode, events) == state,
        actions_of(state, mode, events).len() == events.len(),
        forall|i: int|
            0 <= i < events.len() ==> #[trigger] actions_of(state, mode, events)[i] == Action::Skip,
    decreases events.len(),
{
    if events.len() > 0 {
        lemma_over_is_over(state, mode, events.drop_last());
    }
}

/// One action answers each event.
pub proof fn lemma_one_action_per_event(state: State, mode: Mode, events: Seq<Event>)
    ensures
        actions_of(state, mode, events).len() == events.len(),
    decreases events.len(),
{
    if events.len() > 0 {
        lemma_one_action_per_event(state, mode, events.drop_last());
    }
}

/// The input source is opened only on the step that accepts the pattern, and
/// a text is printed only while units are being read.
pub proof fn lemma_action_needs_state(state: State, mode: Mode, event: Event)
    ensures
        next(state, mode, event).1 == Action::OpenSource ==> state == State::Compiling && event
            == Event::PatternAccepted,
        next(state, mode, event).1 == Action::Print ==> state == State::Reading && event
            == Event::Extracted,
        next(state, mode, event).0 == State::Reading ==> state == State::Reading || (state
            == State::Ready && event == Event::SourceOpened),
        next(state, mode, event).0 == State::Ready ==> state == State::Ready || (state
            == State::Compiling && event == Event::PatternAccepted),
{
}

/// A pattern that is refused ends the run in failure before the input source
/// is opened: whatever is reported afterwards, the source is never opened,
/// no unit is read and nothing is printed.
pub proof fn lemma_rejected_pattern_reads_nothing(mode: Mode, events: Seq<Event>)
    requires
        events.len() >= 2,
        events[0] == Event::Begin,
        events[1] == Event::PatternRejected,
    ensures
        state_after(State::Init, mode, events) == State::Failed,
        exit_code_of(state_after(State::Init, mode, events)) == Some(1int),
        actions_of(State::Init, mode, events).len() == events.len(),
        forall|i: int|
            0 <= i < events.len() ==> {
                let action = #[trigger] actions_of(State::Init, mode, events)[i];
                action != Action::OpenSource && action != Action::Print
            },
        forall|i: int|
            0 <= i <= events.len() ==> !reads(
                #[trigger] state_after(State::Init, mode, events.take(i)),
            ),
    decreases events.len(),
{
    let before = events.drop_last();
    if events.len() == 2 {
        assert(before.drop_last() =~= Seq::<Event>::empty());
        assert(state_after(State::Init, mode, before.drop_last()) == State::Init);
        assert(state_after(State::Init, mode, before) == State::Compiling);
        assert(actions_of(State::Init, mode, before.drop_last()) =~= Seq::<Action>::empty());
        assert(actions_of(State::Init, mode, before) =~= seq![Action::Compile]);
        assert forall|i: int| 0 <= i <= events.len() implies !reads(
            #[trigger] state_after(State::Init, mode, events.take(i)),
        ) by {
            if i == 0 {
                assert(events.take(0) =~= before.drop_last());
            } else if i == 1 {
                assert(events.take(1) =~= before);
            } else {
                assert(events.take(2) =~= events);
            }
        }
    } else {
        lemma_rejected_pattern_reads_nothing(mode, before);
        assert forall|i: int| 0 <= i <= events.len() implies !reads(
            #[trigger] state_after(State::Init, mode, events.take(i)),
        ) by {
            if i < events.len() {
                assert(events.take(i) =~= before.take(i));
            } else {
                assert(events.take(i) =~= events);
            }
        }
    }
}

/// With a compiled pattern and a source that cannot be opened, the run ends
/// in failure before any unit is read: no match is attempted and nothing is
/// printed, whatever is reported afterwards.
pub proof fn lemma_unavailable_source_matches_nothing(mode: Mode, events: Seq<Event>)
    requires
        events.len() >= 3,
        events[0] == Event::Begin,
        events[1] == Event::PatternAccepted,
        events[2] == Event::SourceUnavailable,
    ensures
        state_after(State::Init, mode, events) == State::Done(false),
        exit_code_of(state_after(State::Init, mode, events)) == Some(1int),
        actions_of(State::Init, mode, events).len() == events.len(),
        forall|i: int|
            0 <= i < events.len() ==> #[trigger] actions_of(State::Init, mode, events)[i]
                != Action::Print,
        forall|i: int|
            0 <= i <= events.len() ==> !reads(
                #[trigger] state_after(State::Init, mode, events.take(i)),
            ),
    decreases events.len(),
{
    let before = events.drop_last();
    if events.len() == 3 {
        let one = before.drop_last();
        assert(one.drop_last() =~= Seq::<Event>::empty());
        assert(state_after(State::Init, mode, one.drop_last()) == State::Init);
        assert(state_after(State::Init, mode, one) == State::Compiling);
        assert(state_after(State::Init, mode, before) == State::Ready);
        assert(actions_of(State::Init, mode, one.drop_last()) =~= Seq::<Action>::empty());
        assert(actions_of(State::Init, mode, one) =~= seq![Action::Compile]);
        assert(actions_of(State::Init, mode, before) =~= seq![
            Action::Compile,
            Action::OpenSource,
        ]);
        assert forall|i: int| 0 <= i <= events.len() implies !reads(
            #[trigger] state_after(State::Init, mode, events.take(i)),
        ) by {
            if i == 0 {
                assert(events.take(0) =~= one.drop_last());
            } else if i == 1 {
                assert(events.take(1) =~= one);
            } else if i == 2 {
                assert(events.take(2) =~= before);
            } else {
                assert(events.take(3) =~= events);
            }
        }
    } else {
        lemma_unavailable_source_matches_nothing(mode, before);
        assert forall|i: int| 0 <= i <= events.len() implies !reads(
            #[trigger] state_after(State::Init, mode, events.take(i)),
        ) by {
            if i < events.len() {
                assert(events.take(i) =~= before.take(i));
            } else {
                assert(events.take(i) =~= events);
            }
        }
    }
}

/// Line mode never aborts on a line that gives nothing: after any lines the
/// machine still reads, and the end of the input then ends the run in
/// success.
pub proof fn lemma_lines_always_succeed(
    pattern: Seq<char>,
    group: GroupView,
    lines: Seq<Seq<char>>,
)
    ensures
        state_after(State::Reading, Mode::Lines, unit_events(pattern, group, lines))
            == State::Reading,
        state_after(
            State::Reading,
            Mode::Lines,
            unit_events(pattern, group, lines).push(Event::EndOfInput),
        ) == State::Done(true),
        exit_code_of(State::Done(true)) == Some(0int),
    decreases lines.len(),
{
    let events = unit_events(pattern, group, lines);
    if lines.len() > 0 {
        lemma_lines_always_succeed(pattern, group, lines.drop_last());
        assert(events.drop_last() =~= unit_events(pattern, group, lines.drop_last()));
    }
    assert(events.push(Event::EndOfInput).drop_last() =~= events);
}

/// Line mode prints exactly the extracted texts: as many lines as there are
/// units with one.
pub proof fn lemma_lines_print_each_extraction(
    pattern: Seq<char>,
    group: GroupView,
    lines: Seq<Seq<char>>,
)
    ensures
        actions_of(State::Reading, Mode::Lines, unit_events(pattern, group, lines)).len()
            == lines.len(),
        forall|i: int|
            0 <= i < lines.len() ==> (#[trigger] actions_of(
                State::Reading,
                Mode::Lines,
                unit_events(pattern, group, lines),
            )[i] == Action::Print <==> extraction(pattern, group, lines[i]) is Some),
        actions_of(State::Reading, Mode::Lines, unit_events(pattern, group, lines)).filter(
            |a: Action| a == Action::Print,
        ).len() == lines_output(pattern, group, lines).len(),
    decreases lines.len(),
{
    let events = unit_events(pattern, group, lines);
    let is_print = |a: Action| a == Action::Print;
    if lines.len() > 0 {
        let shorter = lines.drop_last();
        lemma_lines_print_each_extraction(pattern, group, shorter);
        lemma_lines_always_succeed(pattern, group, shorter);
        assert(events.drop_last() =~= unit_events(pattern, group, shorter));
        let before = actions_of(State::Reading, Mode::Lines, events.drop_last());
        let last = next(State::Reading, Mode::Lines, events.last()).1;
        assert(actions_of(State::Reading, Mode::Lines, events) == before.push(last));
        assert(before.push(last).drop_last() =~= before);
        reveal_with_fuel(Seq::filter, 2);
        assert(forall|i: int| 0 <= i < shorter.len() ==> shorter[i] == lines[i]);
    } else {
        assert(actions_of(State::Reading, Mode::Lines, events) =~= Seq::<Action>::empty());
        reveal_with_fuel(Seq::filter, 1);
    }
}

/// Document mode succeeds exactly where the one unit gives a text: no match,
/// or a match without the selected group, fails the run.
pub proof fn lemma_document_needs_its_match(pattern: Seq<char>, group: GroupView, text: Seq<char>)
    ensures
        next(State::Reading, Mode::Document, unit_event(extraction(pattern, group, text))).0
            == State::Done(extraction(pattern, group, text) is Some),
        exit_code_of(
            next(State::Reading, Mode::Document, unit_event(extraction(pattern, group, text))).0,
        ) == Some(document_code(pattern, group, text)),
        next(State::Reading, Mode::Document, unit_event(extraction(pattern, group, text))).1
            == Action::Print <==> document_output(pattern, group, text).len() == 1,
{
}

} // verus!
