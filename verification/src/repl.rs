use vstd::prelude::*;
use crate::trio::Trio;

verus! {

/// What the shell waits for.
#[derive(Clone, Copy, Debug)]
pub enum ReplPhase {
    /// A line typed at the prompt.
    Reading,
    /// Whether the text read so far is a complete script.
    Checking,
    /// The result of evaluating the statement.
    Evaluating,
    /// Nothing: the shell has ended.
    Finished,
}

/// What happened since the last action.
#[derive(Clone, Debug)]
pub enum ReplEvent {
    /// A line was typed.
    Line(String),
    /// The text read so far is a complete script, or not.
    Complete(bool),
    /// Reading was interrupted (Ctrl-C).
    Interrupted,
    /// The input ended (Ctrl-D).
    Eof,
    /// Reading failed, for the reason given.
    ReadFailed(String),
    /// The statement was evaluated, with this result.
    Evaluated(Trio<String, String>),
}

/// What the shell asks to be done next.
#[derive(Clone, Debug)]
pub enum ReplAction {
    /// Read a line; at the first line of a statement (`continuation` false)
    /// the line editor starts afresh from the saved history.
    Read { continuation: bool },
    /// Find out whether `buffer` is a complete script.
    Check { buffer: String },
    /// Save the history and evaluate `source`, as ending at line `line`.
    Eval { source: String, line: u32 },
    /// End the shell.
    Exit,
}

/// The state of the shell: the statement read so far, whether it spans more
/// than one line, the number of the next line, and what it waits for.
pub struct ReplState {
    pub buffer: Seq<char>,
    pub multiline: bool,
    pub line_no: u32,
    pub phase: ReplPhase,
}

/// The read-evaluate-print loop of the shell, driven by events.
pub struct Repl {
    buffer: String,
    multiline: bool,
    line_no: u32,
    phase: ReplPhase,
}

impl View for Repl {
    type V = ReplState;

    closed spec fn view(&self) -> ReplState {
        ReplState {
            buffer: self.buffer@,
            multiline: self.multiline,
            line_no: self.line_no,
            phase: self.phase,
        }
    }
}

/// The state in which the shell starts: nothing read, line 1, waiting for a line.
pub open spec fn initial_state() -> ReplState {
    ReplState { buffer: Seq::empty(), multiline: false, line_no: 1, phase: ReplPhase::Reading }
}

/// The events that the shell can take in state `s`.
pub open spec fn accepts(s: ReplState, e: ReplEvent) -> bool {
    match s.phase {
        ReplPhase::Reading => match e {
            ReplEvent::Line(_) => s.line_no < u32::MAX,
            ReplEvent::Interrupted | ReplEvent::Eof | ReplEvent::ReadFailed(_) => true,
            _ => false,
        },
        ReplPhase::Checking => e is Complete,
        ReplPhase::Evaluating => e is Evaluated,
        ReplPhase::Finished => false,
    }
}

/// The state after the shell takes event `e` in state `s`.
pub open spec fn next(s: ReplState, e: ReplEvent) -> ReplState {
    match e {
        ReplEvent::Line(line) => ReplState {
            buffer: s.buffer + line@,
            line_no: (s.line_no + 1) as u32,
            phase: ReplPhase::Checking,
            ..s
        },
        ReplEvent::Complete(true) => ReplState { phase: ReplPhase::Evaluating, ..s },
        ReplEvent::Complete(false) => ReplState { multiline: true, phase: ReplPhase::Reading, ..s },
        ReplEvent::Interrupted | ReplEvent::Eof => ReplState { phase: ReplPhase::Finished, ..s },
        ReplEvent::ReadFailed(_) => ReplState { phase: ReplPhase::Evaluating, ..s },
        ReplEvent::Evaluated(_) => ReplState {
            buffer: Seq::empty(),
            multiline: false,
            phase: ReplPhase::Reading,
            ..s
        },
    }
}

/// The line that the shell prints on taking event `e`, if any.
pub open spec fn output_of(e: ReplEvent) -> Option<Seq<char>> {
    match e {
        ReplEvent::Interrupted => Some("CTRL-C"@),
        ReplEvent::Eof => Some("CTRL-D"@),
        ReplEvent::ReadFailed(why) => Some("Error: "@ + why@),
        ReplEvent::Evaluated(Trio::Value(x)) => Some(x@),
        ReplEvent::Evaluated(Trio::Error(x)) => Some(x@),
        _ => None,
    }
}

/// `a` is what the shell asks for in state `s`.
pub open spec fn action_for(s: ReplState, a: ReplAction) -> bool {
    match s.phase {
        ReplPhase::Reading => a == ReplAction::Read { continuation: s.multiline },
        ReplPhase::Checking => a matches ReplAction::Check { buffer } && buffer@ == s.buffer,
        ReplPhase::Evaluating => a matches ReplAction::Eval { source, line } && source@ == s.buffer
            && line == s.line_no,
        ReplPhase::Finished => a is Exit,
    }
}

/// The text of an optional string.
pub open spec fn opt_text(o: Option<String>) -> Option<Seq<char>> {
    match o {
        Some(s) => Some(s@),
        None => None,
    }
}

/// The prompt shown before reading a line: `js> ` at the start of a
/// statement, `> ` within one.
pub fn prompt(continuation: bool) -> (p: &'static str)
    ensures
        p@ == (if continuation { "> "@ } else { "js> "@ }),
{
    if continuation { "> " } else { "js> " }
}

impl Repl {
    /// A shell that has read nothing yet.
    pub fn new() -> (r: Repl)
        ensures
            r@ == initial_state(),
    {
        Repl { buffer: String::new(), multiline: false, line_no: 1, phase: ReplPhase::Reading }
    }

    /// The number of the next line to be read.
    pub fn line_no(&self) -> (n: u32)
        ensures
            n == self@.line_no,
    {
        self.line_no
    }

    /// What the shell asks for in its present state.
    pub fn pending(&self) -> (a: ReplAction)
        ensures
            action_for(self@, a),
    {
        match self.phase {
            ReplPhase::Reading => ReplAction::Read { continuation: self.multiline },
            ReplPhase::Checking => ReplAction::Check { buffer: self.buffer.clone() },
            ReplPhase::Evaluating => ReplAction::Eval { source: self.buffer.clone(), line: self.line_no },
            ReplPhase::Finished => ReplAction::Exit,
        }
    }

    /// Takes an event: returns the line to print, if any, and what to do next.
    pub fn step(&mut self, event: ReplEvent) -> (r: (Option<String>, ReplAction))
        requires
            accepts(old(self)@, event),
        ensures
            final(self)@ == next(old(self)@, event),
            opt_text(r.0) == output_of(event),
            action_for(final(self)@, r.1),
    {
        let out = match event {
            ReplEvent::Line(line) => {
                self.buffer.append(line.as_str());
                self.line_no = self.line_no + 1;
                self.phase = ReplPhase::Checking;
                None
            },
            ReplEvent::Complete(full) => {
                if full {
                    self.phase = ReplPhase::Evaluating;
                } else {
                    self.multiline = true;
                    self.phase = ReplPhase::Reading;
                }
                None
            },
            ReplEvent::Interrupted => {
                self.phase = ReplPhase::Finished;
                Some(String::from_str("CTRL-C"))
            },
            ReplEvent::Eof => {
                self.phase = ReplPhase::Finished;
                Some(String::from_str("CTRL-D"))
            },
            ReplEvent::ReadFailed(why) => {
                self.phase = ReplPhase::Evaluating;
                let mut msg = String::from_str("Error: ");
                msg.append(why.as_str());
                Some(msg)
            },
            ReplEvent::Evaluated(result) => {
                self.buffer = String::new();
                self.multiline = false;
                self.phase = ReplPhase::Reading;
                match result {
                    Trio::Value(x) => Some(x),
                    Trio::Empty => None,
                    Trio::Error(x) => Some(x),
                }
            },
        };
        let action = self.pending();
        (out, action)
    }
}


// ---------------------------------------------------------------------------
// Runs of events, and what holds of every run
// ---------------------------------------------------------------------------

/// The state after taking the events `es` in turn from `s`.
pub open spec fn run(s: ReplState, es: Seq<ReplEvent>) -> ReplState
    decreases es.len(),
{
    if es.len() == 0 {
        s
    } else {
        run(next(s, es[0]), es.drop_first())
    }
}

/// Each of the events `es` is one that the shell can take when it comes.
pub open spec fn accepts_run(s: ReplState, es: Seq<ReplEvent>) -> bool
    decreases es.len(),
{
    es.len() == 0 || (accepts(s, es[0]) && accepts_run(next(s, es[0]), es.drop_first()))
}

/// The events of typing `lines`, each found to leave the statement incomplete.
pub open spec fn incomplete_lines(lines: Seq<String>) -> Seq<ReplEvent>
    decreases lines.len(),
{
    if lines.len() == 0 {
        Seq::empty()
    } else {
        seq![ReplEvent::Line(lines[0]), ReplEvent::Complete(false)] + incomplete_lines(
            lines.drop_first(),
        )
    }
}

/// The texts of `lines`, one after the other.
pub open spec fn joined(lines: Seq<String>) -> Seq<char>
    decreases lines.len(),
{
    if lines.len() == 0 {
        Seq::empty()
    } else {
        lines[0]@ + joined(lines.drop_first())
    }
}

/// The shell is well formed: when it waits for the first line of a
/// statement, it holds no text.
pub open spec fn well_formed(s: ReplState) -> bool {
    (s.phase is Reading && !s.multiline) ==> s.buffer == Seq::<char>::empty()
}

proof fn lemma_run_append(s: ReplState, a: Seq<ReplEvent>, b: Seq<ReplEvent>)
    ensures
        run(s, a + b) == run(run(s, a), b),
        accepts_run(s, a + b) == (accepts_run(s, a) && accepts_run(run(s, a), b)),
    decreases a.len(),
{
    if a.len() == 0 {
        assert(a + b =~= b);
    } else {
        assert((a + b).drop_first() =~= a.drop_first() + b);
        lemma_run_append(next(s, a[0]), a.drop_first(), b);
    }
}

/// Lines that leave the statement incomplete are added to it in order, one
/// line number each, and make the prompt a continuation prompt.
pub proof fn lemma_incomplete_lines(s: ReplState, lines: Seq<String>)
    requires
        s.phase is Reading,
        s.line_no + lines.len() <= u32::MAX,
    ensures
        accepts_run(s, incomplete_lines(lines)),
        run(s, incomplete_lines(lines)) == (ReplState {
            buffer: s.buffer + joined(lines),
            multiline: s.multiline || lines.len() > 0,
            line_no: (s.line_no + lines.len()) as u32,
            phase: ReplPhase::Reading,
        }),
    decreases lines.len(),
{
    if lines.len() == 0 {
        assert(s.buffer + joined(lines) =~= s.buffer);
    } else {
        let l = lines[0];
        let first = seq![ReplEvent::Line(l), ReplEvent::Complete(false)];
        let s1 = next(next(s, ReplEvent::Line(l)), ReplEvent::Complete(false));
        lemma_run_append(s, first, incomplete_lines(lines.drop_first()));
        assert(first.drop_first() =~= seq![ReplEvent::Complete(false)]);
        assert(first.drop_first().drop_first() =~= Seq::<ReplEvent>::empty());
        reveal_with_fuel(run, 3);
        reveal_with_fuel(accepts_run, 3);
        assert(run(s, first) == s1);
        assert(accepts_run(s, first));
        lemma_incomplete_lines(s1, lines.drop_first());
        assert(s.buffer + l@ + joined(lines.drop_first()) =~= s.buffer + joined(lines));
    }
}

/// The statement that the shell evaluates is exactly the lines typed for it,
/// joined without separators, and it is evaluated as ending at the line
/// number after the last of them.
pub proof fn lemma_statement_source(s: ReplState, lines: Seq<String>, last: String)
    requires
        s.phase is Reading,
        !s.multiline,
        well_formed(s),
        s.line_no + lines.len() + 1 <= u32::MAX,
    ensures
        ({
            let es = incomplete_lines(lines) + seq![ReplEvent::Line(last), ReplEvent::Complete(true)];
            &&& accepts_run(s, es)
            &&& run(s, es).phase is Evaluating
            &&& run(s, es).buffer == joined(lines) + last@
            &&& run(s, es).line_no == s.line_no + lines.len() + 1
            &&& forall|a: ReplAction| #[trigger] action_for(run(s, es), a) ==> (a matches ReplAction::Eval {
                source,
                line,
            } && source@ == joined(lines) + last@ && line == s.line_no + lines.len() + 1)
        }),
{
    let tail = seq![ReplEvent::Line(last), ReplEvent::Complete(true)];
    lemma_incomplete_lines(s, lines);
    lemma_run_append(s, incomplete_lines(lines), tail);
    let m = run(s, incomplete_lines(lines));
    assert(tail.drop_first() =~= seq![ReplEvent::Complete(true)]);
    assert(tail.drop_first().drop_first() =~= Seq::<ReplEvent>::empty());
    reveal_with_fuel(run, 3);
    reveal_with_fuel(accepts_run, 3);
    assert(run(m, tail) == next(next(m, ReplEvent::Line(last)), ReplEvent::Complete(true)));
    assert(accepts_run(m, tail));
    assert(s.buffer + joined(lines) =~= joined(lines));
}

/// Whatever an evaluation gives, the shell then starts a new statement: no
/// text held, a first-line prompt, the line number kept.
pub proof fn lemma_reset_after_eval(s: ReplState, result: Trio<String, String>)
    requires
        accepts(s, ReplEvent::Evaluated(result)),
    ensures
        next(s, ReplEvent::Evaluated(result)) == (ReplState {
            buffer: Seq::empty(),
            multiline: false,
            line_no: s.line_no,
            phase: ReplPhase::Reading,
        }),
{
}

/// The line number counts the lines read: each line adds one, and no other
/// event changes it.
pub proof fn lemma_line_count(s: ReplState, e: ReplEvent)
    requires
        accepts(s, e),
    ensures
        next(s, e).line_no == s.line_no + (if e is Line { 1int } else { 0int }),
{
}

/// The shell ends exactly when reading is interrupted or the input ends.
pub proof fn lemma_exit(s: ReplState, e: ReplEvent)
    requires
        accepts(s, e),
    ensures
        (next(s, e).phase is Finished) <==> (e is Interrupted || e is Eof),
{
}

/// The shell starts well formed.
pub proof fn lemma_initial_well_formed()
    ensures
        well_formed(initial_state()),
{
}

/// Every event that the shell takes keeps it well formed.
pub proof fn lemma_well_formed(s: ReplState, e: ReplEvent)
    requires
        well_formed(s),
        accepts(s, e),
    ensures
        well_formed(next(s, e)),
{
}

} // verus!
