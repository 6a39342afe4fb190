//! The command executor: what a submitted line means, and how the outcome of
//! an external command reaches the session.
//!
//! The executor spawns nothing itself. For an external command it hands the
//! host a directive, and the host reports back what the subprocess did, one
//! event at a time. Every line is in the console log as soon as its event is
//! processed, so a long-running command shows its output while it runs. The
//! host reads standard output to its end before it touches standard error.
//! While a command runs the host does nothing else: there is no timeout and
//! no cancellation.

use vstd::prelude::*;
use crate::session::{ReturnStatus, SessionState, SessionView, WELCOME};

verus! {

/// Program that interprets external commands.
pub const SHELL_INTERPRETER: &'static str = "bash";

/// Argument that precedes the command text on the interpreter's command line.
pub const SHELL_COMMAND_FLAG: &'static str = "-c";

/// The line logged when an external command could not be spawned.
pub const SPAWN_FAILURE_LINE: &'static str = "Error";

/// A command that the shell handles without spawning anything.
#[derive(Clone, Copy, Debug, PartialEq, Eq, Structural)]
pub enum Builtin {
    /// `quit` or `exit`: end the event loop.
    Quit,
    /// `cls`: empty the console log.
    Clear,
}

/// What a submitted line is.
#[derive(Clone, Copy, Debug, PartialEq, Eq, Structural)]
pub enum Classification {
    /// One of the built-in commands.
    Builtin(Builtin),
    /// Anything else: handed verbatim to the host's command interpreter.
    External,
}

/// The classification rule: the exact words `quit` and `exit`, then the exact
/// word `cls`, then everything else.
pub open spec fn classify_spec(line: Seq<char>) -> Classification {
    if line == "quit"@ || line == "exit"@ {
        Classification::Builtin(Builtin::Quit)
    } else if line == "cls"@ {
        Classification::Builtin(Builtin::Clear)
    } else {
        Classification::External
    }
}

/// Classifies a submitted line. The line is compared as it stands: no
/// trimming, no splitting, no change of case. The empty line is no command:
/// [`Executor::submit`] deals with it before it classifies.
pub fn classify(line: &str) -> (c: Classification)
    ensures
        c == classify_spec(line@),
{
    let text = line.to_owned();
    if text == "quit".to_owned() || text == "exit".to_owned() {
        Classification::Builtin(Builtin::Quit)
    } else if text == "cls".to_owned() {
        Classification::Builtin(Builtin::Clear)
    } else {
        Classification::External
    }
}

/// How far the live external command has come.
#[derive(Clone, Copy, Debug, PartialEq, Eq, Structural)]
pub enum Stage {
    /// The host was asked to spawn the command and has not answered.
    AwaitingSpawn,
    /// The process runs; its standard output is being read.
    ReadingStdout,
    /// Standard output is exhausted; standard error is being read.
    ReadingStderr,
}

/// Mathematical model of the live external command.
pub struct InvocationView {
    /// The submitted line.
    pub line: Seq<char>,
    /// How far the command has come.
    pub stage: Stage,
}

/// What the host reports about the subprocess.
#[derive(Debug, PartialEq, Eq)]
pub enum ProcessEvent {
    /// The command could not be spawned.
    SpawnFailed,
    /// The command was spawned, with both of its output streams captured.
    Spawned,
    /// The stream being read gave one more line, here without its line end.
    Line(String),
    /// The stream being read is exhausted, or reading it failed.
    EndOfStream,
}

/// Mathematical model of a [`ProcessEvent`].
pub enum ProcessEventView {
    /// The command could not be spawned.
    SpawnFailed,
    /// The command was spawned.
    Spawned,
    /// The stream being read gave one more line.
    Line(Seq<char>),
    /// The stream being read is exhausted, or reading it failed.
    EndOfStream,
}

impl View for ProcessEvent {
    type V = ProcessEventView;

    open spec fn view(&self) -> ProcessEventView {
        match self {
            ProcessEvent::SpawnFailed => ProcessEventView::SpawnFailed,
            ProcessEvent::Spawned => ProcessEventView::Spawned,
            ProcessEvent::Line(text) => ProcessEventView::Line(text@),
            ProcessEvent::EndOfStream => ProcessEventView::EndOfStream,
        }
    }
}

/// What one attempt to read a line from an output stream gave.
#[derive(Debug, PartialEq, Eq)]
pub enum ReadOutcome {
    /// A line, here without its line end.
    Line(String),
    /// The stream is exhausted.
    Exhausted,
    /// Reading failed.
    Failed,
}

/// Mathematical model of a [`ReadOutcome`].
pub enum ReadOutcomeView {
    /// A line.
    Line(Seq<char>),
    /// The stream is exhausted.
    Exhausted,
    /// Reading failed.
    Failed,
}

impl View for ReadOutcome {
    type V = ReadOutcomeView;

    open spec fn view(&self) -> ReadOutcomeView {
        match self {
            ReadOutcome::Line(text) => ReadOutcomeView::Line(text@),
            ReadOutcome::Exhausted => ReadOutcomeView::Exhausted,
            ReadOutcome::Failed => ReadOutcomeView::Failed,
        }
    }
}

/// The report that a read amounts to. A failed read ends the stream exactly
/// as its exhaustion does: it is no error of the command, and the session
/// never waits on a stream that cannot be read.
pub open spec fn read_report(outcome: ReadOutcomeView) -> ProcessEventView {
    match outcome {
        ReadOutcomeView::Line(text) => ProcessEventView::Line(text),
        ReadOutcomeView::Exhausted => ProcessEventView::EndOfStream,
        ReadOutcomeView::Failed => ProcessEventView::EndOfStream,
    }
}

impl ProcessEvent {
    /// The report for one attempt to read a line: see [`read_report`].
    pub fn from_read(outcome: ReadOutcome) -> (event: ProcessEvent)
        ensures
            event@ == read_report(outcome@),
    {
        match outcome {
            ReadOutcome::Line(text) => ProcessEvent::Line(text),
            ReadOutcome::Exhausted => ProcessEvent::EndOfStream,
            ReadOutcome::Failed => ProcessEvent::EndOfStream,
        }
    }
}

/// What the host is to do next.
#[derive(Debug, PartialEq, Eq)]
pub enum Directive {
    /// The submission is dealt with; wait for input.
    Done,
    /// End the event loop.
    Terminate,
    /// Spawn the command interpreter on this text, capture both output
    /// streams, and report `Spawned` or `SpawnFailed`.
    Spawn(String),
    /// Read the next line of standard output and report it, or its end.
    ReadStdout,
    /// Read the next line of standard error and report it, or its end.
    ReadStderr,
    /// The call does not fit the current state; nothing has changed.
    Rejected,
}

/// Mathematical model of a [`Directive`].
pub enum DirectiveView {
    /// The submission is dealt with.
    Done,
    /// End the event loop.
    Terminate,
    /// Spawn the command interpreter on this text.
    Spawn(Seq<char>),
    /// Read the next line of standard output.
    ReadStdout,
    /// Read the next line of standard error.
    ReadStderr,
    /// The call does not fit the current state.
    Rejected,
}

impl View for Directive {
    type V = DirectiveView;

    open spec fn view(&self) -> DirectiveView {
        match self {
            Directive::Done => DirectiveView::Done,
            Directive::Terminate => DirectiveView::Terminate,
            Directive::Spawn(text) => DirectiveView::Spawn(text@),
            Directive::ReadStdout => DirectiveView::ReadStdout,
            Directive::ReadStderr => DirectiveView::ReadStderr,
            Directive::Rejected => DirectiveView::Rejected,
        }
    }
}

/// Result of one step of the executor: the live command, the session, and
/// what the host is told.
pub struct Outcome {
    /// The live external command, if any.
    pub live: Option<InvocationView>,
    /// The session.
    pub session: SessionView,
    /// What the host is to do next.
    pub directive: DirectiveView,
}

/// The session once a submitted line is dealt with: the line stands on the
/// status line and the prompt is empty.
pub open spec fn closed_out(s: SessionView, line: Seq<char>) -> SessionView {
    SessionView { status_line: line, prompt: Seq::empty(), ..s }
}

/// What submitting `line` does.
///
/// While a command is live the submission is rejected. An empty line puts the
/// welcome message back on the status line. `quit` and `exit` ask for the end
/// of the event loop. `cls` empties the log and sets the indicator to idle.
/// Any other line becomes the live command, with the indicator on running,
/// and the host is asked to spawn it.
pub open spec fn submit_spec(
    live: Option<InvocationView>,
    s: SessionView,
    line: Seq<char>,
) -> Outcome {
    if live is Some {
        Outcome { live, session: s, directive: DirectiveView::Rejected }
    } else if line.len() == 0 {
        Outcome {
            live: None,
            session: SessionView { status_line: WELCOME@, prompt: Seq::empty(), ..s },
            directive: DirectiveView::Done,
        }
    } else {
        match classify_spec(line) {
            Classification::Builtin(Builtin::Quit) => Outcome {
                live: None,
                session: closed_out(s, line),
                directive: DirectiveView::Terminate,
            },
            Classification::Builtin(Builtin::Clear) => Outcome {
                live: None,
                session: closed_out(
                    SessionView { log: Seq::empty(), status: ReturnStatus::Idle, ..s },
                    line,
                ),
                directive: DirectiveView::Done,
            },
            Classification::External => Outcome {
                live: Some(InvocationView { line, stage: Stage::AwaitingSpawn }),
                session: SessionView { status: ReturnStatus::Running, ..s },
                directive: DirectiveView::Spawn(line),
            },
        }
    }
}

/// What one report of the host does.
///
/// A failed spawn logs the failure line and sets the indicator to error. A
/// line read from either stream is appended to the log. The end of standard
/// output turns to standard error; the end of standard error appends an empty
/// line and sets the indicator to success. Both endings close the submission
/// out. A report that does not fit the stage is rejected.
pub open spec fn step_spec(
    live: Option<InvocationView>,
    s: SessionView,
    ev: ProcessEventView,
) -> Outcome {
    let rejected = Outcome { live, session: s, directive: DirectiveView::Rejected };
    match live {
        None => rejected,
        Some(inv) => match (inv.stage, ev) {
            (Stage::AwaitingSpawn, ProcessEventView::SpawnFailed) => Outcome {
                live: None,
                session: closed_out(
                    SessionView {
                        log: s.log.push(SPAWN_FAILURE_LINE@),
                        status: ReturnStatus::Error,
                        ..s
                    },
                    inv.line,
                ),
                directive: DirectiveView::Done,
            },
            (Stage::AwaitingSpawn, ProcessEventView::Spawned) => Outcome {
                live: Some(InvocationView { stage: Stage::ReadingStdout, ..inv }),
                session: s,
                directive: DirectiveView::ReadStdout,
            },
            (Stage::ReadingStdout, ProcessEventView::Line(text)) => Outcome {
                live,
                session: SessionView { log: s.log.push(text), ..s },
                directive: DirectiveView::ReadStdout,
            },
            (Stage::ReadingStdout, ProcessEventView::EndOfStream) => Outcome {
                live: Some(InvocationView { stage: Stage::ReadingStderr, ..inv }),
                session: s,
                directive: DirectiveView::ReadStderr,
            },
            (Stage::ReadingStderr, ProcessEventView::Line(text)) => Outcome {
                live,
                session: SessionView { log: s.log.push(text), ..s },
                directive: DirectiveView::ReadStderr,
            },
            (Stage::ReadingStderr, ProcessEventView::EndOfStream) => Outcome {
                live: None,
                session: closed_out(
                    SessionView {
                        log: s.log.push(Seq::empty()),
                        status: ReturnStatus::Success,
                        ..s
                    },
                    inv.line,
                ),
                directive: DirectiveView::Done,
            },
            _ => rejected,
        },
    }
}

/// The live external command: the submitted line and how far it has come.
struct Invocation {
    line: String,
    stage: Stage,
}

/// The command executor. It holds at most one live external command.
pub struct Executor {
    live: Option<Invocation>,
}

impl View for Executor {
    type V = Option<InvocationView>;

    closed spec fn view(&self) -> Option<InvocationView> {
        match self.live {
            Some(inv) => Some(InvocationView { line: inv.line@, stage: inv.stage }),
            None => None,
        }
    }
}

impl Executor {
    /// An executor with no live command.
    pub fn new() -> (e: Self)
        ensures
            e@ is None,
    {
        Executor { live: None }
    }

    /// Whether an external command is live.
    pub fn is_busy(&self) -> (b: bool)
        ensures
            b == (self@ is Some),
    {
        self.live.is_some()
    }

    /// The stage of the live command, if there is one.
    pub fn stage(&self) -> (r: Option<Stage>)
        ensures
            r == (match self@ {
                Some(inv) => Some(inv.stage),
                None => None::<Stage>,
            }),
    {
        match &self.live {
            Some(inv) => Some(inv.stage),
            None => None,
        }
    }

    /// Handles a submitted line: see [`submit_spec`].
    pub fn submit(&mut self, session: &mut SessionState, line: &str) -> (d: Directive)
        ensures
            (Outcome { live: final(self)@, session: final(session)@, directive: d@ })
                == submit_spec(old(self)@, old(session)@, line@),
    {
        if self.live.is_some() {
            return Directive::Rejected;
        }
        if line.is_empty() {
            session.set_status_line(WELCOME.to_owned());
            session.clear_prompt();
            return Directive::Done;
        }
        match classify(line) {
            Classification::Builtin(Builtin::Quit) => {
                session.set_status_line(line.to_owned());
                session.clear_prompt();
                Directive::Terminate
            },
            Classification::Builtin(Builtin::Clear) => {
                session.clear_log();
                session.set_status(ReturnStatus::Idle);
                session.set_status_line(line.to_owned());
                session.clear_prompt();
                Directive::Done
            },
            Classification::External => {
                session.set_status(ReturnStatus::Running);
                self.live = Some(Invocation { line: line.to_owned(), stage: Stage::AwaitingSpawn });
                Directive::Spawn(line.to_owned())
            },
        }
    }

    /// Handles one report of the host about the subprocess: see
    /// [`step_spec`].
    pub fn on_event(&mut self, session: &mut SessionState, event: ProcessEvent) -> (d: Directive)
        ensures
            (Outcome { live: final(self)@, session: final(session)@, directive: d@ }) == step_spec(
                old(self)@,
                old(session)@,
                event@,
            ),
    {
        let inv = match self.live.take() {
            Some(inv) => inv,
            None => {
                return Directive::Rejected;
            },
        };
        match (inv.stage, event) {
            (Stage::AwaitingSpawn, ProcessEvent::SpawnFailed) => {
                session.append_line(SPAWN_FAILURE_LINE.to_owned());
                session.set_status(ReturnStatus::Error);
                session.set_status_line(inv.line);
                session.clear_prompt();
                Directive::Done
            },
            (Stage::AwaitingSpawn, ProcessEvent::Spawned) => {
                self.live = Some(Invocation { line: inv.line, stage: Stage::ReadingStdout });
                Directive::ReadStdout
            },
            (Stage::ReadingStdout, ProcessEvent::Line(text)) => {
                session.append_line(text);
                self.live = Some(inv);
                Directive::ReadStdout
            },
            (Stage::ReadingStdout, ProcessEvent::EndOfStream) => {
                self.live = Some(Invocation { line: inv.line, stage: Stage::ReadingStderr });
                Directive::ReadStderr
            },
            (Stage::ReadingStderr, ProcessEvent::Line(text)) => {
                session.append_line(text);
                self.live = Some(inv);
                Directive::ReadStderr
            },
            (Stage::ReadingStderr, ProcessEvent::EndOfStream) => {
                session.append_line(String::new());
                session.set_status(ReturnStatus::Success);
                session.set_status_line(inv.line);
                session.clear_prompt();
                Directive::Done
            },
            (_, _) => {
                self.live = Some(inv);
                Directive::Rejected
            },
        }
    }
}

/// The live command and the session after a sequence of reports, each
/// handled in turn.
pub open spec fn run_spec(
    live: Option<InvocationView>,
    s: SessionView,
    events: Seq<ProcessEventView>,
) -> (Option<InvocationView>, SessionView)
    decreases events.len(),
{
    if events.len() == 0 {
        (live, s)
    } else {
        let before = run_spec(live, s, events.drop_last());
        let after = step_spec(before.0, before.1, events.last());
        (after.live, after.session)
    }
}

/// The reports of a stream that gives `lines` one by one.
pub open spec fn line_events(lines: Seq<Seq<char>>) -> Seq<ProcessEventView> {
    Seq::new(lines.len(), |i: int| ProcessEventView::Line(lines[i]))
}

/// Everything the host reports of a command that was spawned, wrote `out` to
/// standard output and `err` to standard error, and ended.
pub open spec fn transcript(out: Seq<Seq<char>>, err: Seq<Seq<char>>) -> Seq<ProcessEventView> {
    seq![ProcessEventView::Spawned] + line_events(out) + seq![ProcessEventView::EndOfStream]
        + line_events(err) + seq![ProcessEventView::EndOfStream]
}

/// Handling `a` and then `b` is handling `a` followed by `b`.
pub proof fn lemma_run_concat(
    live: Option<InvocationView>,
    s: SessionView,
    a: Seq<ProcessEventView>,
    b: Seq<ProcessEventView>,
)
    ensures
        run_spec(live, s, a + b) == run_spec(run_spec(live, s, a).0, run_spec(live, s, a).1, b),
    decreases b.len(),
{
    if b.len() == 0 {
        assert(a + b =~= a);
    } else {
        lemma_run_concat(live, s, a, b.drop_last());
        assert((a + b).drop_last() =~= a + b.drop_last());
        assert((a + b).last() == b.last());
    }
}

/// Handling a single report is one step.
pub proof fn lemma_run_one(live: Option<InvocationView>, s: SessionView, ev: ProcessEventView)
    ensures
        run_spec(live, s, seq![ev]) == (step_spec(live, s, ev).live, step_spec(live, s, ev).session),
{
    assert(seq![ev].drop_last() =~= Seq::<ProcessEventView>::empty());
    assert(run_spec(live, s, seq![ev].drop_last()) == (live, s));
}

/// While a stream is being read, its lines go to the end of the log in the
/// order read, and nothing else changes.
pub proof fn lemma_run_lines(inv: InvocationView, s: SessionView, lines: Seq<Seq<char>>)
    requires
        inv.stage == Stage::ReadingStdout || inv.stage == Stage::ReadingStderr,
    ensures
        run_spec(Some(inv), s, line_events(lines)) == (
            Some(inv),
            SessionView { log: s.log + lines, ..s },
        ),
    decreases lines.len(),
{
    if lines.len() == 0 {
        assert(s.log + lines =~= s.log);
    } else {
        lemma_run_lines(inv, s, lines.drop_last());
        assert(line_events(lines).drop_last() =~= line_events(lines.drop_last()));
        assert(line_events(lines).last() == ProcessEventView::Line(lines.last()));
        assert((s.log + lines.drop_last()).push(lines.last()) =~= s.log + lines);
    }
}

/// Every non-empty line other than `quit`, `exit` and `cls` is an external
/// command: submitted to an idle executor it becomes the live command, the
/// indicator shows running, and the host is asked to spawn exactly that line.
pub proof fn law_other_lines_are_spawned(s: SessionView, line: Seq<char>)
    requires
        line.len() > 0,
        line != "quit"@,
        line != "exit"@,
        line != "cls"@,
    ensures
        classify_spec(line) == Classification::External,
        submit_spec(None, s, line).directive == DirectiveView::Spawn(line),
        submit_spec(None, s, line).live == Some(
            InvocationView { line, stage: Stage::AwaitingSpawn },
        ),
        submit_spec(None, s, line).session == (SessionView { status: ReturnStatus::Running, ..s }),
{
}

/// Submitting `cls` to an idle executor leaves an empty log and an idle
/// indicator, whatever the log held before, and spawns nothing.
pub proof fn law_clear_empties_log(s: SessionView)
    ensures
        classify_spec("cls"@) == Classification::Builtin(Builtin::Clear),
        submit_spec(None, s, "cls"@).session.log.len() == 0,
        submit_spec(None, s, "cls"@).session.status == ReturnStatus::Idle,
        submit_spec(None, s, "cls"@).live is None,
        submit_spec(None, s, "cls"@).directive == DirectiveView::Done,
{
    reveal_strlit("cls");
    reveal_strlit("quit");
    reveal_strlit("exit");
}

/// Submitting `quit` or `exit` to an idle executor asks for the end of the
/// event loop and spawns nothing.
pub proof fn law_quit_asks_to_terminate(s: SessionView, line: Seq<char>)
    requires
        line == "quit"@ || line == "exit"@,
    ensures
        classify_spec(line) == Classification::Builtin(Builtin::Quit),
        submit_spec(None, s, line).directive == DirectiveView::Terminate,
        submit_spec(None, s, line).live is None,
        submit_spec(None, s, line).session.log == s.log,
        submit_spec(None, s, line).session.status == s.status,
{
    reveal_strlit("quit");
    reveal_strlit("exit");
}

/// A command that is spawned, writes `out` to standard output and `err` to
/// standard error, and ends, adds to the log the lines of `out`, then the
/// lines of `err`, then one empty line, and nothing else. The indicator ends
/// on success, the command stands on the status line, the prompt is empty,
/// and no command is live.
pub proof fn law_successful_run(
    s: SessionView,
    line: Seq<char>,
    out: Seq<Seq<char>>,
    err: Seq<Seq<char>>,
)
    requires
        line.len() > 0,
        classify_spec(line) == Classification::External,
    ensures
        ({
            let start = submit_spec(None, s, line);
            let end = run_spec(start.live, start.session, transcript(out, err));
            &&& end.0 is None
            &&& end.1 == (SessionView {
                log: s.log + out + err + seq![Seq::<char>::empty()],
                status: ReturnStatus::Success,
                status_line: line,
                prompt: Seq::empty(),
                ..s
            })
            &&& end.1.log.len() == s.log.len() + out.len() + err.len() + 1
        }),
{
    let start = submit_spec(None, s, line);
    let spawned = seq![ProcessEventView::Spawned];
    let eos = seq![ProcessEventView::EndOfStream];
    let s0 = start.session;
    let reading_out = InvocationView { line, stage: Stage::ReadingStdout };
    let reading_err = InvocationView { line, stage: Stage::ReadingStderr };
    let s1 = SessionView { log: s0.log + out, ..s0 };
    let s2 = SessionView { log: s1.log + err, ..s1 };

    lemma_run_one(start.live, s0, ProcessEventView::Spawned);
    assert(run_spec(start.live, s0, spawned) == (Some(reading_out), s0));

    lemma_run_concat(start.live, s0, spawned, line_events(out));
    lemma_run_lines(reading_out, s0, out);
    assert(run_spec(start.live, s0, spawned + line_events(out)) == (Some(reading_out), s1));

    lemma_run_concat(start.live, s0, spawned + line_events(out), eos);
    lemma_run_one(Some(reading_out), s1, ProcessEventView::EndOfStream);
    assert(run_spec(start.live, s0, spawned + line_events(out) + eos) == (Some(reading_err), s1));

    lemma_run_concat(start.live, s0, spawned + line_events(out) + eos, line_events(err));
    lemma_run_lines(reading_err, s1, err);
    assert(run_spec(start.live, s0, spawned + line_events(out) + eos + line_events(err)) == (
        Some(reading_err),
        s2,
    ));

    lemma_run_concat(
        start.live,
        s0,
        spawned + line_events(out) + eos + line_events(err),
        eos,
    );
    lemma_run_one(Some(reading_err), s2, ProcessEventView::EndOfStream);
    assert((s.log + out + err).push(Seq::<char>::empty()) =~= s.log + out + err + seq![
        Seq::<char>::empty(),
    ]);
}

/// A command that cannot be spawned adds exactly one line to the log, the
/// failure line, and sets the indicator to error. No command is live
/// afterwards, so the next submission is handled like any other.
pub proof fn law_failed_spawn(s: SessionView, line: Seq<char>, next: Seq<char>)
    requires
        line.len() > 0,
        classify_spec(line) == Classification::External,
    ensures
        ({
            let start = submit_spec(None, s, line);
            let end = step_spec(start.live, start.session, ProcessEventView::SpawnFailed);
            &&& end.live is None
            &&& end.directive == DirectiveView::Done
            &&& end.session == (SessionView {
                log: s.log.push(SPAWN_FAILURE_LINE@),
                status: ReturnStatus::Error,
                status_line: line,
                prompt: Seq::empty(),
                ..s
            })
            &&& submit_spec(end.live, end.session, next).directive != DirectiveView::Rejected
        }),
{
}

/// At most one command is live: while one is, a submission is rejected and
/// changes nothing, whatever the line.
pub proof fn law_one_command_at_a_time(inv: InvocationView, s: SessionView, line: Seq<char>)
    ensures
        submit_spec(Some(inv), s, line) == (Outcome {
            live: Some(inv),
            session: s,
            directive: DirectiveView::Rejected,
        }),
{
}

/// An empty submission puts the welcome message on the status line and
/// leaves the log and the indicator as they are.
pub proof fn law_empty_line_restores_welcome(s: SessionView)
    ensures
        submit_spec(None, s, Seq::empty()).session == (SessionView {
            status_line: WELCOME@,
            prompt: Seq::empty(),
            ..s
        }),
        submit_spec(None, s, Seq::empty()).directive == DirectiveView::Done,
        submit_spec(None, s, Seq::empty()).live is None,
{
}

} // verus!
