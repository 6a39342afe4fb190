//! The event loop of the user interface: one thread, which owns the session.
//!
//! One iteration handles one input event, then drains the update channel,
//! then draws. The host feeds the events and does what the returned
//! directive says. A command runs inside the iteration that submitted it: the
//! host spawns it, reports every line, and handles no other input until the
//! command has ended, so the prompt does not respond in the meantime.

use vstd::prelude::*;
use crate::channel::{apply_all, drained, ChannelView, UpdateChannel};
use crate::clock::{Readings, ReadingsView};
use crate::executor::{
    step_spec,
    submit_spec,
    Directive,
    DirectiveView,
    Executor,
    InvocationView,
    ProcessEvent,
    ProcessEventView,
};
use crate::session::{SessionState, SessionView};

verus! {

/// Lines that the console view scrolls past its bottom once a submission is
/// dealt with, so that the newest output is in sight.
pub const SCROLL_MARGIN: usize = 2;

/// The line written to the terminal when the loop has ended.
pub const FAREWELL: &'static str = ":uish: © JPL 2023";

/// What the user did.
#[derive(Debug, PartialEq, Eq)]
pub enum InputEvent {
    /// A keystroke changed the prompt, which now holds this text.
    Edit(String),
    /// The Enter key: submit the prompt.
    Enter,
    /// The quit key: end the loop, whatever the prompt holds.
    QuitKey,
    /// The terminal changed its size.
    Resize,
}

/// Mathematical model of an [`InputEvent`].
pub enum InputEventView {
    /// A keystroke changed the prompt, which now holds this text.
    Edit(Seq<char>),
    /// The Enter key.
    Enter,
    /// The quit key.
    QuitKey,
    /// The terminal changed its size.
    Resize,
}

impl View for InputEvent {
    type V = InputEventView;

    open spec fn view(&self) -> InputEventView {
        match self {
            InputEvent::Edit(text) => InputEventView::Edit(text@),
            InputEvent::Enter => InputEventView::Enter,
            InputEvent::QuitKey => InputEventView::QuitKey,
            InputEvent::Resize => InputEventView::Resize,
        }
    }
}

/// How the host draws at the end of an iteration.
#[derive(Clone, Copy, Debug, PartialEq, Eq, Structural)]
pub struct Frame {
    /// Scroll the console view to its bottom and [`SCROLL_MARGIN`] lines
    /// further before drawing.
    pub scroll_to_end: bool,
}

/// Mathematical model of an [`EventLoop`].
pub struct LoopView {
    /// The session.
    pub session: SessionView,
    /// The live external command, if any.
    pub live: Option<InvocationView>,
    /// Whether the loop has not ended.
    pub running: bool,
    /// Whether a submission was dealt with since the last frame.
    pub scroll_due: bool,
    /// Whether the farewell line was handed out.
    pub farewell_taken: bool,
}

/// The loop right after start-up, around a given session.
pub open spec fn initial_loop(session: SessionView) -> LoopView {
    LoopView { session, live: None, running: true, scroll_due: false, farewell_taken: false }
}

/// Result of handling an input event.
pub struct Turn {
    /// The loop afterwards.
    pub lp: LoopView,
    /// The update channel afterwards.
    pub channel: ChannelView,
    /// What the host is to do next.
    pub directive: DirectiveView,
}

/// The channel once its consumer is gone.
pub open spec fn closed_channel(c: ChannelView) -> ChannelView {
    ChannelView { closed: true, ..c }
}

/// What an input event does.
///
/// A loop that has ended handles nothing and says so. While a command is
/// live, input is rejected. An edit replaces the prompt. The quit key ends
/// the loop and closes the channel. The Enter key submits the prompt to the
/// executor; if that asks for the end, the loop ends and the channel is
/// closed; once the submission is dealt with, a scroll to the end is due.
pub open spec fn dispatch_spec(l: LoopView, c: ChannelView, ev: InputEventView) -> Turn {
    if !l.running {
        Turn { lp: l, channel: c, directive: DirectiveView::Terminate }
    } else if l.live is Some {
        Turn { lp: l, channel: c, directive: DirectiveView::Rejected }
    } else {
        match ev {
            InputEventView::Edit(text) => Turn {
                lp: LoopView { session: SessionView { prompt: text, ..l.session }, ..l },
                channel: c,
                directive: DirectiveView::Done,
            },
            InputEventView::Resize => Turn { lp: l, channel: c, directive: DirectiveView::Done },
            InputEventView::QuitKey => Turn {
                lp: LoopView { running: false, ..l },
                channel: closed_channel(c),
                directive: DirectiveView::Terminate,
            },
            InputEventView::Enter => {
                let o = submit_spec(l.live, l.session, l.session.prompt);
                let ends = o.directive == DirectiveView::Terminate;
                Turn {
                    lp: LoopView {
                        session: o.session,
                        live: o.live,
                        running: !ends,
                        scroll_due: l.scroll_due || o.live is None,
                        ..l
                    },
                    channel: if ends {
                        closed_channel(c)
                    } else {
                        c
                    },
                    directive: o.directive,
                }
            },
        }
    }
}

/// What a report about the subprocess does: the executor handles it, and once
/// the command has ended a scroll to the end is due. A loop that has ended
/// handles nothing.
pub open spec fn report_spec(l: LoopView, ev: ProcessEventView) -> (LoopView, DirectiveView) {
    if !l.running {
        (l, DirectiveView::Terminate)
    } else {
        let o = step_spec(l.live, l.session, ev);
        (
            LoopView {
                session: o.session,
                live: o.live,
                scroll_due: l.scroll_due || o.directive == DirectiveView::Done,
                ..l
            },
            o.directive,
        )
    }
}

/// Whether the loop is between two input events: running, with no command
/// live.
pub open spec fn at_rest(l: LoopView) -> bool {
    l.running && l.live is None
}

/// The loop at the end of an iteration: at rest, it has the queued updates
/// applied and owes no scroll; otherwise it is unchanged.
pub open spec fn finish_loop(l: LoopView, c: ChannelView, r: ReadingsView) -> LoopView {
    if at_rest(l) {
        LoopView { session: apply_all(l.session, c.pending, r), scroll_due: false, ..l }
    } else {
        l
    }
}

/// The channel at the end of an iteration: drained if the loop is at rest,
/// otherwise unchanged.
pub open spec fn finish_channel(l: LoopView, c: ChannelView) -> ChannelView {
    if at_rest(l) {
        drained(c)
    } else {
        c
    }
}

/// The frame at the end of an iteration: none unless the loop is at rest.
pub open spec fn finish_frame(l: LoopView) -> Option<Frame> {
    if at_rest(l) {
        Some(Frame { scroll_to_end: l.scroll_due })
    } else {
        None
    }
}

/// The event loop: the session, the executor that works on it, and whether
/// the loop has ended.
pub struct EventLoop {
    session: SessionState,
    executor: Executor,
    running: bool,
    scroll_due: bool,
    farewell_taken: bool,
}

impl View for EventLoop {
    type V = LoopView;

    closed spec fn view(&self) -> LoopView {
        LoopView {
            session: self.session@,
            live: self.executor@,
            running: self.running,
            scroll_due: self.scroll_due,
            farewell_taken: self.farewell_taken,
        }
    }
}

impl EventLoop {
    /// A running loop around a fresh session.
    pub fn new() -> (l: Self)
        ensures
            l@ == initial_loop(crate::session::initial_session()),
    {
        EventLoop {
            session: SessionState::new(),
            executor: Executor::new(),
            running: true,
            scroll_due: false,
            farewell_taken: false,
        }
    }

    /// The session, for drawing.
    pub fn session(&self) -> (s: &SessionState)
        ensures
            s@ == self@.session,
    {
        &self.session
    }

    /// Whether the loop has not ended.
    pub fn is_running(&self) -> (b: bool)
        ensures
            b == self@.running,
    {
        self.running
    }

    /// Whether an external command is live.
    pub fn is_busy(&self) -> (b: bool)
        ensures
            b == (self@.live is Some),
    {
        self.executor.is_busy()
    }

    /// Handles one input event: see [`dispatch_spec`].
    pub fn dispatch(&mut self, channel: &mut UpdateChannel, event: InputEvent) -> (d: Directive)
        ensures
            (Turn { lp: final(self)@, channel: final(channel)@, directive: d@ }) == dispatch_spec(
                old(self)@,
                old(channel)@,
                event@,
            ),
    {
        if !self.running {
            return Directive::Terminate;
        }
        if self.executor.is_busy() {
            return Directive::Rejected;
        }
        match event {
            InputEvent::Edit(text) => {
                self.session.set_prompt(text);
                Directive::Done
            },
            InputEvent::Resize => Directive::Done,
            InputEvent::QuitKey => {
                self.running = false;
                channel.close();
                Directive::Terminate
            },
            InputEvent::Enter => {
                let line = self.session.prompt().to_owned();
                let d = self.executor.submit(&mut self.session, line.as_str());
                match d {
                    Directive::Terminate => {
                        self.running = false;
                        self.scroll_due = true;
                        channel.close();
                    },
                    Directive::Spawn(_) => {},
                    _ => {
                        self.scroll_due = true;
                    },
                }
                d
            },
        }
    }

    /// Handles one report of the host about the subprocess: see
    /// [`report_spec`].
    pub fn report(&mut self, event: ProcessEvent) -> (d: Directive)
        ensures
            (final(self)@, d@) == report_spec(old(self)@, event@),
    {
        if !self.running {
            return Directive::Terminate;
        }
        let d = self.executor.on_event(&mut self.session, event);
        match d {
            Directive::Done => {
                self.scroll_due = true;
            },
            _ => {},
        }
        d
    }

    /// Ends an iteration. At rest, every queued update is applied to the
    /// session, oldest first, and the frame says whether to scroll to the
    /// end. While a command is live, or after the loop has ended, nothing is
    /// applied and there is no frame.
    pub fn finish_iteration(
        &mut self,
        channel: &mut UpdateChannel,
        readings: &Readings,
    ) -> (f: Option<Frame>)
        ensures
            final(self)@ == finish_loop(old(self)@, old(channel)@, readings@),
            final(channel)@ == finish_channel(old(self)@, old(channel)@),
            f == finish_frame(old(self)@),
    {
        if !self.running || self.executor.is_busy() {
            return None;
        }
        channel.drain_and_apply(&mut self.session, readings);
        let frame = Frame { scroll_to_end: self.scroll_due };
        self.scroll_due = false;
        Some(frame)
    }

    /// Hands out the farewell line, once, after the loop has ended.
    pub fn take_farewell(&mut self) -> (line: Option<&'static str>)
        ensures
            line is Some <==> !old(self)@.running && !old(self)@.farewell_taken,
            line matches Some(text) ==> text@ == FAREWELL@,
            final(self)@ == (LoopView {
                farewell_taken: old(self)@.farewell_taken || !old(self)@.running,
                ..old(self)@
            }),
    {
        if !self.running && !self.farewell_taken {
            self.farewell_taken = true;
            Some(FAREWELL)
        } else {
            None
        }
    }
}

/// Submitting `quit` or `exit` ends the loop: the host is told to terminate
/// and the update channel is closed, so that every later post is refused.
pub proof fn law_quit_ends_loop(l: LoopView, c: ChannelView)
    requires
        at_rest(l),
        l.session.prompt == "quit"@ || l.session.prompt == "exit"@,
    ensures
        !dispatch_spec(l, c, InputEventView::Enter).lp.running,
        dispatch_spec(l, c, InputEventView::Enter).directive == DirectiveView::Terminate,
        dispatch_spec(l, c, InputEventView::Enter).channel.closed,
        dispatch_spec(l, c, InputEventView::Enter).lp.live is None,
{
    crate::executor::law_quit_asks_to_terminate(l.session, l.session.prompt);
}

/// The quit key ends a loop at rest whatever the prompt holds, and leaves
/// the session as it is.
pub proof fn law_quit_key_ends_loop(l: LoopView, c: ChannelView)
    requires
        at_rest(l),
    ensures
        !dispatch_spec(l, c, InputEventView::QuitKey).lp.running,
        dispatch_spec(l, c, InputEventView::QuitKey).directive == DirectiveView::Terminate,
        dispatch_spec(l, c, InputEventView::QuitKey).channel.closed,
        dispatch_spec(l, c, InputEventView::QuitKey).lp.session == l.session,
{
}

/// A loop that has ended processes nothing: no input event, no report and no
/// end of iteration changes the loop or the channel, and each call tells the
/// host to terminate or gives no frame.
pub proof fn law_ended_loop_is_inert(
    l: LoopView,
    c: ChannelView,
    input: InputEventView,
    report: ProcessEventView,
    r: ReadingsView,
)
    requires
        !l.running,
    ensures
        dispatch_spec(l, c, input) == (Turn {
            lp: l,
            channel: c,
            directive: DirectiveView::Terminate,
        }),
        report_spec(l, report) == (l, DirectiveView::Terminate),
        finish_loop(l, c, r) == l,
        finish_channel(l, c) == c,
        finish_frame(l) is None,
{
}

/// Nothing that a subprocess does ends the loop: whatever the host reports,
/// a running loop keeps running.
pub proof fn law_reports_keep_loop_running(l: LoopView, report: ProcessEventView)
    requires
        l.running,
    ensures
        report_spec(l, report).0.running,
        report_spec(l, report).1 != DirectiveView::Terminate,
{
}

/// A running loop ends on an input event only by the quit key, or by Enter
/// on a prompt that holds `quit` or `exit`.
pub proof fn law_only_quit_ends_loop(l: LoopView, c: ChannelView, input: InputEventView)
    requires
        l.running,
        !dispatch_spec(l, c, input).lp.running,
    ensures
        l.live is None,
        input == InputEventView::QuitKey || (input == InputEventView::Enter && (l.session.prompt
            == "quit"@ || l.session.prompt == "exit"@)),
{
}

/// At the end of an iteration on an empty queue the session is unchanged.
pub proof fn law_finish_on_empty_queue(l: LoopView, c: ChannelView, r: ReadingsView)
    requires
        c.pending.len() == 0,
    ensures
        finish_loop(l, c, r).session == l.session,
        finish_channel(l, c) == c,
{
    crate::channel::law_drain_empty_is_noop(c, l.session, r);
}

/// Once a submission is dealt with, the next frame scrolls to the end, and
/// the frame after it does not.
pub proof fn law_scroll_follows_submission(l: LoopView, c: ChannelView, r: ReadingsView)
    requires
        at_rest(l),
    ensures
        ({
            let t = dispatch_spec(l, c, InputEventView::Enter);
            at_rest(t.lp) ==> {
                &&& finish_frame(t.lp) == Some(Frame { scroll_to_end: true })
                &&& finish_frame(finish_loop(t.lp, t.channel, r)) == Some(
                    Frame { scroll_to_end: false },
                )
            }
        }),
{
}

} // verus!
