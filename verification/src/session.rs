//! The session state: everything the user interface shows, owned by the
//! thread that runs the event loop.

use vstd::prelude::*;

verus! {

/// Text of the status line before any command was submitted, and after an
/// empty submission.
pub const WELCOME: &'static str = "Welcome to :uish: - F3 to quit";

/// Outcome indicator of the most recent command.
#[derive(Clone, Copy, Debug, PartialEq, Eq, Structural)]
pub enum ReturnStatus {
    /// No command has produced an outcome since start-up or the last clear.
    Idle,
    /// An external command has been accepted and has not finished.
    Running,
    /// The last external command was spawned and its output was read to the end.
    Success,
    /// The last external command could not be spawned.
    Error,
}

/// Mathematical model of a [`SessionState`].
pub struct SessionView {
    /// Working directory shown in the path region.
    pub cwd: Seq<char>,
    /// Text of the clock region.
    pub clock: Seq<char>,
    /// Text of the date region.
    pub date: Seq<char>,
    /// Text being edited at the prompt.
    pub prompt: Seq<char>,
    /// Console log, one entry per line, oldest first.
    pub log: Seq<Seq<char>>,
    /// Text of the status line.
    pub status_line: Seq<char>,
    /// Return-status indicator.
    pub status: ReturnStatus,
}

/// The lines of a log as sequences of characters.
pub open spec fn lines_of(v: Seq<String>) -> Seq<Seq<char>> {
    Seq::new(v.len(), |i: int| v[i]@)
}

/// A log as the text of the console region: every line followed by a line
/// feed.
pub open spec fn render_log(log: Seq<Seq<char>>) -> Seq<char>
    decreases log.len(),
{
    if log.len() == 0 {
        Seq::empty()
    } else {
        render_log(log.drop_last()) + log.last() + seq!['\n']
    }
}

/// The model of a session right after start-up.
pub open spec fn initial_session() -> SessionView {
    SessionView {
        cwd: Seq::empty(),
        clock: "00:00:00"@,
        date: "00/00/0000"@,
        prompt: Seq::empty(),
        log: Seq::empty(),
        status_line: WELCOME@,
        status: ReturnStatus::Idle,
    }
}

/// State of one shell session.
pub struct SessionState {
    cwd: String,
    clock: String,
    date: String,
    prompt: String,
    log: Vec<String>,
    status_line: String,
    status: ReturnStatus,
}

impl View for SessionState {
    type V = SessionView;

    closed spec fn view(&self) -> SessionView {
        SessionView {
            cwd: self.cwd@,
            clock: self.clock@,
            date: self.date@,
            prompt: self.prompt@,
            log: lines_of(self.log@),
            status_line: self.status_line@,
            status: self.status,
        }
    }
}

impl SessionState {
    /// A fresh session: empty log and prompt, placeholder clock and date,
    /// the welcome message on the status line.
    pub fn new() -> (s: Self)
        ensures
            s@ == initial_session(),
    {
        let s = SessionState {
            cwd: String::new(),
            clock: "00:00:00".to_owned(),
            date: "00/00/0000".to_owned(),
            prompt: String::new(),
            log: Vec::new(),
            status_line: WELCOME.to_owned(),
            status: ReturnStatus::Idle,
        };
        assert(lines_of(s.log@) =~= Seq::<Seq<char>>::empty());
        s
    }

    /// Text of the path region.
    pub fn cwd(&self) -> (r: &str)
        ensures
            r@ == self@.cwd,
    {
        self.cwd.as_str()
    }

    /// Text of the clock region.
    pub fn clock(&self) -> (r: &str)
        ensures
            r@ == self@.clock,
    {
        self.clock.as_str()
    }

    /// Text of the date region.
    pub fn date(&self) -> (r: &str)
        ensures
            r@ == self@.date,
    {
        self.date.as_str()
    }

    /// Text being edited at the prompt.
    pub fn prompt(&self) -> (r: &str)
        ensures
            r@ == self@.prompt,
    {
        self.prompt.as_str()
    }

    /// The console log, one string per line, oldest first.
    pub fn log(&self) -> (r: &Vec<String>)
        ensures
            lines_of(r@) == self@.log,
    {
        &self.log
    }

    /// Text of the status line.
    pub fn status_line(&self) -> (r: &str)
        ensures
            r@ == self@.status_line,
    {
        self.status_line.as_str()
    }

    /// The return-status indicator.
    pub fn status(&self) -> (r: ReturnStatus)
        ensures
            r == self@.status,
    {
        self.status
    }

    /// The console log as one text: every line followed by a line feed.
    pub fn log_text(&self) -> (text: String)
        ensures
            text@ == render_log(self@.log),
    {
        let mut text = String::new();
        let mut i: usize = 0;
        while i < self.log.len()
            invariant
                i <= self.log.len(),
                text@ == render_log(lines_of(self.log@).take(i as int)),
            decreases self.log.len() - i,
        {
            proof {
                reveal_strlit("\n");
                let lines = lines_of(self.log@);
                assert(lines.take(i + 1).drop_last() =~= lines.take(i as int));
                assert("\n"@ =~= seq!['\n']);
            }
            text.append(self.log[i].as_str());
            text.append("\n");
            i = i + 1;
        }
        assert(lines_of(self.log@).take(i as int) =~= lines_of(self.log@));
        text
    }

    /// Appends one line to the end of the console log.
    pub fn append_line(&mut self, line: String)
        ensures
            final(self)@ == (SessionView { log: old(self)@.log.push(line@), ..old(self)@ }),
    {
        self.log.push(line);
        assert(lines_of(self.log@) =~= lines_of(old(self).log@).push(line@));
    }

    /// Empties the console log.
    pub fn clear_log(&mut self)
        ensures
            final(self)@ == (SessionView { log: Seq::empty(), ..old(self)@ }),
    {
        self.log.clear();
        assert(lines_of(self.log@) =~= Seq::<Seq<char>>::empty());
    }

    /// Sets the return-status indicator.
    pub fn set_status(&mut self, status: ReturnStatus)
        ensures
            final(self)@ == (SessionView { status, ..old(self)@ }),
    {
        self.status = status;
    }

    /// Replaces the text of the status line.
    pub fn set_status_line(&mut self, text: String)
        ensures
            final(self)@ == (SessionView { status_line: text@, ..old(self)@ }),
    {
        self.status_line = text;
    }

    /// Replaces the text being edited at the prompt.
    pub fn set_prompt(&mut self, text: String)
        ensures
            final(self)@ == (SessionView { prompt: text@, ..old(self)@ }),
    {
        self.prompt = text;
    }

    /// Empties the prompt.
    pub fn clear_prompt(&mut self)
        ensures
            final(self)@ == (SessionView { prompt: Seq::empty(), ..old(self)@ }),
    {
        self.prompt = String::new();
    }

    /// Replaces the text of the clock region.
    pub fn set_clock(&mut self, text: String)
        ensures
            final(self)@ == (SessionView { clock: text@, ..old(self)@ }),
    {
        self.clock = text;
    }

    /// Replaces the text of the date region.
    pub fn set_date(&mut self, text: String)
        ensures
            final(self)@ == (SessionView { date: text@, ..old(self)@ }),
    {
        self.date = text;
    }

    /// Replaces the working directory shown in the path region.
    pub fn set_cwd(&mut self, text: String)
        ensures
            final(self)@ == (SessionView { cwd: text@, ..old(self)@ }),
    {
        self.cwd = text;
    }
}

} // verus!
