//! The update channel: a first-in, first-out queue of deferred display
//! updates. Any producer may post; only the owner of the session drains.
//!
//! The queue itself is plain data. A host that posts from another thread
//! keeps the channel behind a lock of its own.

use vstd::prelude::*;
use crate::clock::{
    clock_digits,
    clock_text,
    clock_text_spec,
    date_digits,
    date_in_range,
    date_text,
    date_text_spec,
    time_in_range,
    LocalMoment,
    Readings,
    ReadingsView,
};
use crate::session::{ReturnStatus, SessionState, SessionView};

verus! {

/// A deferred change to the session, applied when the channel is drained.
#[derive(Debug, PartialEq, Eq)]
pub enum Update {
    /// Show the current time, date and working directory.
    RefreshHeader,
    /// Show the current time.
    RefreshClock,
    /// Show the current date.
    RefreshDate,
    /// Show the current working directory.
    RefreshPath,
    /// Append a line to the console log.
    AppendLog(String),
    /// Set the return-status indicator.
    SetStatus(ReturnStatus),
}

/// Mathematical model of an [`Update`].
pub enum UpdateView {
    /// Show the current time, date and working directory.
    RefreshHeader,
    /// Show the current time.
    RefreshClock,
    /// Show the current date.
    RefreshDate,
    /// Show the current working directory.
    RefreshPath,
    /// Append a line to the console log.
    AppendLog(Seq<char>),
    /// Set the return-status indicator.
    SetStatus(ReturnStatus),
}

impl View for Update {
    type V = UpdateView;

    open spec fn view(&self) -> UpdateView {
        match self {
            Update::RefreshHeader => UpdateView::RefreshHeader,
            Update::RefreshClock => UpdateView::RefreshClock,
            Update::RefreshDate => UpdateView::RefreshDate,
            Update::RefreshPath => UpdateView::RefreshPath,
            Update::AppendLog(text) => UpdateView::AppendLog(text@),
            Update::SetStatus(code) => UpdateView::SetStatus(*code),
        }
    }
}

/// The session with the clock region showing the time of `m`. A moment that
/// holds no time of day leaves the region as it is.
pub open spec fn with_clock(s: SessionView, m: LocalMoment) -> SessionView {
    match clock_text_spec(m) {
        Some(text) => SessionView { clock: text, ..s },
        None => s,
    }
}

/// The session with the date region showing the date of `m`. A moment whose
/// date cannot be shown leaves the region as it is.
pub open spec fn with_date(s: SessionView, m: LocalMoment) -> SessionView {
    match date_text_spec(m) {
        Some(text) => SessionView { date: text, ..s },
        None => s,
    }
}

/// The session after one update, given what the surroundings read at the
/// time of application.
pub open spec fn apply_update(s: SessionView, u: UpdateView, r: ReadingsView) -> SessionView {
    match u {
        UpdateView::RefreshHeader => with_date(
            with_clock(SessionView { cwd: r.path, ..s }, r.moment),
            r.moment,
        ),
        UpdateView::RefreshClock => with_clock(s, r.moment),
        UpdateView::RefreshDate => with_date(s, r.moment),
        UpdateView::RefreshPath => SessionView { cwd: r.path, ..s },
        UpdateView::AppendLog(text) => SessionView { log: s.log.push(text), ..s },
        UpdateView::SetStatus(code) => SessionView { status: code, ..s },
    }
}

/// The session after a sequence of updates, applied from the first to the
/// last.
pub open spec fn apply_all(s: SessionView, us: Seq<UpdateView>, r: ReadingsView) -> SessionView
    decreases us.len(),
{
    if us.len() == 0 {
        s
    } else {
        apply_update(apply_all(s, us.drop_last(), r), us.last(), r)
    }
}

/// Shows the time of `m` in the clock region: see [`with_clock`].
fn show_clock(state: &mut SessionState, m: &LocalMoment)
    ensures
        final(state)@ == with_clock(old(state)@, *m),
{
    match clock_text(m) {
        Some(text) => {
            state.set_clock(text);
        },
        None => {},
    }
}

/// Shows the date of `m` in the date region: see [`with_date`].
fn show_date(state: &mut SessionState, m: &LocalMoment)
    ensures
        final(state)@ == with_date(old(state)@, *m),
{
    match date_text(m) {
        Some(text) => {
            state.set_date(text);
        },
        None => {},
    }
}

impl Update {
    /// Applies this update to the session.
    pub fn apply(&self, state: &mut SessionState, readings: &Readings)
        ensures
            final(state)@ == apply_update(old(state)@, self@, readings@),
    {
        match self {
            Update::RefreshHeader => {
                state.set_cwd(readings.path.clone());
                show_clock(state, &readings.moment);
                show_date(state, &readings.moment);
            },
            Update::RefreshClock => {
                show_clock(state, &readings.moment);
            },
            Update::RefreshDate => {
                show_date(state, &readings.moment);
            },
            Update::RefreshPath => {
                state.set_cwd(readings.path.clone());
            },
            Update::AppendLog(text) => {
                state.append_line(text.clone());
            },
            Update::SetStatus(code) => {
                state.set_status(*code);
            },
        }
    }
}

/// Mathematical model of an [`UpdateChannel`].
pub struct ChannelView {
    /// Updates posted and not yet applied, oldest first.
    pub pending: Seq<UpdateView>,
    /// Whether the consumer is gone.
    pub closed: bool,
}

/// The models of queued updates.
pub open spec fn updates_of(v: Seq<Update>) -> Seq<UpdateView> {
    Seq::new(v.len(), |i: int| v[i]@)
}

/// The channel after `post` was called with `u`: an open channel holds `u`
/// behind what it held, a closed one is unchanged.
pub open spec fn post_one(c: ChannelView, u: UpdateView) -> ChannelView {
    if c.closed {
        c
    } else {
        ChannelView { pending: c.pending.push(u), ..c }
    }
}

/// The channel after `post` was called with each of `us` in turn.
pub open spec fn post_all(c: ChannelView, us: Seq<UpdateView>) -> ChannelView
    decreases us.len(),
{
    if us.len() == 0 {
        c
    } else {
        post_one(post_all(c, us.drop_last()), us.last())
    }
}

/// The channel after it was drained.
pub open spec fn drained(c: ChannelView) -> ChannelView {
    ChannelView { pending: Seq::empty(), ..c }
}

/// Reported by `post` when the consumer is gone.
#[derive(Clone, Copy, Debug, PartialEq, Eq, Structural)]
pub struct ChannelClosed;

/// Queue of updates waiting for the owner of the session.
pub struct UpdateChannel {
    queue: Vec<Update>,
    closed: bool,
}

impl View for UpdateChannel {
    type V = ChannelView;

    closed spec fn view(&self) -> ChannelView {
        ChannelView { pending: updates_of(self.queue@), closed: self.closed }
    }
}

impl UpdateChannel {
    /// An open channel with nothing queued.
    pub fn new() -> (c: Self)
        ensures
            c@.pending.len() == 0,
            !c@.closed,
    {
        let c = UpdateChannel { queue: Vec::new(), closed: false };
        assert(updates_of(c.queue@) =~= Seq::<UpdateView>::empty());
        c
    }

    /// Queues `action` behind everything posted before.
    ///
    /// On a closed channel nothing is queued and the condition is reported:
    /// a periodic producer takes it as the signal to stop.
    pub fn post(&mut self, action: Update) -> (r: Result<(), ChannelClosed>)
        ensures
            final(self)@ == post_one(old(self)@, action@),
            r is Err <==> old(self)@.closed,
    {
        if self.closed {
            return Err(ChannelClosed);
        }
        self.queue.push(action);
        assert(updates_of(self.queue@) =~= updates_of(old(self).queue@).push(action@));
        Ok(())
    }

    /// Number of updates waiting.
    pub fn pending_count(&self) -> (n: usize)
        ensures
            n == self@.pending.len(),
    {
        self.queue.len()
    }

    /// Whether the consumer is gone.
    pub fn is_closed(&self) -> (b: bool)
        ensures
            b == self@.closed,
    {
        self.closed
    }

    /// Marks the consumer as gone. What is queued stays queued; every later
    /// `post` is refused.
    pub fn close(&mut self)
        ensures
            final(self)@ == (ChannelView { closed: true, ..old(self)@ }),
    {
        self.closed = true;
    }

    /// Applies every queued update to `state`, oldest first, and leaves the
    /// queue empty. With nothing queued, neither the session nor the channel
    /// changes.
    pub fn drain_and_apply(&mut self, state: &mut SessionState, readings: &Readings)
        ensures
            final(self)@ == drained(old(self)@),
            final(state)@ == apply_all(old(state)@, old(self)@.pending, readings@),
            old(self)@.pending.len() == 0 ==> final(state)@ == old(state)@,
            old(self)@.pending.len() == 0 ==> final(self)@ == old(self)@,
    {
        let ghost pending = self@.pending;
        let mut i: usize = 0;
        while i < self.queue.len()
            invariant
                i <= self.queue.len(),
                self.queue@ == old(self).queue@,
                self.closed == old(self).closed,
                pending == updates_of(self.queue@),
                state@ == apply_all(old(state)@, pending.take(i as int), readings@),
            decreases self.queue.len() - i,
        {
            proof {
                assert(pending.take(i + 1).drop_last() =~= pending.take(i as int));
            }
            self.queue[i].apply(state, readings);
            i = i + 1;
        }
        assert(pending.take(i as int) =~= pending);
        self.queue.clear();
        assert(updates_of(self.queue@) =~= Seq::<UpdateView>::empty());
        assert(pending.len() == 0 ==> pending =~= Seq::<UpdateView>::empty());
    }
}

/// Applying `a` and then `b` is applying `a` followed by `b`.
pub proof fn lemma_apply_all_concat(
    s: SessionView,
    a: Seq<UpdateView>,
    b: Seq<UpdateView>,
    r: ReadingsView,
)
    ensures
        apply_all(s, a + b, r) == apply_all(apply_all(s, a, r), b, r),
    decreases b.len(),
{
    if b.len() == 0 {
        assert(a + b =~= a);
    } else {
        lemma_apply_all_concat(s, a, b.drop_last(), r);
        assert((a + b).drop_last() =~= a + b.drop_last());
        assert((a + b).last() == b.last());
    }
}

/// Posting to an open channel queues every update, in the order of the calls.
pub proof fn lemma_post_all_queues(c: ChannelView, us: Seq<UpdateView>)
    requires
        !c.closed,
    ensures
        post_all(c, us) == (ChannelView { pending: c.pending + us, ..c }),
    decreases us.len(),
{
    if us.len() == 0 {
        assert(c.pending + us =~= c.pending);
    } else {
        lemma_post_all_queues(c, us.drop_last());
        assert((c.pending + us.drop_last()).push(us.last()) =~= c.pending + us);
    }
}

/// No posted update is lost: after any number of posts to an open channel,
/// one drain applies what was queued before and then every posted update,
/// each exactly once and in the order of the posts, and empties the queue.
pub proof fn law_posts_then_drain(
    c: ChannelView,
    s: SessionView,
    us: Seq<UpdateView>,
    r: ReadingsView,
)
    requires
        !c.closed,
    ensures
        post_all(c, us).pending.len() == c.pending.len() + us.len(),
        forall|k: int| 0 <= k < us.len() ==> post_all(c, us).pending[c.pending.len() + k] == us[k],
        apply_all(s, post_all(c, us).pending, r) == apply_all(apply_all(s, c.pending, r), us, r),
        c.pending.len() == 0 ==> apply_all(s, post_all(c, us).pending, r) == apply_all(s, us, r),
        drained(post_all(c, us)).pending.len() == 0,
{
    lemma_post_all_queues(c, us);
    lemma_apply_all_concat(s, c.pending, us, r);
    if c.pending.len() == 0 {
        assert(c.pending =~= Seq::<UpdateView>::empty());
    }
}

/// Draining an empty queue is a no-op: the session stays as it is, and so
/// does the channel.
pub proof fn law_drain_empty_is_noop(c: ChannelView, s: SessionView, r: ReadingsView)
    requires
        c.pending.len() == 0,
    ensures
        apply_all(s, c.pending, r) == s,
        drained(c) == c,
{
    assert(c.pending =~= Seq::<UpdateView>::empty());
}

/// A header refresh is idempotent: with the same readings, applying it
/// again changes nothing. A tick that was missed is made up by the next.
pub proof fn law_refresh_is_idempotent(s: SessionView, r: ReadingsView)
    ensures
        apply_update(apply_update(s, UpdateView::RefreshHeader, r), UpdateView::RefreshHeader, r)
            == apply_update(s, UpdateView::RefreshHeader, r),
{
}

/// A header refresh with a reading whose time and date can be shown puts
/// the working directory, the clock of 24 hours and the date of day, month
/// and year on the display, and touches nothing else.
pub proof fn law_refresh_shows_reading(s: SessionView, r: ReadingsView)
    requires
        time_in_range(r.moment),
        date_in_range(r.moment),
    ensures
        apply_update(s, UpdateView::RefreshHeader, r) == (SessionView {
            cwd: r.path,
            clock: clock_digits(
                r.moment.hour as int,
                r.moment.minute as int,
                r.moment.second as int,
            ),
            date: date_digits(r.moment.year as int, r.moment.month as int, r.moment.day as int),
            ..s
        }),
{
}

} // verus!
