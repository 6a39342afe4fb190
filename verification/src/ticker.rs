//! The periodic ticker: once a second it asks for a refresh of the header.
//!
//! The ticker decides; the host sleeps. A host thread waits
//! [`TICK_INTERVAL_MS`] and then calls [`Ticker::tick`], for as long as the
//! ticker runs. The ticker never reads the session.

use vstd::prelude::*;
use crate::channel::{
    apply_all,
    apply_update,
    post_one,
    ChannelView,
    Update,
    UpdateChannel,
    UpdateView,
};
use crate::clock::ReadingsView;
use crate::session::SessionView;

verus! {

/// Time between two ticks, in milliseconds.
pub const TICK_INTERVAL_MS: u64 = 1000;

/// Whether the ticker posts.
#[derive(Clone, Copy, Debug, PartialEq, Eq, Structural)]
pub enum TickerState {
    /// Not posting: before the start, or after the channel was found closed.
    Stopped,
    /// Posting one refresh per tick.
    Running,
}

/// Mathematical model of a [`Ticker`].
pub struct TickerView {
    /// Whether the ticker posts.
    pub state: TickerState,
    /// Whether the ticker was ever started.
    pub launched: bool,
}

/// The ticker after a call of `start`: a ticker that was never started runs,
/// any other stays as it is.
pub open spec fn start_spec(t: TickerView) -> TickerView {
    if t.launched {
        t
    } else {
        TickerView { state: TickerState::Running, launched: true }
    }
}

/// The ticker and the channel after one tick. A running ticker posts one
/// header refresh to an open channel, and stops at a closed one. A stopped
/// ticker does nothing.
pub open spec fn tick_spec(t: TickerView, c: ChannelView) -> (TickerView, ChannelView) {
    if t.state == TickerState::Running {
        if c.closed {
            (TickerView { state: TickerState::Stopped, ..t }, c)
        } else {
            (t, post_one(c, UpdateView::RefreshHeader))
        }
    } else {
        (t, c)
    }
}

/// The ticker and the channel after `n` ticks with nothing in between.
pub open spec fn ticks_spec(t: TickerView, c: ChannelView, n: nat) -> (TickerView, ChannelView)
    decreases n,
{
    if n == 0 {
        (t, c)
    } else {
        let before = ticks_spec(t, c, (n - 1) as nat);
        tick_spec(before.0, before.1)
    }
}

/// The periodic producer of header refreshes.
pub struct Ticker {
    state: TickerState,
    launched: bool,
}

impl View for Ticker {
    type V = TickerView;

    closed spec fn view(&self) -> TickerView {
        TickerView { state: self.state, launched: self.launched }
    }
}

impl Ticker {
    /// A ticker that was not started yet.
    pub fn new() -> (t: Self)
        ensures
            t@ == (TickerView { state: TickerState::Stopped, launched: false }),
    {
        Ticker { state: TickerState::Stopped, launched: false }
    }

    /// Starts the ticker. It starts once: a ticker that already ran is not
    /// started again. Returns whether this call started it.
    pub fn start(&mut self) -> (started: bool)
        ensures
            final(self)@ == start_spec(old(self)@),
            started == !old(self)@.launched,
    {
        if self.launched {
            false
        } else {
            self.state = TickerState::Running;
            self.launched = true;
            true
        }
    }

    /// The state of the ticker.
    pub fn state(&self) -> (s: TickerState)
        ensures
            s == self@.state,
    {
        self.state
    }

    /// One wake-up: see [`tick_spec`]. Returns whether the ticker still runs;
    /// when it does not, the host ends its loop.
    pub fn tick(&mut self, channel: &mut UpdateChannel) -> (running: bool)
        ensures
            (final(self)@, final(channel)@) == tick_spec(old(self)@, old(channel)@),
            running == (final(self)@.state == TickerState::Running),
    {
        match self.state {
            TickerState::Stopped => false,
            TickerState::Running => {
                match channel.post(Update::RefreshHeader) {
                    Ok(_) => true,
                    Err(_) => {
                        self.state = TickerState::Stopped;
                        false
                    },
                }
            },
        }
    }
}

/// The queue that holds `n` header refreshes and nothing else.
pub open spec fn refreshes(n: nat) -> Seq<UpdateView> {
    Seq::new(n, |i: int| UpdateView::RefreshHeader)
}

/// A running ticker on an open channel loses no tick: after `n` ticks the
/// queue holds what it held and `n` header refreshes behind it, and the
/// ticker still runs.
pub proof fn law_ticks_are_queued(t: TickerView, c: ChannelView, n: nat)
    requires
        t.state == TickerState::Running,
        !c.closed,
    ensures
        ticks_spec(t, c, n) == (t, ChannelView { pending: c.pending + refreshes(n), ..c }),
    decreases n,
{
    if n == 0 {
        assert(c.pending + refreshes(0) =~= c.pending);
    } else {
        law_ticks_are_queued(t, c, (n - 1) as nat);
        assert((c.pending + refreshes((n - 1) as nat)).push(UpdateView::RefreshHeader) =~= c.pending
            + refreshes(n));
    }
}

/// A closed channel stops the ticker at its first tick, and the ticker posts
/// nothing then or later.
pub proof fn law_closed_channel_stops_ticker(t: TickerView, c: ChannelView, n: nat)
    requires
        c.closed,
        n > 0,
    ensures
        ticks_spec(t, c, n) == (TickerView { state: TickerState::Stopped, ..t }, c),
    decreases n,
{
    if n > 1 {
        law_closed_channel_stops_ticker(t, c, (n - 1) as nat);
    } else {
        assert(ticks_spec(t, c, 0) == (t, c));
    }
}

/// However many header refreshes are queued, draining them shows what one
/// shows: a tick that the consumer was too slow for is absorbed by the next.
pub proof fn law_refreshes_collapse(s: SessionView, r: ReadingsView, n: nat)
    requires
        n > 0,
    ensures
        apply_all(s, refreshes(n), r) == apply_update(s, UpdateView::RefreshHeader, r),
    decreases n,
{
    assert(refreshes(n).drop_last() =~= refreshes((n - 1) as nat));
    if n > 1 {
        law_refreshes_collapse(s, r, (n - 1) as nat);
    } else {
        assert(apply_all(s, refreshes(0), r) == s);
    }
}

} // verus!
