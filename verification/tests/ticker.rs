use uish::channel::{Update, UpdateChannel};
use uish::clock::{LocalMoment, Readings};
use uish::session::SessionState;
use uish::ticker::{Ticker, TickerState, TICK_INTERVAL_MS};

#[test]
fn ticker_interval_is_one_second() {
    assert_eq!(TICK_INTERVAL_MS, 1000);
}

#[test]
fn ticker_starts_once() {
    let mut ticker = Ticker::new();
    assert_eq!(ticker.state(), TickerState::Stopped);
    assert!(ticker.start());
    assert_eq!(ticker.state(), TickerState::Running);
    assert!(!ticker.start());
    assert_eq!(ticker.state(), TickerState::Running);
}

#[test]
fn stopped_ticker_posts_nothing() {
    let mut ticker = Ticker::new();
    let mut channel = UpdateChannel::new();
    assert!(!ticker.tick(&mut channel));
    assert_eq!(channel.pending_count(), 0);
    assert_eq!(ticker.state(), TickerState::Stopped);
}

#[test]
fn each_tick_posts_one_refresh() {
    let mut ticker = Ticker::new();
    let mut channel = UpdateChannel::new();
    ticker.start();
    for n in 1..=5 {
        assert!(ticker.tick(&mut channel));
        assert_eq!(channel.pending_count(), n);
    }
    let mut session = SessionState::new();
    let readings = Readings {
        moment: LocalMoment { year: 2006, month: 5, day: 4, hour: 1, minute: 2, second: 3 },
        path: "/p".to_string(),
    };
    channel.drain_and_apply(&mut session, &readings);
    assert_eq!(session.clock(), "01:02:03");
    assert_eq!(session.date(), "04/05/2006");
    assert_eq!(session.cwd(), "/p");
    assert_eq!(channel.pending_count(), 0);
}

#[test]
fn closed_channel_stops_the_ticker_for_good() {
    let mut ticker = Ticker::new();
    let mut channel = UpdateChannel::new();
    ticker.start();
    assert!(ticker.tick(&mut channel));
    channel.close();
    assert!(!ticker.tick(&mut channel));
    assert_eq!(ticker.state(), TickerState::Stopped);
    assert_eq!(channel.pending_count(), 1);
    assert!(!ticker.start());
    assert_eq!(ticker.state(), TickerState::Stopped);
    assert!(!ticker.tick(&mut channel));
    assert_eq!(channel.pending_count(), 1);
}

#[test]
fn ticker_posts_behind_what_is_queued() {
    let mut ticker = Ticker::new();
    let mut channel = UpdateChannel::new();
    channel.post(Update::AppendLog("x".to_string())).unwrap();
    ticker.start();
    ticker.tick(&mut channel);
    assert_eq!(channel.pending_count(), 2);
}
