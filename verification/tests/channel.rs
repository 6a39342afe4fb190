use uish::channel::{ChannelClosed, Update, UpdateChannel};
use uish::clock::{LocalMoment, Readings};
use uish::session::{ReturnStatus, SessionState};

fn readings() -> Readings {
    Readings {
        moment: LocalMoment { year: 2026, month: 10, day: 28, hour: 12, minute: 34, second: 56 },
        path: "/srv/work".to_string(),
    }
}

fn snapshot(s: &SessionState) -> (String, String, String, String, Vec<String>, String, ReturnStatus) {
    (
        s.cwd().to_string(),
        s.clock().to_string(),
        s.date().to_string(),
        s.prompt().to_string(),
        s.log().clone(),
        s.status_line().to_string(),
        s.status(),
    )
}

#[test]
fn posted_updates_are_applied_in_post_order() {
    let mut channel = UpdateChannel::new();
    let mut session = SessionState::new();
    assert_eq!(channel.post(Update::AppendLog("one".to_string())), Ok(()));
    assert_eq!(channel.post(Update::SetStatus(ReturnStatus::Running)), Ok(()));
    assert_eq!(channel.post(Update::AppendLog("two".to_string())), Ok(()));
    assert_eq!(channel.post(Update::SetStatus(ReturnStatus::Error)), Ok(()));
    assert_eq!(channel.post(Update::AppendLog("three".to_string())), Ok(()));
    assert_eq!(channel.pending_count(), 5);
    assert!(session.log().is_empty());
    channel.drain_and_apply(&mut session, &readings());
    assert_eq!(
        session.log(),
        &vec!["one".to_string(), "two".to_string(), "three".to_string()]
    );
    assert_eq!(session.status(), ReturnStatus::Error);
    assert_eq!(channel.pending_count(), 0);
}

#[test]
fn many_ticks_before_one_drain_are_all_applied() {
    let mut channel = UpdateChannel::new();
    let mut session = SessionState::new();
    for i in 0..100 {
        assert!(channel.post(Update::AppendLog(format!("line {}", i))).is_ok());
    }
    assert_eq!(channel.pending_count(), 100);
    channel.drain_and_apply(&mut session, &readings());
    assert_eq!(session.log().len(), 100);
    for i in 0..100 {
        assert_eq!(session.log()[i], format!("line {}", i));
    }
    assert_eq!(channel.pending_count(), 0);
}

#[test]
fn draining_an_empty_queue_changes_nothing() {
    let mut channel = UpdateChannel::new();
    let mut session = SessionState::new();
    session.append_line("kept".to_string());
    session.set_status(ReturnStatus::Success);
    session.set_prompt("typing".to_string());
    let before = snapshot(&session);
    channel.drain_and_apply(&mut session, &readings());
    assert_eq!(snapshot(&session), before);
    assert_eq!(channel.pending_count(), 0);
    assert!(!channel.is_closed());
    channel.drain_and_apply(&mut session, &readings());
    assert_eq!(snapshot(&session), before);
}

#[test]
fn second_drain_applies_nothing_again() {
    let mut channel = UpdateChannel::new();
    let mut session = SessionState::new();
    channel.post(Update::AppendLog("once".to_string())).unwrap();
    channel.drain_and_apply(&mut session, &readings());
    channel.drain_and_apply(&mut session, &readings());
    assert_eq!(session.log(), &vec!["once".to_string()]);
}

#[test]
fn header_refresh_shows_the_readings() {
    let mut channel = UpdateChannel::new();
    let mut session = SessionState::new();
    channel.post(Update::RefreshHeader).unwrap();
    channel.drain_and_apply(&mut session, &readings());
    assert_eq!(session.clock(), "12:34:56");
    assert_eq!(session.date(), "28/10/2026");
    assert_eq!(session.cwd(), "/srv/work");
    assert!(session.log().is_empty());
    assert_eq!(session.status(), ReturnStatus::Idle);
}

#[test]
fn single_refreshes_touch_one_region_each() {
    let r = readings();
    let mut session = SessionState::new();
    Update::RefreshClock.apply(&mut session, &r);
    assert_eq!(session.clock(), "12:34:56");
    assert_eq!(session.date(), "00/00/0000");
    assert_eq!(session.cwd(), "");
    Update::RefreshDate.apply(&mut session, &r);
    assert_eq!(session.date(), "28/10/2026");
    assert_eq!(session.cwd(), "");
    Update::RefreshPath.apply(&mut session, &r);
    assert_eq!(session.cwd(), "/srv/work");
}

#[test]
fn refresh_twice_is_refresh_once() {
    let r = readings();
    let mut once = SessionState::new();
    Update::RefreshHeader.apply(&mut once, &r);
    let mut twice = SessionState::new();
    Update::RefreshHeader.apply(&mut twice, &r);
    Update::RefreshHeader.apply(&mut twice, &r);
    assert_eq!(snapshot(&once), snapshot(&twice));
}

#[test]
fn closed_channel_refuses_posts() {
    let mut channel = UpdateChannel::new();
    let mut session = SessionState::new();
    channel.post(Update::AppendLog("before".to_string())).unwrap();
    channel.close();
    assert!(channel.is_closed());
    assert_eq!(channel.post(Update::AppendLog("after".to_string())), Err(ChannelClosed));
    assert_eq!(channel.post(Update::RefreshHeader), Err(ChannelClosed));
    assert_eq!(channel.pending_count(), 1);
    channel.drain_and_apply(&mut session, &readings());
    assert_eq!(session.log(), &vec!["before".to_string()]);
    assert!(channel.is_closed());
}

#[test]
fn refresh_with_an_impossible_time_leaves_the_clock() {
    let r = Readings {
        moment: LocalMoment { year: 2026, month: 10, day: 28, hour: 24, minute: 0, second: 0 },
        path: "/p".to_string(),
    };
    let mut session = SessionState::new();
    session.set_clock("11:11:11".to_string());
    Update::RefreshClock.apply(&mut session, &r);
    assert_eq!(session.clock(), "11:11:11");
    Update::RefreshHeader.apply(&mut session, &r);
    assert_eq!(session.clock(), "11:11:11");
    assert_eq!(session.date(), "28/10/2026");
    assert_eq!(session.cwd(), "/p");
}

#[test]
fn refresh_with_an_impossible_date_leaves_the_date() {
    let r = Readings {
        moment: LocalMoment { year: 2023, month: 2, day: 29, hour: 7, minute: 8, second: 9 },
        path: "/p".to_string(),
    };
    let mut session = SessionState::new();
    session.set_date("01/01/2001".to_string());
    Update::RefreshDate.apply(&mut session, &r);
    assert_eq!(session.date(), "01/01/2001");
    Update::RefreshHeader.apply(&mut session, &r);
    assert_eq!(session.date(), "01/01/2001");
    assert_eq!(session.clock(), "07:08:09");
}
