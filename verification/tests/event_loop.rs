use uish::channel::{Update, UpdateChannel};
use uish::clock::{LocalMoment, Readings};
use uish::event_loop::{EventLoop, Frame, InputEvent, FAREWELL, SCROLL_MARGIN};
use uish::executor::{Directive, ProcessEvent};
use uish::session::{ReturnStatus, WELCOME};

fn readings() -> Readings {
    Readings {
        moment: LocalMoment { year: 2023, month: 12, day: 31, hour: 23, minute: 59, second: 59 },
        path: "/root".to_string(),
    }
}

fn type_line(lp: &mut EventLoop, channel: &mut UpdateChannel, line: &str) {
    assert_eq!(lp.dispatch(channel, InputEvent::Edit(line.to_string())), Directive::Done);
}

#[test]
fn loop_constants() {
    assert_eq!(SCROLL_MARGIN, 2);
    assert_eq!(FAREWELL, ":uish: © JPL 2023");
}

#[test]
fn fresh_loop_runs_at_rest() {
    let lp = EventLoop::new();
    assert!(lp.is_running());
    assert!(!lp.is_busy());
    assert_eq!(lp.session().status_line(), WELCOME);
    assert_eq!(lp.session().status(), ReturnStatus::Idle);
    assert!(lp.session().log().is_empty());
}

#[test]
fn typing_fills_the_prompt() {
    let mut lp = EventLoop::new();
    let mut channel = UpdateChannel::new();
    type_line(&mut lp, &mut channel, "e");
    type_line(&mut lp, &mut channel, "ec");
    assert_eq!(lp.session().prompt(), "ec");
    assert_eq!(lp.dispatch(&mut channel, InputEvent::Resize), Directive::Done);
    assert_eq!(lp.session().prompt(), "ec");
    assert_eq!(
        lp.finish_iteration(&mut channel, &readings()),
        Some(Frame { scroll_to_end: false })
    );
}

#[test]
fn enter_on_echo_hi() {
    let mut lp = EventLoop::new();
    let mut channel = UpdateChannel::new();
    type_line(&mut lp, &mut channel, "echo hi");
    assert_eq!(
        lp.dispatch(&mut channel, InputEvent::Enter),
        Directive::Spawn("echo hi".to_string())
    );
    assert!(lp.is_busy());
    assert_eq!(lp.session().status(), ReturnStatus::Running);
    assert_eq!(lp.report(ProcessEvent::Spawned), Directive::ReadStdout);
    assert_eq!(lp.report(ProcessEvent::Line("hi".to_string())), Directive::ReadStdout);
    assert_eq!(lp.report(ProcessEvent::EndOfStream), Directive::ReadStderr);
    assert_eq!(lp.report(ProcessEvent::EndOfStream), Directive::Done);
    assert!(!lp.is_busy());
    assert_eq!(lp.session().log(), &vec!["hi".to_string(), "".to_string()]);
    assert_eq!(lp.session().status_line(), "echo hi");
    assert_eq!(lp.session().status(), ReturnStatus::Success);
    assert_eq!(lp.session().prompt(), "");
    assert_eq!(
        lp.finish_iteration(&mut channel, &readings()),
        Some(Frame { scroll_to_end: true })
    );
    assert_eq!(
        lp.finish_iteration(&mut channel, &readings()),
        Some(Frame { scroll_to_end: false })
    );
}

#[test]
fn enter_on_an_empty_prompt() {
    let mut lp = EventLoop::new();
    let mut channel = UpdateChannel::new();
    type_line(&mut lp, &mut channel, "echo hi");
    lp.dispatch(&mut channel, InputEvent::Enter);
    lp.report(ProcessEvent::Spawned);
    lp.report(ProcessEvent::Line("hi".to_string()));
    lp.report(ProcessEvent::EndOfStream);
    lp.report(ProcessEvent::EndOfStream);
    lp.finish_iteration(&mut channel, &readings());
    assert_eq!(lp.session().status_line(), "echo hi");

    assert_eq!(lp.dispatch(&mut channel, InputEvent::Enter), Directive::Done);
    assert_eq!(lp.session().status_line(), "Welcome to :uish: - F3 to quit");
    assert_eq!(lp.session().log(), &vec!["hi".to_string(), "".to_string()]);
    assert_eq!(lp.session().status(), ReturnStatus::Success);
    assert!(lp.is_running());
    assert_eq!(
        lp.finish_iteration(&mut channel, &readings()),
        Some(Frame { scroll_to_end: true })
    );
}

#[test]
fn quit_and_exit_end_the_loop() {
    for word in ["quit", "exit"] {
        let mut lp = EventLoop::new();
        let mut channel = UpdateChannel::new();
        type_line(&mut lp, &mut channel, word);
        assert_eq!(lp.dispatch(&mut channel, InputEvent::Enter), Directive::Terminate);
        assert!(!lp.is_running());
        assert!(channel.is_closed());
        assert_eq!(lp.session().status_line(), word);
    }
}

#[test]
fn no_input_is_processed_after_quit() {
    let mut lp = EventLoop::new();
    let mut channel = UpdateChannel::new();
    channel.post(Update::AppendLog("queued".to_string())).unwrap();
    type_line(&mut lp, &mut channel, "quit");
    lp.dispatch(&mut channel, InputEvent::Enter);

    assert_eq!(
        lp.dispatch(&mut channel, InputEvent::Edit("echo hi".to_string())),
        Directive::Terminate
    );
    assert_eq!(lp.session().prompt(), "");
    assert_eq!(lp.dispatch(&mut channel, InputEvent::Enter), Directive::Terminate);
    assert_eq!(lp.dispatch(&mut channel, InputEvent::Resize), Directive::Terminate);
    assert_eq!(lp.dispatch(&mut channel, InputEvent::QuitKey), Directive::Terminate);
    assert_eq!(lp.report(ProcessEvent::Line("x".to_string())), Directive::Terminate);
    assert_eq!(lp.finish_iteration(&mut channel, &readings()), None);
    assert!(lp.session().log().is_empty());
    assert_eq!(lp.session().status_line(), "quit");
    assert_eq!(lp.session().status(), ReturnStatus::Idle);
    assert_eq!(channel.pending_count(), 1);
    assert!(!lp.is_running());
    assert!(!lp.is_busy());
}

#[test]
fn quit_key_ends_the_loop_whatever_the_prompt_holds() {
    let mut lp = EventLoop::new();
    let mut channel = UpdateChannel::new();
    type_line(&mut lp, &mut channel, "rm -rf /tmp/x");
    assert_eq!(lp.dispatch(&mut channel, InputEvent::QuitKey), Directive::Terminate);
    assert!(!lp.is_running());
    assert!(channel.is_closed());
    assert_eq!(lp.session().prompt(), "rm -rf /tmp/x");
    assert_eq!(lp.session().status_line(), WELCOME);
    assert!(lp.session().log().is_empty());
}

#[test]
fn farewell_is_handed_out_once() {
    let mut lp = EventLoop::new();
    let mut channel = UpdateChannel::new();
    assert_eq!(lp.take_farewell(), None);
    lp.dispatch(&mut channel, InputEvent::QuitKey);
    assert_eq!(lp.take_farewell(), Some(":uish: © JPL 2023"));
    assert_eq!(lp.take_farewell(), None);
    assert_eq!(lp.take_farewell(), None);
}

#[test]
fn input_is_rejected_while_a_command_runs() {
    let mut lp = EventLoop::new();
    let mut channel = UpdateChannel::new();
    type_line(&mut lp, &mut channel, "sleep 10");
    lp.dispatch(&mut channel, InputEvent::Enter);
    lp.report(ProcessEvent::Spawned);
    channel.post(Update::RefreshHeader).unwrap();

    assert_eq!(
        lp.dispatch(&mut channel, InputEvent::Edit("x".to_string())),
        Directive::Rejected
    );
    assert_eq!(lp.dispatch(&mut channel, InputEvent::Enter), Directive::Rejected);
    assert_eq!(lp.dispatch(&mut channel, InputEvent::QuitKey), Directive::Rejected);
    assert!(lp.is_running());
    assert!(!channel.is_closed());
    assert_eq!(lp.session().prompt(), "sleep 10");
    assert_eq!(lp.finish_iteration(&mut channel, &readings()), None);
    assert_eq!(channel.pending_count(), 1);
    assert_eq!(lp.session().clock(), "00:00:00");

    lp.report(ProcessEvent::EndOfStream);
    assert_eq!(lp.report(ProcessEvent::EndOfStream), Directive::Done);
    assert_eq!(
        lp.finish_iteration(&mut channel, &readings()),
        Some(Frame { scroll_to_end: true })
    );
    assert_eq!(channel.pending_count(), 0);
    assert_eq!(lp.session().clock(), "23:59:59");
    assert_eq!(lp.session().date(), "31/12/2023");
    assert_eq!(lp.session().cwd(), "/root");
}

#[test]
fn failed_spawn_does_not_end_the_loop() {
    let mut lp = EventLoop::new();
    let mut channel = UpdateChannel::new();
    type_line(&mut lp, &mut channel, "nonesuch");
    assert_eq!(
        lp.dispatch(&mut channel, InputEvent::Enter),
        Directive::Spawn("nonesuch".to_string())
    );
    assert_eq!(lp.report(ProcessEvent::SpawnFailed), Directive::Done);
    assert!(lp.is_running());
    assert!(!channel.is_closed());
    assert_eq!(lp.session().log(), &vec!["Error".to_string()]);
    assert_eq!(lp.session().status(), ReturnStatus::Error);
    assert_eq!(
        lp.finish_iteration(&mut channel, &readings()),
        Some(Frame { scroll_to_end: true })
    );
    type_line(&mut lp, &mut channel, "cls");
    assert_eq!(lp.dispatch(&mut channel, InputEvent::Enter), Directive::Done);
    assert!(lp.session().log().is_empty());
    assert_eq!(lp.session().status(), ReturnStatus::Idle);
}

#[test]
fn iteration_drains_the_channel_in_order() {
    let mut lp = EventLoop::new();
    let mut channel = UpdateChannel::new();
    channel.post(Update::AppendLog("a".to_string())).unwrap();
    channel.post(Update::RefreshHeader).unwrap();
    channel.post(Update::AppendLog("b".to_string())).unwrap();
    channel.post(Update::SetStatus(ReturnStatus::Success)).unwrap();
    lp.dispatch(&mut channel, InputEvent::Resize);
    assert_eq!(
        lp.finish_iteration(&mut channel, &readings()),
        Some(Frame { scroll_to_end: false })
    );
    assert_eq!(lp.session().log(), &vec!["a".to_string(), "b".to_string()]);
    assert_eq!(lp.session().status(), ReturnStatus::Success);
    assert_eq!(lp.session().clock(), "23:59:59");
    assert_eq!(channel.pending_count(), 0);
}
