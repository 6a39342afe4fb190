use uish::session::{ReturnStatus, SessionState, WELCOME};

#[test]
fn fresh_session() {
    let s = SessionState::new();
    assert_eq!(s.cwd(), "");
    assert_eq!(s.clock(), "00:00:00");
    assert_eq!(s.date(), "00/00/0000");
    assert_eq!(s.prompt(), "");
    assert!(s.log().is_empty());
    assert_eq!(s.status_line(), WELCOME);
    assert_eq!(s.status_line(), "Welcome to :uish: - F3 to quit");
    assert_eq!(s.status(), ReturnStatus::Idle);
    assert_eq!(s.log_text(), "");
}

#[test]
fn log_is_append_only_and_ordered() {
    let mut s = SessionState::new();
    s.append_line("first".to_string());
    s.append_line("".to_string());
    s.append_line("third".to_string());
    assert_eq!(s.log(), &vec!["first".to_string(), "".to_string(), "third".to_string()]);
    assert_eq!(s.log_text(), "first\n\nthird\n");
    s.clear_log();
    assert!(s.log().is_empty());
    assert_eq!(s.log_text(), "");
}

#[test]
fn log_text_keeps_every_character() {
    let mut s = SessionState::new();
    s.append_line("tab\there".to_string());
    s.append_line("é ⌛".to_string());
    assert_eq!(s.log_text(), "tab\there\né ⌛\n");
}

#[test]
fn setters_touch_one_region() {
    let mut s = SessionState::new();
    s.set_cwd("/home/u".to_string());
    s.set_clock("12:34:56".to_string());
    s.set_date("01/02/2023".to_string());
    s.set_prompt("ls".to_string());
    s.set_status_line("pwd".to_string());
    s.set_status(ReturnStatus::Running);
    assert_eq!(s.cwd(), "/home/u");
    assert_eq!(s.clock(), "12:34:56");
    assert_eq!(s.date(), "01/02/2023");
    assert_eq!(s.prompt(), "ls");
    assert_eq!(s.status_line(), "pwd");
    assert_eq!(s.status(), ReturnStatus::Running);
    assert!(s.log().is_empty());
    s.clear_prompt();
    assert_eq!(s.prompt(), "");
    assert_eq!(s.status_line(), "pwd");
    assert_eq!(s.cwd(), "/home/u");
}
