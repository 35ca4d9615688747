use dab::{
    launch, report, resolve_pause, Action, ExitStatus, InputEvent, Notice, PauseConfig,
    PauseError, PauseOption, Reply, RunError, RunInAltScreenBufError, RunInAltScreenBufOutcome,
    Session, NO_COMMAND_CODE,
};

fn io_err(msg: &str) -> std::io::Error {
    std::io::Error::new(std::io::ErrorKind::Other, msg.to_string())
}

/// Hands the replies to the session in turn, recording each requested action.
fn drive(mut session: Session, replies: Vec<Reply>) -> (Vec<Action>, Session) {
    let mut actions = Vec::new();
    for reply in replies {
        actions.push(session.action());
        session = session.step(reply);
    }
    (actions, session)
}

fn finished(session: Session) -> RunInAltScreenBufOutcome {
    assert_eq!(session.action(), Action::Finish);
    match session.finish() {
        Ok(outcome) => outcome,
        Err(s) => panic!("session not finished: {:?}", s),
    }
}

#[test]
fn true_without_pause_returns_zero() {
    let session = launch(true, resolve_pause(Some(Some(PauseOption::No)))).unwrap();
    let (actions, end) = drive(
        session,
        vec![Reply::Done, Reply::Exited(ExitStatus::Code(0)), Reply::Done],
    );
    assert_eq!(
        actions,
        vec![Action::EnterAltScreen, Action::RunChild, Action::LeaveAltScreen]
    );
    let rep = report(&finished(end));
    assert_eq!(rep.code, 0);
    assert!(rep.notices.is_empty());
}

#[test]
fn false_with_silent_pause_returns_one() {
    let pause = resolve_pause(Some(Some(PauseOption::from_str("silent").unwrap())));
    assert_eq!(pause, Some(PauseConfig { silent: true }));
    let session = launch(true, pause).unwrap();
    let (actions, end) = drive(
        session,
        vec![
            Reply::Done,
            Reply::Exited(ExitStatus::Code(1)),
            Reply::Done,
            Reply::Event(InputEvent::Key),
            Reply::Done,
            Reply::Done,
        ],
    );
    assert_eq!(
        actions,
        vec![
            Action::EnterAltScreen,
            Action::RunChild,
            Action::EnterRawMode,
            Action::ReadEvent,
            Action::LeaveRawMode,
            Action::LeaveAltScreen,
        ]
    );
    assert!(!actions.contains(&Action::PrintPrompt));
    assert_eq!(actions.iter().filter(|a| **a == Action::EnterRawMode).count(), 1);
    assert_eq!(actions.iter().filter(|a| **a == Action::LeaveRawMode).count(), 1);
    let outcome = finished(end);
    let rep = report(&outcome);
    assert_eq!(rep.code, 1);
    assert!(rep.notices.is_empty());
}

#[test]
fn no_command_returns_255_without_terminal_change() {
    match launch(false, Some(PauseConfig { silent: false })) {
        Ok(_) => panic!("a session started without a command"),
        Err(rep) => {
            assert_eq!(rep.code, 255);
            assert_eq!(rep.code, NO_COMMAND_CODE);
            assert_eq!(rep.notices, vec![Notice::NoCommandProvided]);
        }
    }
}

#[test]
fn print_pause_prints_prompt_first() {
    let session = Session::new(Some(PauseConfig { silent: false }));
    let (actions, end) = drive(
        session,
        vec![
            Reply::Done,
            Reply::Exited(ExitStatus::Code(3)),
            Reply::Done,
            Reply::Done,
            Reply::Event(InputEvent::Key),
            Reply::Done,
            Reply::Done,
        ],
    );
    assert_eq!(
        actions,
        vec![
            Action::EnterAltScreen,
            Action::RunChild,
            Action::PrintPrompt,
            Action::EnterRawMode,
            Action::ReadEvent,
            Action::LeaveRawMode,
            Action::LeaveAltScreen,
        ]
    );
    assert_eq!(report(&finished(end)).code, 3);
}

#[test]
fn enter_alt_screen_failure_never_runs_child() {
    let session = Session::new(None);
    let (actions, end) = drive(
        session,
        vec![Reply::Failed(io_err("no tty")), Reply::Done, Reply::Exited(ExitStatus::Code(0))],
    );
    assert_eq!(actions, vec![Action::EnterAltScreen, Action::Finish, Action::Finish]);
    let outcome = finished(end);
    assert!(matches!(
        outcome.run_res,
        Err(RunInAltScreenBufError::EnterAltScreenBuf { .. })
    ));
    assert!(outcome.exit_raw_mode_after_pause_err.is_ok());
    assert!(outcome.exit_alt_screen_err.is_ok());
    let rep = report(&outcome);
    assert_eq!(rep.code, 254);
    assert_eq!(rep.notices, vec![Notice::RunFailed]);
}

#[test]
fn spawn_failure_still_leaves_alt_screen_once() {
    let session = Session::new(Some(PauseConfig { silent: false }));
    let (actions, end) = drive(
        session,
        vec![
            Reply::Done,
            Reply::RunFailed(RunError::Spawn { source: io_err("not found") }),
            Reply::Failed(io_err("gone")),
        ],
    );
    assert_eq!(
        actions,
        vec![Action::EnterAltScreen, Action::RunChild, Action::LeaveAltScreen]
    );
    let outcome = finished(end);
    match &outcome.run_res {
        Err(RunInAltScreenBufError::Run { source }) => {
            assert!(matches!(source, RunError::Spawn { .. }));
            assert_eq!(source.io_error().to_string(), "not found");
        }
        other => panic!("unexpected run result: {:?}", other),
    }
    let alt = outcome.exit_alt_screen_err.as_ref().unwrap_err();
    assert_eq!(alt.io_error().to_string(), "gone");
    let rep = report(&outcome);
    assert_eq!(rep.code, 254);
    assert_eq!(rep.notices, vec![Notice::RunFailed, Notice::ExitAltScreenFailed]);
}

#[test]
fn non_key_events_do_not_end_pause() {
    let session = Session::new(Some(PauseConfig { silent: true }));
    let (actions, end) = drive(
        session,
        vec![
            Reply::Done,
            Reply::Exited(ExitStatus::Code(0)),
            Reply::Done,
            Reply::Event(InputEvent::Resize),
            Reply::Event(InputEvent::Resize),
            Reply::Event(InputEvent::Key),
        ],
    );
    assert_eq!(
        actions[3..].to_vec(),
        vec![Action::ReadEvent, Action::ReadEvent, Action::ReadEvent]
    );
    assert_eq!(end.action(), Action::LeaveRawMode);
    assert!(InputEvent::Key.is_key());
    assert!(!InputEvent::Mouse.is_key());
    assert!(!InputEvent::Paste.is_key());
}

#[test]
fn no_pause_never_touches_raw_mode() {
    let session = launch(true, PauseOption::No.into_pause_config()).unwrap();
    let (actions, end) = drive(
        session,
        vec![Reply::Done, Reply::Exited(ExitStatus::Code(7)), Reply::Done],
    );
    assert!(!actions.contains(&Action::EnterRawMode));
    assert!(!actions.contains(&Action::LeaveRawMode));
    let outcome = finished(end);
    assert!(outcome.exit_raw_mode_after_pause_err.is_ok());
    assert_eq!(report(&outcome).code, 7);
}

#[test]
fn read_failure_still_leaves_raw_mode() {
    let session = Session::new(Some(PauseConfig { silent: true }));
    let (actions, end) = drive(
        session,
        vec![
            Reply::Done,
            Reply::Exited(ExitStatus::Code(5)),
            Reply::Done,
            Reply::Failed(io_err("read")),
            Reply::Done,
            Reply::Done,
        ],
    );
    assert_eq!(actions[4], Action::LeaveRawMode);
    assert_eq!(actions[5], Action::LeaveAltScreen);
    let outcome = finished(end);
    match &outcome.run_res {
        Ok(f) => {
            assert_eq!(f.exit_status, ExitStatus::Code(5));
            assert!(matches!(f.pause_res, Err(PauseError::GetInputEvent { .. })));
        }
        Err(e) => panic!("unexpected run failure: {:?}", e),
    }
    let rep = report(&outcome);
    assert_eq!(rep.code, 5);
    assert_eq!(rep.notices, vec![Notice::PauseFailed]);
}

#[test]
fn raw_mode_entry_failure_skips_leaving_raw_mode() {
    let session = Session::new(Some(PauseConfig { silent: true }));
    let (actions, end) = drive(
        session,
        vec![
            Reply::Done,
            Reply::Exited(ExitStatus::Code(0)),
            Reply::Failed(io_err("raw")),
            Reply::Done,
        ],
    );
    assert_eq!(actions[3], Action::LeaveAltScreen);
    let outcome = finished(end);
    assert!(matches!(
        outcome.run_res,
        Ok(dab::FinishedRunOutcome { pause_res: Err(PauseError::EnterRawMode { .. }), .. })
    ));
    assert_eq!(report(&outcome).code, 0);
}

#[test]
fn both_cleanup_failures_are_reported() {
    let session = Session::new(Some(PauseConfig { silent: true }));
    let (_, end) = drive(
        session,
        vec![
            Reply::Done,
            Reply::Exited(ExitStatus::Code(0)),
            Reply::Done,
            Reply::Event(InputEvent::Key),
            Reply::Failed(io_err("raw")),
            Reply::Failed(io_err("alt")),
        ],
    );
    let outcome = finished(end);
    let raw = outcome.exit_raw_mode_after_pause_err.as_ref().unwrap_err();
    assert_eq!(raw.io_error().to_string(), "raw");
    let rep = report(&outcome);
    assert_eq!(rep.code, 2);
    assert_eq!(
        rep.notices,
        vec![Notice::ExitRawModeFailed, Notice::ExitAltScreenFailed]
    );
}

#[test]
fn mismatched_reply_is_ignored() {
    let session = Session::new(None);
    let session = session.step(Reply::Event(InputEvent::Key));
    assert_eq!(session.action(), Action::EnterAltScreen);
    let session = session.step(Reply::Done);
    let session = session.step(Reply::Done);
    assert_eq!(session.action(), Action::RunChild);
    assert!(session.finish().is_err());
}
