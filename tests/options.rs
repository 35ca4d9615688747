use dab::{
    resolve_pause, ExitAltScreenBufError, ExitRawModeAfterPauseError, PauseConfig, PauseError,
    PauseOption, RunError, RunInAltScreenBufError,
};

fn io_err(msg: &str) -> std::io::Error {
    std::io::Error::new(std::io::ErrorKind::Other, msg.to_string())
}

#[test]
fn parses_each_option() {
    assert_eq!(PauseOption::from_str("no").unwrap(), PauseOption::No);
    assert_eq!(PauseOption::from_str("silent").unwrap(), PauseOption::Silent);
    assert_eq!(PauseOption::from_str("print").unwrap(), PauseOption::Print);
}

#[test]
fn rejects_unknown_option() {
    for s in ["", "yes", "No", "prin", "printer", " no"] {
        let e = PauseOption::from_str(s).unwrap_err();
        assert_eq!(e.value, s);
    }
}

#[test]
fn option_selects_config() {
    assert_eq!(PauseOption::No.into_pause_config(), None);
    assert_eq!(PauseOption::Silent.into_pause_config(), Some(PauseConfig { silent: true }));
    assert_eq!(PauseOption::Print.into_pause_config(), Some(PauseConfig { silent: false }));
}

#[test]
fn absent_flag_and_bare_flag_both_print() {
    assert_eq!(resolve_pause(None), Some(PauseConfig { silent: false }));
    assert_eq!(resolve_pause(Some(None)), Some(PauseConfig { silent: false }));
    assert_eq!(resolve_pause(Some(Some(PauseOption::No))), None);
    assert_eq!(resolve_pause(Some(Some(PauseOption::Silent))), Some(PauseConfig { silent: true }));
}

#[test]
fn error_descriptions() {
    let e = RunInAltScreenBufError::EnterAltScreenBuf { source: io_err("a") };
    assert_eq!(e.description(), "failed to enter alternate screen");
    assert_eq!(e.io_error().to_string(), "a");
    let e = RunInAltScreenBufError::Run { source: RunError::Wait { source: io_err("b") } };
    assert_eq!(e.description(), "failed to run command");
    assert_eq!(e.io_error().to_string(), "b");
    assert_eq!(RunError::Spawn { source: io_err("c") }.description(), "failed to spawn command");
    assert_eq!(
        RunError::Wait { source: io_err("c") }.description(),
        "failed to get command's exit status"
    );
    assert_eq!(
        PauseError::EnterRawMode { source: io_err("d") }.description(),
        "failed to enter raw mode in post-command pause flow"
    );
    let e = PauseError::GetInputEvent { source: io_err("d") };
    assert_eq!(e.description(), "failed to read next input event in post-command pause flow");
    assert_eq!(e.io_error().to_string(), "d");
    assert_eq!(
        ExitRawModeAfterPauseError { source: io_err("e") }.description(),
        "failed to exit raw mode in post-command pause flow"
    );
    assert_eq!(
        ExitAltScreenBufError { source: io_err("f") }.description(),
        "failed to exit alternate screen"
    );
}
