use dab::{
    report, status_return_code, ExitAltScreenBufError, ExitStatus, FinishedRunOutcome, Notice,
    PauseError, RunInAltScreenBufOutcome, CLEANUP_FAILED_CODE, RUN_FAILED_CODE, SIGNALED_CODE,
};

fn io_err(msg: &str) -> std::io::Error {
    std::io::Error::new(std::io::ErrorKind::Other, msg.to_string())
}

fn ran(exit_status: ExitStatus) -> RunInAltScreenBufOutcome {
    RunInAltScreenBufOutcome {
        run_res: Ok(FinishedRunOutcome { exit_status, pause_res: Ok(()) }),
        exit_raw_mode_after_pause_err: Ok(()),
        exit_alt_screen_err: Ok(()),
    }
}

#[test]
fn byte_sized_codes_pass_through() {
    for c in [0, 1, 42, 254, 255] {
        let rep = report(&ran(ExitStatus::Code(c)));
        assert_eq!(rep.code as i32, c);
        assert!(rep.notices.is_empty());
    }
}

#[test]
fn large_code_is_truncated_with_warning() {
    let rep = report(&ran(ExitStatus::Code(300)));
    assert_eq!(rep.code, 44);
    assert_eq!(rep.notices, vec![Notice::ExitCodeTruncated { code: 300 }]);
    assert_eq!(report(&ran(ExitStatus::Code(256))).code, 0);
    assert_eq!(report(&ran(ExitStatus::Code(i32::MAX))).code, 255);
}

#[test]
fn negative_code_takes_low_byte() {
    assert_eq!(status_return_code(ExitStatus::Code(-1)), 255);
    assert_eq!(status_return_code(ExitStatus::Code(-256)), 0);
    assert_eq!(status_return_code(ExitStatus::Code(-255)), 1);
    assert_eq!(status_return_code(ExitStatus::Code(i32::MIN)), 0);
    let rep = report(&ran(ExitStatus::Code(-1)));
    assert_eq!(rep.notices, vec![Notice::ExitCodeTruncated { code: -1 }]);
}

#[test]
fn signal_gives_sentinel() {
    let rep = report(&ran(ExitStatus::Signaled));
    assert_eq!(rep.code, 253);
    assert_eq!(rep.code, SIGNALED_CODE);
    assert_eq!(rep.notices, vec![Notice::TerminatedBySignal]);
}

#[test]
fn pause_failure_keeps_child_code() {
    let outcome = RunInAltScreenBufOutcome {
        run_res: Ok(FinishedRunOutcome {
            exit_status: ExitStatus::Code(9),
            pause_res: Err(PauseError::EnterRawMode { source: io_err("raw") }),
        }),
        exit_raw_mode_after_pause_err: Ok(()),
        exit_alt_screen_err: Ok(()),
    };
    let rep = report(&outcome);
    assert_eq!(rep.code, 9);
    assert_eq!(rep.notices, vec![Notice::PauseFailed]);
}

#[test]
fn cleanup_failure_after_success_gives_two() {
    let outcome = RunInAltScreenBufOutcome {
        run_res: Ok(FinishedRunOutcome { exit_status: ExitStatus::Code(0), pause_res: Ok(()) }),
        exit_raw_mode_after_pause_err: Ok(()),
        exit_alt_screen_err: Err(ExitAltScreenBufError { source: io_err("alt") }),
    };
    let rep = report(&outcome);
    assert_eq!(rep.code, 2);
    assert_eq!(rep.code, CLEANUP_FAILED_CODE);
    assert_eq!(rep.notices, vec![Notice::ExitAltScreenFailed]);
    assert_ne!(RUN_FAILED_CODE, CLEANUP_FAILED_CODE);
}
