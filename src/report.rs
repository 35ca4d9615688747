use vstd::prelude::*;

use crate::session::{ExitStatus, PauseConfig, RunInAltScreenBufOutcome, Session};

verus! {

/// Returned when the run succeeded but leaving raw mode or the alternate
/// screen afterwards failed.
pub const CLEANUP_FAILED_CODE: u8 = 2;

/// Returned when the child was terminated by a signal.
pub const SIGNALED_CODE: u8 = 253;

/// Returned when the command could not be run at all.
pub const RUN_FAILED_CODE: u8 = 254;

/// Returned when no command was given.
pub const NO_COMMAND_CODE: u8 = 255;

/// Something to tell the user on the error stream. The failures behind the
/// notices about a run stand in its outcome.
#[derive(Clone, Copy, Debug, PartialEq, Eq, Structural)]
pub enum Notice {
    /// Error: no command was given.
    NoCommandProvided,
    /// Warning: the child's exit code does not fit in a byte and was cut to
    /// its low byte.
    ExitCodeTruncated { code: i32 },
    /// The child was terminated by a signal.
    TerminatedBySignal,
    /// Warning: the child ran, but the pause afterwards failed.
    PauseFailed,
    /// Error: the command could not be run.
    RunFailed,
    /// Warning: leaving raw mode after the pause failed.
    ExitRawModeFailed,
    /// Warning: leaving the alternate screen failed.
    ExitAltScreenFailed,
}

/// The process return code, and what to print before returning it, in order.
#[derive(Debug)]
pub struct Report {
    pub code: u8,
    pub notices: Vec<Notice>,
}

/// The return code that passes a child's exit status on: its exit code cut to
/// the low byte, or the signal sentinel.
pub open spec fn status_code(status: ExitStatus) -> u8 {
    match status {
        ExitStatus::Code(c) => (c % 256) as u8,
        ExitStatus::Signaled => SIGNALED_CODE,
    }
}

/// What to say about a child's exit status.
pub open spec fn status_notices(status: ExitStatus) -> Seq<Notice> {
    match status {
        ExitStatus::Code(c) => if 0 <= c <= 255 {
            Seq::empty()
        } else {
            seq![Notice::ExitCodeTruncated { code: c }]
        },
        ExitStatus::Signaled => seq![Notice::TerminatedBySignal],
    }
}

/// Whether leaving raw mode or leaving the alternate screen failed.
pub open spec fn cleanup_failed(o: RunInAltScreenBufOutcome) -> bool {
    o.exit_raw_mode_after_pause_err is Err || o.exit_alt_screen_err is Err
}

/// The return code for an outcome.
pub open spec fn outcome_code(o: RunInAltScreenBufOutcome) -> u8 {
    match o.run_res {
        Ok(f) => if cleanup_failed(o) {
            CLEANUP_FAILED_CODE
        } else {
            status_code(f.exit_status)
        },
        Err(_) => RUN_FAILED_CODE,
    }
}

/// The notices for an outcome: those about the run, then one for each failed
/// clean-up step, raw mode first.
pub open spec fn outcome_notices(o: RunInAltScreenBufOutcome) -> Seq<Notice> {
    let run = match o.run_res {
        Ok(f) => status_notices(f.exit_status) + if f.pause_res is Err {
            seq![Notice::PauseFailed]
        } else {
            Seq::empty()
        },
        Err(_) => seq![Notice::RunFailed],
    };
    let raw = if o.exit_raw_mode_after_pause_err is Err {
        seq![Notice::ExitRawModeFailed]
    } else {
        Seq::empty()
    };
    let alt = if o.exit_alt_screen_err is Err {
        seq![Notice::ExitAltScreenFailed]
    } else {
        Seq::empty()
    };
    run + raw + alt
}

/// The return code that passes on a child's exit status.
pub fn status_return_code(status: ExitStatus) -> (r: u8)
    ensures
        r == status_code(status),
{
    match status {
        ExitStatus::Code(c) => if c >= 0 {
            (c % 256) as u8
        } else {
            let d: i32 = -(c + 1);
            let m: i32 = d % 256;
            assert(c as int == 256 * (-(d as int / 256) - 1) + (255 - m)) by {
                vstd::arithmetic::div_mod::lemma_fundamental_div_mod(d as int, 256);
            }
            assert((c as int) % 256 == 255 - m) by (nonlinear_arith)
                requires
                    c as int == 256 * (-(d as int / 256) - 1) + (255 - m),
                    0 <= m < 256,
            ;
            (255 - m) as u8
        },
        ExitStatus::Signaled => SIGNALED_CODE,
    }
}

/// The return code for an outcome, and what to tell the user about it.
///
/// A run that ended passes its child's exit status on, unless a clean-up step
/// failed; a run that could not be made gives its own code. Every failure in
/// the outcome is reported, none in place of another.
pub fn report(outcome: &RunInAltScreenBufOutcome) -> (r: Report)
    ensures
        r.code == outcome_code(*outcome),
        r.notices@ == outcome_notices(*outcome),
{
    let mut notices: Vec<Notice> = Vec::new();
    let cleanup_ok = outcome.exit_raw_mode_after_pause_err.is_ok()
        && outcome.exit_alt_screen_err.is_ok();
    let code: u8 = match &outcome.run_res {
        Ok(finished) => {
            match finished.exit_status {
                ExitStatus::Code(c) => if c < 0 || c > 255 {
                    notices.push(Notice::ExitCodeTruncated { code: c });
                },
                ExitStatus::Signaled => notices.push(Notice::TerminatedBySignal),
            }
            if finished.pause_res.is_err() {
                notices.push(Notice::PauseFailed);
            }
            let child = status_return_code(finished.exit_status);
            if cleanup_ok {
                child
            } else {
                CLEANUP_FAILED_CODE
            }
        },
        Err(_) => {
            notices.push(Notice::RunFailed);
            RUN_FAILED_CODE
        },
    };
    let ghost run_part = notices@;
    if outcome.exit_raw_mode_after_pause_err.is_err() {
        notices.push(Notice::ExitRawModeFailed);
    }
    let ghost raw_part = notices@;
    if outcome.exit_alt_screen_err.is_err() {
        notices.push(Notice::ExitAltScreenFailed);
    }
    proof {
        let o = *outcome;
        let raw = if o.exit_raw_mode_after_pause_err is Err {
            seq![Notice::ExitRawModeFailed]
        } else {
            Seq::empty()
        };
        let alt = if o.exit_alt_screen_err is Err {
            seq![Notice::ExitAltScreenFailed]
        } else {
            Seq::empty()
        };
        assert(raw_part =~= run_part + raw);
        assert(notices@ =~= run_part + raw + alt);
        match o.run_res {
            Ok(f) => {
                let pause = if f.pause_res is Err {
                    seq![Notice::PauseFailed]
                } else {
                    Seq::empty()
                };
                assert(run_part =~= status_notices(f.exit_status) + pause);
            },
            Err(_) => {
                assert(run_part =~= seq![Notice::RunFailed]);
            },
        }
    }
    Report { code, notices }
}

/// An exit code above 255 is returned cut to its low byte, with a warning,
/// when no clean-up step failed.
pub proof fn lemma_large_exit_code_truncated(o: RunInAltScreenBufOutcome, c: i32)
    requires
        o.run_res matches Ok(f) && f.exit_status == ExitStatus::Code(c),
        c > 255,
        !cleanup_failed(o),
    ensures
        outcome_code(o) as int == c % 256,
        outcome_notices(o).contains(Notice::ExitCodeTruncated { code: c }),
{
    let f = o.run_res->Ok_0;
    let n = outcome_notices(o);
    assert(status_notices(f.exit_status) == seq![Notice::ExitCodeTruncated { code: c }]);
    assert(n[0] == Notice::ExitCodeTruncated { code: c });
}

/// A child terminated by a signal gives the signal sentinel, whatever came of
/// the pause, when no clean-up step failed.
pub proof fn lemma_signal_gives_sentinel(o: RunInAltScreenBufOutcome)
    requires
        o.run_res matches Ok(f) && f.exit_status == ExitStatus::Signaled,
        !cleanup_failed(o),
    ensures
        outcome_code(o) == SIGNALED_CODE,
{
}

/// The first decision of an invocation: without a command nothing is done,
/// not even a change of the terminal's mode, and the invocation ends with its
/// own code; with one, a new session starts.
pub fn launch(command_given: bool, pause: Option<PauseConfig>) -> (r: Result<Session, Report>)
    ensures
        command_given ==> r == Ok::<Session, Report>(Session::EnteringAltScreen { pause }),
        !command_given ==> (r matches Err(rep) && rep.code == NO_COMMAND_CODE
            && rep.notices@ == seq![Notice::NoCommandProvided]),
{
    if command_given {
        Ok(Session::new(pause))
    } else {
        let mut notices: Vec<Notice> = Vec::new();
        notices.push(Notice::NoCommandProvided);
        proof {
            assert(notices@ =~= seq![Notice::NoCommandProvided]);
        }
        Err(Report { code: NO_COMMAND_CODE, notices })
    }
}

} // verus!
