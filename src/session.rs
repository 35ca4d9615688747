use vstd::prelude::*;

use crate::error::{
    ExitAltScreenBufError, ExitRawModeAfterPauseError, PauseError, RunError, RunInAltScreenBufError,
};

verus! {

/// How the pause after the command behaves; no configuration means no pause.
#[derive(Clone, Copy, Debug, Default, PartialEq, Eq, Structural)]
pub struct PauseConfig {
    /// Skip the prompt and wait for the keypress without a word.
    pub silent: bool,
}

/// How the child process ended.
#[derive(Clone, Copy, Debug, PartialEq, Eq, Structural)]
pub enum ExitStatus {
    /// It exited with this code.
    Code(i32),
    /// It was terminated by a signal and has no exit code.
    Signaled,
}

/// The kind of an input event read from the terminal.
#[derive(Clone, Copy, Debug, PartialEq, Eq, Structural)]
pub enum InputEvent {
    Key,
    Mouse,
    Resize,
    FocusGained,
    FocusLost,
    Paste,
}

impl InputEvent {
    /// Only a key event ends the pause.
    pub fn is_key(&self) -> (r: bool)
        ensures
            r == (*self is Key),
    {
        matches!(self, InputEvent::Key)
    }
}

/// The operation that a session asks its driver to perform next.
#[derive(Clone, Copy, Debug, PartialEq, Eq, Structural)]
pub enum Action {
    /// Switch the terminal to the alternate screen buffer.
    EnterAltScreen,
    /// Spawn the command with the terminal as its standard streams, and wait
    /// for it to exit.
    RunChild,
    /// Print the pause prompt.
    PrintPrompt,
    /// Switch the terminal input to raw mode.
    EnterRawMode,
    /// Block until the terminal delivers one input event.
    ReadEvent,
    /// Switch the terminal input back from raw mode.
    LeaveRawMode,
    /// Switch the terminal back to the normal screen.
    LeaveAltScreen,
    /// Nothing is left to do; the outcome is ready.
    Finish,
}

/// What the driver observed when it performed the requested action.
#[derive(Debug)]
pub enum Reply {
    /// The operation succeeded.
    Done,
    /// A terminal operation failed.
    Failed(std::io::Error),
    /// The child could not be spawned or waited for.
    RunFailed(RunError),
    /// The child ran to completion.
    Exited(ExitStatus),
    /// One input event was read.
    Event(InputEvent),
}

/// A command that ran to completion.
#[derive(Debug)]
pub struct FinishedRunOutcome {
    pub exit_status: ExitStatus,
    /// How the pause went; `Ok` also when no pause was configured.
    pub pause_res: Result<(), PauseError>,
}

/// Everything one run reports: the run itself and each clean-up step, in
/// slots of their own, so that no failure hides another.
#[derive(Debug)]
pub struct RunInAltScreenBufOutcome {
    /// Whether the command ran; if not, what prevented it.
    pub run_res: Result<FinishedRunOutcome, RunInAltScreenBufError>,
    /// Leaving raw mode after the pause; `Ok` where raw mode was never entered.
    pub exit_raw_mode_after_pause_err: Result<(), ExitRawModeAfterPauseError>,
    /// Leaving the alternate screen; `Ok` where it was never entered.
    pub exit_alt_screen_err: Result<(), ExitAltScreenBufError>,
}

/// One run in the alternate screen, as a state machine. Each state names the
/// operation that is pending and holds what has been learnt so far.
///
/// The terminal goes normal screen, alternate screen, raw input mode (only
/// for the pause), back to the alternate screen, back to the normal screen.
/// Raw mode, once entered, is always left, and the alternate screen, once
/// entered, is always left, whatever failed in between.
#[derive(Debug)]
pub enum Session {
    EnteringAltScreen { pause: Option<PauseConfig> },
    RunningChild { pause: Option<PauseConfig> },
    PrintingPrompt { exit_status: ExitStatus },
    EnteringRawMode { exit_status: ExitStatus },
    ReadingEvents { exit_status: ExitStatus },
    LeavingRawMode { exit_status: ExitStatus, pause_res: Result<(), PauseError> },
    LeavingAltScreen {
        run_res: Result<FinishedRunOutcome, RunInAltScreenBufError>,
        exit_raw_mode_after_pause_err: Result<(), ExitRawModeAfterPauseError>,
    },
    Finished { outcome: RunInAltScreenBufOutcome },
}

/// The state that follows a finished child, by the pause configuration.
pub open spec fn after_exit(pause: Option<PauseConfig>, exit_status: ExitStatus) -> Session {
    match pause {
        None => Session::LeavingAltScreen {
            run_res: Ok(FinishedRunOutcome { exit_status, pause_res: Ok(()) }),
            exit_raw_mode_after_pause_err: Ok(()),
        },
        Some(cfg) => if cfg.silent {
            Session::EnteringRawMode { exit_status }
        } else {
            Session::PrintingPrompt { exit_status }
        },
    }
}

impl Session {
    /// The operation that this state waits for.
    pub open spec fn pending(self) -> Action {
        match self {
            Session::EnteringAltScreen { .. } => Action::EnterAltScreen,
            Session::RunningChild { .. } => Action::RunChild,
            Session::PrintingPrompt { .. } => Action::PrintPrompt,
            Session::EnteringRawMode { .. } => Action::EnterRawMode,
            Session::ReadingEvents { .. } => Action::ReadEvent,
            Session::LeavingRawMode { .. } => Action::LeaveRawMode,
            Session::LeavingAltScreen { .. } => Action::LeaveAltScreen,
            Session::Finished { .. } => Action::Finish,
        }
    }

    /// Whether `reply` answers the pending operation. A reply that does not
    /// leaves the state as it is.
    pub open spec fn accepts(self, reply: Reply) -> bool {
        match self {
            Session::EnteringAltScreen { .. } | Session::EnteringRawMode { .. }
            | Session::LeavingRawMode { .. } | Session::LeavingAltScreen { .. } =>
                reply is Done || reply is Failed,
            Session::RunningChild { .. } => reply is RunFailed || reply is Exited,
            Session::PrintingPrompt { .. } => reply is Done,
            Session::ReadingEvents { .. } => reply is Event || reply is Failed,
            Session::Finished { .. } => false,
        }
    }

    /// The state after `reply`.
    pub open spec fn next(self, reply: Reply) -> Session {
        if !self.accepts(reply) {
            self
        } else {
            match self {
                Session::EnteringAltScreen { pause } => match reply {
                    Reply::Failed(source) => Session::Finished {
                        outcome: RunInAltScreenBufOutcome {
                            run_res: Err(RunInAltScreenBufError::EnterAltScreenBuf { source }),
                            exit_raw_mode_after_pause_err: Ok(()),
                            exit_alt_screen_err: Ok(()),
                        },
                    },
                    _ => Session::RunningChild { pause },
                },
                Session::RunningChild { pause } => match reply {
                    Reply::RunFailed(source) => Session::LeavingAltScreen {
                        run_res: Err(RunInAltScreenBufError::Run { source }),
                        exit_raw_mode_after_pause_err: Ok(()),
                    },
                    Reply::Exited(exit_status) => after_exit(pause, exit_status),
                    _ => self,
                },
                Session::PrintingPrompt { exit_status } => Session::EnteringRawMode { exit_status },
                Session::EnteringRawMode { exit_status } => match reply {
                    Reply::Failed(source) => Session::LeavingAltScreen {
                        run_res: Ok(FinishedRunOutcome {
                            exit_status,
                            pause_res: Err(PauseError::EnterRawMode { source }),
                        }),
                        exit_raw_mode_after_pause_err: Ok(()),
                    },
                    _ => Session::ReadingEvents { exit_status },
                },
                Session::ReadingEvents { exit_status } => match reply {
                    Reply::Failed(source) => Session::LeavingRawMode {
                        exit_status,
                        pause_res: Err(PauseError::GetInputEvent { source }),
                    },
                    Reply::Event(ev) => if ev is Key {
                        Session::LeavingRawMode { exit_status, pause_res: Ok(()) }
                    } else {
                        self
                    },
                    _ => self,
                },
                Session::LeavingRawMode { exit_status, pause_res } => Session::LeavingAltScreen {
                    run_res: Ok(FinishedRunOutcome { exit_status, pause_res }),
                    exit_raw_mode_after_pause_err: match reply {
                        Reply::Failed(source) => Err(ExitRawModeAfterPauseError { source }),
                        _ => Ok(()),
                    },
                },
                Session::LeavingAltScreen { run_res, exit_raw_mode_after_pause_err } => Session::Finished {
                    outcome: RunInAltScreenBufOutcome {
                        run_res,
                        exit_raw_mode_after_pause_err,
                        exit_alt_screen_err: match reply {
                            Reply::Failed(source) => Err(ExitAltScreenBufError { source }),
                            _ => Ok(()),
                        },
                    },
                },
                Session::Finished { .. } => self,
            }
        }
    }

    /// A new session: nothing has been done yet, and the first operation is to
    /// enter the alternate screen.
    pub fn new(pause: Option<PauseConfig>) -> (r: Session)
        ensures
            r == (Session::EnteringAltScreen { pause }),
            r.pending() == Action::EnterAltScreen,
    {
        Session::EnteringAltScreen { pause }
    }

    /// The operation to perform next.
    pub fn action(&self) -> (r: Action)
        ensures
            r == self.pending(),
    {
        match self {
            Session::EnteringAltScreen { .. } => Action::EnterAltScreen,
            Session::RunningChild { .. } => Action::RunChild,
            Session::PrintingPrompt { .. } => Action::PrintPrompt,
            Session::EnteringRawMode { .. } => Action::EnterRawMode,
            Session::ReadingEvents { .. } => Action::ReadEvent,
            Session::LeavingRawMode { .. } => Action::LeaveRawMode,
            Session::LeavingAltScreen { .. } => Action::LeaveAltScreen,
            Session::Finished { .. } => Action::Finish,
        }
    }

    /// Takes what the pending operation gave and moves on.
    pub fn step(self, reply: Reply) -> (r: Session)
        ensures
            r == self.next(reply),
    {
        match self {
            Session::EnteringAltScreen { pause } => match reply {
                Reply::Done => Session::RunningChild { pause },
                Reply::Failed(source) => Session::Finished {
                    outcome: RunInAltScreenBufOutcome {
                        run_res: Err(RunInAltScreenBufError::EnterAltScreenBuf { source }),
                        exit_raw_mode_after_pause_err: Ok(()),
                        exit_alt_screen_err: Ok(()),
                    },
                },
                _ => Session::EnteringAltScreen { pause },
            },
            Session::RunningChild { pause } => match reply {
                Reply::RunFailed(source) => Session::LeavingAltScreen {
                    run_res: Err(RunInAltScreenBufError::Run { source }),
                    exit_raw_mode_after_pause_err: Ok(()),
                },
                Reply::Exited(exit_status) => match pause {
                    None => Session::LeavingAltScreen {
                        run_res: Ok(FinishedRunOutcome { exit_status, pause_res: Ok(()) }),
                        exit_raw_mode_after_pause_err: Ok(()),
                    },
                    Some(cfg) => if cfg.silent {
                        Session::EnteringRawMode { exit_status }
                    } else {
                        Session::PrintingPrompt { exit_status }
                    },
                },
                _ => Session::RunningChild { pause },
            },
            Session::PrintingPrompt { exit_status } => match reply {
                Reply::Done => Session::EnteringRawMode { exit_status },
                _ => Session::PrintingPrompt { exit_status },
            },
            Session::EnteringRawMode { exit_status } => match reply {
                Reply::Done => Session::ReadingEvents { exit_status },
                Reply::Failed(source) => Session::LeavingAltScreen {
                    run_res: Ok(FinishedRunOutcome {
                        exit_status,
                        pause_res: Err(PauseError::EnterRawMode { source }),
                    }),
                    exit_raw_mode_after_pause_err: Ok(()),
                },
                _ => Session::EnteringRawMode { exit_status },
            },
            Session::ReadingEvents { exit_status } => match reply {
                Reply::Failed(source) => Session::LeavingRawMode {
                    exit_status,
                    pause_res: Err(PauseError::GetInputEvent { source }),
                },
                Reply::Event(ev) => if ev.is_key() {
                    Session::LeavingRawMode { exit_status, pause_res: Ok(()) }
                } else {
                    Session::ReadingEvents { exit_status }
                },
                _ => Session::ReadingEvents { exit_status },
            },
            Session::LeavingRawMode { exit_status, pause_res } => match reply {
                Reply::Done => Session::LeavingAltScreen {
                    run_res: Ok(FinishedRunOutcome { exit_status, pause_res }),
                    exit_raw_mode_after_pause_err: Ok(()),
                },
                Reply::Failed(source) => Session::LeavingAltScreen {
                    run_res: Ok(FinishedRunOutcome { exit_status, pause_res }),
                    exit_raw_mode_after_pause_err: Err(ExitRawModeAfterPauseError { source }),
                },
                _ => Session::LeavingRawMode { exit_status, pause_res },
            },
            Session::LeavingAltScreen { run_res, exit_raw_mode_after_pause_err } => match reply {
                Reply::Done => Session::Finished {
                    outcome: RunInAltScreenBufOutcome {
                        run_res,
                        exit_raw_mode_after_pause_err,
                        exit_alt_screen_err: Ok(()),
                    },
                },
                Reply::Failed(source) => Session::Finished {
                    outcome: RunInAltScreenBufOutcome {
                        run_res,
                        exit_raw_mode_after_pause_err,
                        exit_alt_screen_err: Err(ExitAltScreenBufError { source }),
                    },
                },
                _ => Session::LeavingAltScreen { run_res, exit_raw_mode_after_pause_err },
            },
            Session::Finished { outcome } => Session::Finished { outcome },
        }
    }

    /// The outcome, once the session is finished; otherwise the session
    /// itself, unchanged.
    pub fn finish(self) -> (r: Result<RunInAltScreenBufOutcome, Session>)
        ensures
            self is Finished ==> r == Ok::<RunInAltScreenBufOutcome, Session>(self->outcome),
            !(self is Finished) ==> r == Err::<RunInAltScreenBufOutcome, Session>(self),
    {
        match self {
            Session::Finished { outcome } => Ok(outcome),
            other => Err(other),
        }
    }
}

} // verus!
