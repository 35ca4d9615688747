//! Run a command inside the terminal's alternate screen buffer, optionally
//! wait for a keypress afterwards, and restore the normal screen whatever
//! failed on the way.
//!
//! The terminal and the child process are driven from outside: the library
//! holds the decisions. A [`Session`] says which operation comes next and
//! takes back what that operation gave; [`report`] turns the final
//! [`RunInAltScreenBufOutcome`] into a process return code and the notices
//! to print. The laws that tie these together stand in [`trace`] and
//! [`report`](mod@report).

pub mod error;
pub mod options;
pub mod report;
pub mod session;
pub mod trace;

pub use error::{
    ExitAltScreenBufError, ExitRawModeAfterPauseError, PauseError, RunError, RunInAltScreenBufError,
};
pub use options::{resolve_pause, PauseOption, UnrecognizedPauseOption};
pub use report::{
    launch, report, status_return_code, Notice, Report, CLEANUP_FAILED_CODE, NO_COMMAND_CODE,
    RUN_FAILED_CODE, SIGNALED_CODE,
};
pub use session::{
    Action, ExitStatus, FinishedRunOutcome, InputEvent, PauseConfig, Reply,
    RunInAltScreenBufOutcome, Session,
};
