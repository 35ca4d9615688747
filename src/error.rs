use vstd::prelude::*;

verus! {

/// `std::io::Error`, the cause carried by every failure of a terminal or
/// process operation. It is only moved and handed back, never looked into.
#[verifier::external_type_specification]
#[verifier::external_body]
pub struct ExIoError(std::io::Error);

/// A failure that kept the command from running, or from being observed.
/// Clean-up failures are reported apart from it, in the outcome's own slots.
#[derive(Debug)]
#[allow(inconsistent_fields)]
pub enum RunInAltScreenBufError {
    EnterAltScreenBuf { source: std::io::Error },
    Run { source: RunError },
}

impl RunInAltScreenBufError {
    /// The one-line description of this failure, without its cause.
    pub fn description(&self) -> (r: String)
        ensures
            r@ == (match self {
                RunInAltScreenBufError::EnterAltScreenBuf { .. } => "failed to enter alternate screen"@,
                RunInAltScreenBufError::Run { .. } => "failed to run command"@,
            }),
    {
        match self {
            RunInAltScreenBufError::EnterAltScreenBuf { .. } => "failed to enter alternate screen".to_owned(),
            RunInAltScreenBufError::Run { .. } => "failed to run command".to_owned(),
        }
    }

    /// The I/O error at the root of this failure.
    pub fn io_error(&self) -> (r: &std::io::Error)
        ensures
            *r == self.cause(),
    {
        match self {
            RunInAltScreenBufError::EnterAltScreenBuf { source } => source,
            RunInAltScreenBufError::Run { source } => source.io_error(),
        }
    }

    pub open spec fn cause(&self) -> std::io::Error {
        match self {
            RunInAltScreenBufError::EnterAltScreenBuf { source } => *source,
            RunInAltScreenBufError::Run { source } => source.cause(),
        }
    }
}

/// Why the command could not be run to completion.
#[derive(Debug)]
pub enum RunError {
    Spawn { source: std::io::Error },
    Wait { source: std::io::Error },
}

impl RunError {
    /// The one-line description of this failure, without its cause.
    pub fn description(&self) -> (r: String)
        ensures
            r@ == (match self {
                RunError::Spawn { .. } => "failed to spawn command"@,
                RunError::Wait { .. } => "failed to get command's exit status"@,
            }),
    {
        match self {
            RunError::Spawn { .. } => "failed to spawn command".to_owned(),
            RunError::Wait { .. } => "failed to get command's exit status".to_owned(),
        }
    }

    /// The I/O error behind this failure.
    pub fn io_error(&self) -> (r: &std::io::Error)
        ensures
            *r == self.cause(),
    {
        match self {
            RunError::Spawn { source } => source,
            RunError::Wait { source } => source,
        }
    }

    pub open spec fn cause(&self) -> std::io::Error {
        match self {
            RunError::Spawn { source } => *source,
            RunError::Wait { source } => *source,
        }
    }
}

/// Why the pause after the command did not wait for a keypress.
#[derive(Debug)]
pub enum PauseError {
    EnterRawMode { source: std::io::Error },
    GetInputEvent { source: std::io::Error },
}

impl PauseError {
    /// The one-line description of this failure, without its cause.
    pub fn description(&self) -> (r: String)
        ensures
            r@ == (match self {
                PauseError::EnterRawMode { .. } => "failed to enter raw mode in post-command pause flow"@,
                PauseError::GetInputEvent { .. } => "failed to read next input event in post-command pause flow"@,
            }),
    {
        match self {
            PauseError::EnterRawMode { .. } => "failed to enter raw mode in post-command pause flow".to_owned(),
            PauseError::GetInputEvent { .. } => "failed to read next input event in post-command pause flow".to_owned(),
        }
    }

    /// The I/O error behind this failure.
    pub fn io_error(&self) -> (r: &std::io::Error)
        ensures
            *r == self.cause(),
    {
        match self {
            PauseError::EnterRawMode { source } => source,
            PauseError::GetInputEvent { source } => source,
        }
    }

    pub open spec fn cause(&self) -> std::io::Error {
        match self {
            PauseError::EnterRawMode { source } => *source,
            PauseError::GetInputEvent { source } => *source,
        }
    }
}

/// Leaving raw input mode after the pause failed: the terminal may still be
/// in raw mode.
#[derive(Debug)]
pub struct ExitRawModeAfterPauseError {
    pub source: std::io::Error,
}

impl ExitRawModeAfterPauseError {
    /// The one-line description of this failure, without its cause.
    pub fn description(&self) -> (r: String)
        ensures
            r@ == "failed to exit raw mode in post-command pause flow"@,
    {
        "failed to exit raw mode in post-command pause flow".to_owned()
    }

    /// The I/O error behind this failure.
    pub fn io_error(&self) -> (r: &std::io::Error)
        ensures
            *r == self.source,
    {
        &self.source
    }
}

/// Leaving the alternate screen buffer failed.
#[derive(Debug)]
pub struct ExitAltScreenBufError {
    pub source: std::io::Error,
}

impl ExitAltScreenBufError {
    /// The one-line description of this failure, without its cause.
    pub fn description(&self) -> (r: String)
        ensures
            r@ == "failed to exit alternate screen"@,
    {
        "failed to exit alternate screen".to_owned()
    }

    /// The I/O error behind this failure.
    pub fn io_error(&self) -> (r: &std::io::Error)
        ensures
            *r == self.source,
    {
        &self.source
    }
}

} // verus!
