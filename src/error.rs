//! The classified failure of a checked command.
use crate::outcome::{status_text, ExitStatus, IoError};
use vstd::prelude::*;

verus! {

/// Why a checked command failed.
#[derive(Debug)]
pub enum CommandExtError {
    /// The process ran to completion but its status reports failure. The
    /// streams are decoded as UTF-8, invalid sequences replaced.
    Check { status: ExitStatus, stdout: String, stderr: String },
    /// The platform could not create the process.
    StdIoError(IoError),
}

/// How an error reads.
pub open spec fn error_text(e: CommandExtError) -> Seq<char> {
    match e {
        CommandExtError::Check { status, stdout, stderr } => "Command failed with status ("@
            + status_text(status) + "), stdout ("@ + stdout@ + "), stderr ("@ + stderr@ + ")"@,
        CommandExtError::StdIoError(e) => e.message@,
    }
}

impl CommandExtError {
    /// The error as text: the status and both streams of a failed run, or the
    /// platform's own message.
    pub fn message(&self) -> (r: String)
        ensures
            r@ == error_text(*self),
    {
        match self {
            CommandExtError::Check { status, stdout, stderr } => {
                let mut s = String::from_str("Command failed with status (");
                let t = status.describe();
                s.append(t.as_str());
                s.append("), stdout (");
                s.append(stdout.as_str());
                s.append("), stderr (");
                s.append(stderr.as_str());
                s.append(")");
                s
            },
            CommandExtError::StdIoError(e) => e.message.clone(),
        }
    }
}

impl From<IoError> for CommandExtError {
    fn from(e: IoError) -> (r: CommandExtError) {
        CommandExtError::StdIoError(e)
    }
}

impl vstd::std_specs::convert::FromSpecImpl<IoError> for CommandExtError {
    open spec fn obeys_from_spec() -> bool {
        true
    }

    open spec fn from_spec(e: IoError) -> CommandExtError {
        CommandExtError::StdIoError(e)
    }
}

} // verus!
