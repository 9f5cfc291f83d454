//! The outcome checker: runs a command once, capturing its output, and tells
//! success from a failed run and from a process that never started.
use crate::command::Command;
use crate::error::CommandExtError;
use crate::outcome::{IoError, Output};
use crate::text::{decode_lossy, utf8_lossy};
use crate::wrap::{CommandWrap, HasCommand};
use vstd::prelude::*;

verus! {

/// `r` is how the checker classifies the outcome `o` of a capturing run.
pub open spec fn classifies(o: Result<Output, IoError>, r: Result<Output, CommandExtError>) -> bool {
    match o {
        Err(e) => r == Err::<Output, CommandExtError>(CommandExtError::StdIoError(e)),
        Ok(out) => if out.status.spec_success() {
            r == Ok::<Output, CommandExtError>(out)
        } else {
            match r {
                Err(CommandExtError::Check { status, stdout, stderr }) => {
                    &&& status == out.status
                    &&& stdout@ == utf8_lossy(out.stdout@)
                    &&& stderr@ == utf8_lossy(out.stderr@)
                },
                _ => false,
            }
        },
    }
}

/// Classifies the outcome of a capturing run: the output itself when the
/// process succeeded, a `Check` error with its status and decoded streams
/// when it ran and failed, and a `StdIoError` when it could not start.
pub fn check_output(outcome: Result<Output, IoError>) -> (r: Result<Output, CommandExtError>)
    ensures
        classifies(outcome, r),
{
    match outcome {
        Err(e) => Err(CommandExtError::StdIoError(e)),
        Ok(out) => {
            if out.status.success() {
                Ok(out)
            } else {
                let stdout = decode_lossy(out.stdout.as_slice());
                let stderr = decode_lossy(out.stderr.as_slice());
                Err(CommandExtError::Check { status: out.status, stdout, stderr })
            }
        },
    }
}

/// Running a command once and classifying the outcome.
pub trait CommandExtCheck: CommandWrap {
    /// Runs the command through `platform`, capturing its output, and
    /// classifies the result.
    fn check<F: FnOnce(&Command) -> Result<Output, IoError>>(&mut self, platform: F) -> (r: Result<
        Output,
        CommandExtError,
    >)
        requires
            platform.requires((&old(self).cmd(),)),
        ensures
            exists|o: Result<Output, IoError>|
                platform.ensures((&old(self).cmd(),), o) && #[trigger] classifies(o, r),
            final(self).cmd() == old(self).cmd(),
    {
        let outcome = self.output(platform);
        check_output(outcome)
    }
}

impl CommandExtCheck for Command {}

} // verus!
