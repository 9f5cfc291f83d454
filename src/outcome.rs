//! What a terminal action hands back: an exit status, captured output, or
//! the platform's failure to run the process at all.
use crate::text::{decimal, push_decimal};
use vstd::prelude::*;

verus! {

/// How a finished process ended: with an exit code, or killed by a signal.
#[derive(Clone, Copy, Debug, PartialEq, Eq, Structural)]
pub struct ExitStatus {
    pub code: Option<i32>,
    pub signal: Option<i32>,
}

impl ExitStatus {
    /// A process succeeded when it exited with code zero.
    pub open spec fn spec_success(self) -> bool {
        self.code == Some(0i32)
    }

    pub fn success(&self) -> (r: bool)
        ensures
            r == self.spec_success(),
    {
        match self.code {
            Some(c) => c == 0,
            None => false,
        }
    }

    /// The status as text, e.g. `exit status: 1`.
    pub fn describe(&self) -> (r: String)
        ensures
            r@ == status_text(*self),
    {
        match self.code {
            Some(c) => {
                let mut s = String::from_str("exit status: ");
                push_decimal(&mut s, c);
                s
            },
            None => match self.signal {
                Some(g) => {
                    let mut s = String::from_str("signal: ");
                    push_decimal(&mut s, g);
                    s
                },
                None => String::from_str("exit status: unknown"),
            },
        }
    }

    pub fn code(&self) -> (r: Option<i32>)
        ensures
            r == self.code,
    {
        self.code
    }
}

/// How a status reads: its exit code, or the signal that ended it.
pub open spec fn status_text(s: ExitStatus) -> Seq<char> {
    match s.code {
        Some(c) => "exit status: "@ + decimal(c as int),
        None => match s.signal {
            Some(g) => "signal: "@ + decimal(g as int),
            None => "exit status: unknown"@,
        },
    }
}

/// A finished process with its captured streams.
#[derive(Debug)]
pub struct Output {
    pub status: ExitStatus,
    pub stdout: Vec<u8>,
    pub stderr: Vec<u8>,
}

/// The platform could not create the process (not found, permission denied, ...).
#[derive(Debug)]
pub struct IoError {
    pub raw_os_error: Option<i32>,
    pub message: String,
}

} // verus!
