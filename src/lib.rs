//! Composable wrappers around a command specification: hooks that observe
//! every configuration step and terminal action, an outcome checker, and
//! observers that turn a run into severity-tagged records for a sink.
//!
//! The platform that spawns processes is handed in by the caller, as a
//! function from a [`Command`] to an outcome; everything else is verified.
pub mod check;
pub mod command;
pub mod error;
pub mod log;
pub mod observe;
pub mod outcome;
pub mod print;
pub mod text;
pub mod trace;
pub mod wrap;

pub use check::CommandExtCheck;
pub use command::{Command, CommandView, Stdio};
pub use error::CommandExtError;
pub use log::{CommandExtLog, CommandLog};
pub use observe::{Channels, CommandObserver, Event, Level, Record};
pub use outcome::{ExitStatus, IoError, Output};
pub use print::{CommandExtPrint, CommandPrint};
pub use trace::{CommandExtTrace, CommandTrace};
pub use wrap::{CommandWrap, HasCommand};

use vstd::prelude::*;

verus! {

/// Every extension this library gives a command: checking and observing.
pub trait CommandExt: CommandExtCheck + CommandExtLog + CommandExtTrace + CommandExtPrint {}

impl CommandExt for Command {}

} // verus!
