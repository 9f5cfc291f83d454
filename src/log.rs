//! Observing a command for a line-logging sink, channel by channel, at chosen levels.
use crate::command::Command;
use crate::observe::{no_channels, Channels, CommandObserver, EventView, Level};
use crate::wrap::HasCommand;
use vstd::prelude::*;

verus! {

/// An observer whose records go to a logging sink at their level.
pub type CommandLog = CommandObserver<Level>;

/// Wrapping a command in a logging observer with one channel on.
pub trait CommandExtLog {
    fn log_args(self, filter: Level) -> CommandLog;
    fn log_envs(self, filter: Level) -> CommandLog;
    fn log_current_dir(self, filter: Level) -> CommandLog;
    fn log_status(self, filter: Level) -> CommandLog;
    fn log_stdout(self, filter: Level) -> CommandLog;
    fn log_stderr(self, filter: Level) -> CommandLog;
}

impl CommandExtLog for Command {
    /// An observer of this command that reports its program and arguments.
    fn log_args(self, filter: Level) -> (r: CommandLog)
        ensures
            r.cmd() == self,
            r@.channels == (Channels { args: Some(filter), ..no_channels() }),
            r@.records == Seq::<(Level, EventView)>::empty(),
    {
        let mut channels = Channels::silent();
        channels.args = Some(filter);
        CommandObserver::new(self, channels)
    }

    /// An observer of this command that reports its explicit environment.
    fn log_envs(self, filter: Level) -> (r: CommandLog)
        ensures
            r.cmd() == self,
            r@.channels == (Channels { envs: Some(filter), ..no_channels() }),
            r@.records == Seq::<(Level, EventView)>::empty(),
    {
        let mut channels = Channels::silent();
        channels.envs = Some(filter);
        CommandObserver::new(self, channels)
    }

    /// An observer of this command that reports its working directory.
    fn log_current_dir(self, filter: Level) -> (r: CommandLog)
        ensures
            r.cmd() == self,
            r@.channels == (Channels { current_dir: Some(filter), ..no_channels() }),
            r@.records == Seq::<(Level, EventView)>::empty(),
    {
        let mut channels = Channels::silent();
        channels.current_dir = Some(filter);
        CommandObserver::new(self, channels)
    }

    /// An observer of this command that reports its exit status.
    fn log_status(self, filter: Level) -> (r: CommandLog)
        ensures
            r.cmd() == self,
            r@.channels == (Channels { status: Some(filter), ..no_channels() }),
            r@.records == Seq::<(Level, EventView)>::empty(),
    {
        let mut channels = Channels::silent();
        channels.status = Some(filter);
        CommandObserver::new(self, channels)
    }

    /// An observer of this command that reports its captured stdout.
    fn log_stdout(self, filter: Level) -> (r: CommandLog)
        ensures
            r.cmd() == self,
            r@.channels == (Channels { stdout: Some(filter), ..no_channels() }),
            r@.records == Seq::<(Level, EventView)>::empty(),
    {
        let mut channels = Channels::silent();
        channels.stdout = Some(filter);
        CommandObserver::new(self, channels)
    }

    /// An observer of this command that reports its captured stderr.
    fn log_stderr(self, filter: Level) -> (r: CommandLog)
        ensures
            r.cmd() == self,
            r@.channels == (Channels { stderr: Some(filter), ..no_channels() }),
            r@.records == Seq::<(Level, EventView)>::empty(),
    {
        let mut channels = Channels::silent();
        channels.stderr = Some(filter);
        CommandObserver::new(self, channels)
    }
}

impl CommandObserver<Level> {
    /// Also reports the program and arguments.
    pub fn log_args(&mut self, filter: Level) -> (r: &mut CommandLog)
        ensures
            r.cmd() == old(self).cmd(),
            r@.channels == (Channels { args: Some(filter), ..old(self)@.channels }),
            r@.records == old(self)@.records,
            *final(self) == *final(r),
    {
        let mut channels = self.channels();
        channels.args = Some(filter);
        self.set_channels(channels);
        self
    }

    /// Also reports the explicit environment.
    pub fn log_envs(&mut self, filter: Level) -> (r: &mut CommandLog)
        ensures
            r.cmd() == old(self).cmd(),
            r@.channels == (Channels { envs: Some(filter), ..old(self)@.channels }),
            r@.records == old(self)@.records,
            *final(self) == *final(r),
    {
        let mut channels = self.channels();
        channels.envs = Some(filter);
        self.set_channels(channels);
        self
    }

    /// Also reports the working directory.
    pub fn log_current_dir(&mut self, filter: Level) -> (r: &mut CommandLog)
        ensures
            r.cmd() == old(self).cmd(),
            r@.channels == (Channels { current_dir: Some(filter), ..old(self)@.channels }),
            r@.records == old(self)@.records,
            *final(self) == *final(r),
    {
        let mut channels = self.channels();
        channels.current_dir = Some(filter);
        self.set_channels(channels);
        self
    }

    /// Also reports the exit status.
    pub fn log_status(&mut self, filter: Level) -> (r: &mut CommandLog)
        ensures
            r.cmd() == old(self).cmd(),
            r@.channels == (Channels { status: Some(filter), ..old(self)@.channels }),
            r@.records == old(self)@.records,
            *final(self) == *final(r),
    {
        let mut channels = self.channels();
        channels.status = Some(filter);
        self.set_channels(channels);
        self
    }

    /// Also reports the captured stdout.
    pub fn log_stdout(&mut self, filter: Level) -> (r: &mut CommandLog)
        ensures
            r.cmd() == old(self).cmd(),
            r@.channels == (Channels { stdout: Some(filter), ..old(self)@.channels }),
            r@.records == old(self)@.records,
            *final(self) == *final(r),
    {
        let mut channels = self.channels();
        channels.stdout = Some(filter);
        self.set_channels(channels);
        self
    }

    /// Also reports the captured stderr.
    pub fn log_stderr(&mut self, filter: Level) -> (r: &mut CommandLog)
        ensures
            r.cmd() == old(self).cmd(),
            r@.channels == (Channels { stderr: Some(filter), ..old(self)@.channels }),
            r@.records == old(self)@.records,
            *final(self) == *final(r),
    {
        let mut channels = self.channels();
        channels.stderr = Some(filter);
        self.set_channels(channels);
        self
    }
}

} // verus!
