//! Observing a command for plain printing: each channel is on or off.
use crate::command::Command;
use crate::observe::{no_channels, Channels, CommandObserver, EventView};
use crate::wrap::HasCommand;
use vstd::prelude::*;

verus! {

/// An observer whose records are printed as lines; a channel is on or off.
pub type CommandPrint = CommandObserver<()>;

/// Wrapping a command in a printing observer with one channel on.
pub trait CommandExtPrint {
    fn print_args(self) -> CommandPrint;
    fn print_envs(self) -> CommandPrint;
    fn print_current_dir(self) -> CommandPrint;
    fn print_status(self) -> CommandPrint;
    fn print_stdout(self) -> CommandPrint;
    fn print_stderr(self) -> CommandPrint;
}

impl CommandExtPrint for Command {
    /// An observer of this command that reports its program and arguments.
    fn print_args(self) -> (r: CommandPrint)
        ensures
            r.cmd() == self,
            r@.channels == (Channels { args: Some(()), ..no_channels() }),
            r@.records == Seq::<((), EventView)>::empty(),
    {
        let mut channels = Channels::silent();
        channels.args = Some(());
        CommandObserver::new(self, channels)
    }

    /// An observer of this command that reports its explicit environment.
    fn print_envs(self) -> (r: CommandPrint)
        ensures
            r.cmd() == self,
            r@.channels == (Channels { envs: Some(()), ..no_channels() }),
            r@.records == Seq::<((), EventView)>::empty(),
    {
        let mut channels = Channels::silent();
        channels.envs = Some(());
        CommandObserver::new(self, channels)
    }

    /// An observer of this command that reports its working directory.
    fn print_current_dir(self) -> (r: CommandPrint)
        ensures
            r.cmd() == self,
            r@.channels == (Channels { current_dir: Some(()), ..no_channels() }),
            r@.records == Seq::<((), EventView)>::empty(),
    {
        let mut channels = Channels::silent();
        channels.current_dir = Some(());
        CommandObserver::new(self, channels)
    }

    /// An observer of this command that reports its exit status.
    fn print_status(self) -> (r: CommandPrint)
        ensures
            r.cmd() == self,
            r@.channels == (Channels { status: Some(()), ..no_channels() }),
            r@.records == Seq::<((), EventView)>::empty(),
    {
        let mut channels = Channels::silent();
        channels.status = Some(());
        CommandObserver::new(self, channels)
    }

    /// An observer of this command that reports its captured stdout.
    fn print_stdout(self) -> (r: CommandPrint)
        ensures
            r.cmd() == self,
            r@.channels == (Channels { stdout: Some(()), ..no_channels() }),
            r@.records == Seq::<((), EventView)>::empty(),
    {
        let mut channels = Channels::silent();
        channels.stdout = Some(());
        CommandObserver::new(self, channels)
    }

    /// An observer of this command that reports its captured stderr.
    fn print_stderr(self) -> (r: CommandPrint)
        ensures
            r.cmd() == self,
            r@.channels == (Channels { stderr: Some(()), ..no_channels() }),
            r@.records == Seq::<((), EventView)>::empty(),
    {
        let mut channels = Channels::silent();
        channels.stderr = Some(());
        CommandObserver::new(self, channels)
    }
}

impl CommandObserver<()> {
    /// Also reports the program and arguments.
    pub fn print_args(&mut self) -> (r: &mut CommandPrint)
        ensures
            r.cmd() == old(self).cmd(),
            r@.channels == (Channels { args: Some(()), ..old(self)@.channels }),
            r@.records == old(self)@.records,
            *final(self) == *final(r),
    {
        let mut channels = self.channels();
        channels.args = Some(());
        self.set_channels(channels);
        self
    }

    /// Also reports the explicit environment.
    pub fn print_envs(&mut self) -> (r: &mut CommandPrint)
        ensures
            r.cmd() == old(self).cmd(),
            r@.channels == (Channels { envs: Some(()), ..old(self)@.channels }),
            r@.records == old(self)@.records,
            *final(self) == *final(r),
    {
        let mut channels = self.channels();
        channels.envs = Some(());
        self.set_channels(channels);
        self
    }

    /// Also reports the working directory.
    pub fn print_current_dir(&mut self) -> (r: &mut CommandPrint)
        ensures
            r.cmd() == old(self).cmd(),
            r@.channels == (Channels { current_dir: Some(()), ..old(self)@.channels }),
            r@.records == old(self)@.records,
            *final(self) == *final(r),
    {
        let mut channels = self.channels();
        channels.current_dir = Some(());
        self.set_channels(channels);
        self
    }

    /// Also reports the exit status.
    pub fn print_status(&mut self) -> (r: &mut CommandPrint)
        ensures
            r.cmd() == old(self).cmd(),
            r@.channels == (Channels { status: Some(()), ..old(self)@.channels }),
            r@.records == old(self)@.records,
            *final(self) == *final(r),
    {
        let mut channels = self.channels();
        channels.status = Some(());
        self.set_channels(channels);
        self
    }

    /// Also reports the captured stdout.
    pub fn print_stdout(&mut self) -> (r: &mut CommandPrint)
        ensures
            r.cmd() == old(self).cmd(),
            r@.channels == (Channels { stdout: Some(()), ..old(self)@.channels }),
            r@.records == old(self)@.records,
            *final(self) == *final(r),
    {
        let mut channels = self.channels();
        channels.stdout = Some(());
        self.set_channels(channels);
        self
    }

    /// Also reports the captured stderr.
    pub fn print_stderr(&mut self) -> (r: &mut CommandPrint)
        ensures
            r.cmd() == old(self).cmd(),
            r@.channels == (Channels { stderr: Some(()), ..old(self)@.channels }),
            r@.records == old(self)@.records,
            *final(self) == *final(r),
    {
        let mut channels = self.channels();
        channels.stderr = Some(());
        self.set_channels(channels);
        self
    }
}

} // verus!
