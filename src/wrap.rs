//! The wrapping protocol: hook points around every configuration step and
//! terminal action of a command, with no-op defaults.
use crate::command::{replay, BuilderCall, Command, Stdio};
use crate::outcome::{ExitStatus, IoError, Output};
use vstd::prelude::*;

verus! {

/// Access to the command specification a wrapper owns.
pub trait HasCommand {
    /// The command specification this value owns.
    spec fn cmd(&self) -> Command;

    fn command(&self) -> (r: &Command)
        ensures
            *r == self.cmd(),
    ;

    fn command_mut(&mut self) -> (r: &mut Command)
        ensures
            *r == old(self).cmd(),
            final(self).cmd() == *final(r),
    ;
}

/// A command that lets its wrapper observe each configuration step before it
/// is applied, and each terminal action before and after the platform runs it.
///
/// Hooks observe: none of them changes the command, and no terminal action
/// alters what the platform returned.
pub trait CommandWrap: HasCommand + Sized {
    /// Called before an argument is added by [`CommandWrap::arg`].
    #[allow(unused_variables)]
    fn on_arg(&mut self, arg: &str)
        ensures
            final(self).cmd() == old(self).cmd(),
    {
    }

    /// Called before arguments are added by [`CommandWrap::args`].
    #[allow(unused_variables)]
    fn on_args(&mut self, args: &[&str])
        ensures
            final(self).cmd() == old(self).cmd(),
    {
    }

    /// Called before a variable is set by [`CommandWrap::env`].
    #[allow(unused_variables)]
    fn on_env(&mut self, key: &str, val: &str)
        ensures
            final(self).cmd() == old(self).cmd(),
    {
    }

    /// Called before variables are set by [`CommandWrap::envs`].
    #[allow(unused_variables)]
    fn on_envs(&mut self, vars: &[(&str, &str)])
        ensures
            final(self).cmd() == old(self).cmd(),
    {
    }

    /// Called before a variable is removed by [`CommandWrap::env_remove`].
    #[allow(unused_variables)]
    fn on_env_remove(&mut self, key: &str)
        ensures
            final(self).cmd() == old(self).cmd(),
    {
    }

    /// Called before the environment is cleared by [`CommandWrap::env_clear`].
    fn on_env_clear(&mut self)
        ensures
            final(self).cmd() == old(self).cmd(),
    {
    }

    /// Called before the working directory is set by [`CommandWrap::current_dir`].
    #[allow(unused_variables)]
    fn on_current_dir(&mut self, dir: &str)
        ensures
            final(self).cmd() == old(self).cmd(),
    {
    }

    /// Called before stdin is configured by [`CommandWrap::stdin`].
    #[allow(unused_variables)]
    fn on_stdin(&mut self, cfg: &Stdio)
        ensures
            final(self).cmd() == old(self).cmd(),
    {
    }

    /// Called before stdout is configured by [`CommandWrap::stdout`].
    #[allow(unused_variables)]
    fn on_stdout(&mut self, cfg: &Stdio)
        ensures
            final(self).cmd() == old(self).cmd(),
    {
    }

    /// Called before stderr is configured by [`CommandWrap::stderr`].
    #[allow(unused_variables)]
    fn on_stderr(&mut self, cfg: &Stdio)
        ensures
            final(self).cmd() == old(self).cmd(),
    {
    }

    /// Called before the platform spawns the child in [`CommandWrap::spawn`].
    fn on_spawn(&mut self)
        ensures
            final(self).cmd() == old(self).cmd(),
    {
    }

    /// Called before the platform runs the command in [`CommandWrap::output`].
    fn on_output(&mut self)
        ensures
            final(self).cmd() == old(self).cmd(),
    {
    }

    /// Called before the platform runs the command in [`CommandWrap::status`].
    fn on_status(&mut self)
        ensures
            final(self).cmd() == old(self).cmd(),
    {
    }

    /// Called with what the platform returned in [`CommandWrap::spawn`].
    #[allow(unused_variables)]
    fn after_spawn<C>(&mut self, child: &Result<C, IoError>)
        ensures
            final(self).cmd() == old(self).cmd(),
    {
    }

    /// Called with what the platform returned in [`CommandWrap::output`].
    #[allow(unused_variables)]
    fn after_output(&mut self, output: &Result<Output, IoError>)
        ensures
            final(self).cmd() == old(self).cmd(),
    {
    }

    /// Called with what the platform returned in [`CommandWrap::status`].
    #[allow(unused_variables)]
    fn after_status(&mut self, status: &Result<ExitStatus, IoError>)
        ensures
            final(self).cmd() == old(self).cmd(),
    {
    }

    /// Adds an argument to pass to the program.
    fn arg(&mut self, arg: &str) -> (r: &mut Self)
        ensures
            r.cmd()@ == old(self).cmd()@.with_arg(arg@),
            *final(self) == *final(r),
    {
        self.on_arg(arg);
        self.command_mut().arg(arg);
        self
    }

    /// Adds several arguments, in order.
    fn args(&mut self, args: &[&str]) -> (r: &mut Self)
        ensures
            r.cmd()@ == old(self).cmd()@.with_args(args@.map_values(|a: &str| a@)),
            *final(self) == *final(r),
    {
        self.on_args(args);
        self.command_mut().args(args);
        self
    }

    /// Sets (or overwrites) an environment variable.
    fn env(&mut self, key: &str, val: &str) -> (r: &mut Self)
        ensures
            r.cmd()@ == old(self).cmd()@.with_env(key@, val@),
            *final(self) == *final(r),
    {
        self.on_env(key, val);
        self.command_mut().env(key, val);
        self
    }

    /// Sets several environment variables, in order.
    fn envs(&mut self, vars: &[(&str, &str)]) -> (r: &mut Self)
        ensures
            r.cmd()@ == old(self).cmd()@.with_envs(
                vars@.map_values(|p: (&str, &str)| (p.0@, p.1@)),
            ),
            *final(self) == *final(r),
    {
        self.on_envs(vars);
        self.command_mut().envs(vars);
        self
    }

    /// Removes an environment variable's explicit value and stops it being inherited.
    fn env_remove(&mut self, key: &str) -> (r: &mut Self)
        ensures
            r.cmd()@ == old(self).cmd()@.without_env(key@),
            *final(self) == *final(r),
    {
        self.on_env_remove(key);
        self.command_mut().env_remove(key);
        self
    }

    /// Drops every explicit variable and stops the environment being inherited.
    fn env_clear(&mut self) -> (r: &mut Self)
        ensures
            r.cmd()@ == old(self).cmd()@.cleared_env(),
            *final(self) == *final(r),
    {
        self.on_env_clear();
        self.command_mut().env_clear();
        self
    }

    /// Sets the child's working directory.
    fn current_dir(&mut self, dir: &str) -> (r: &mut Self)
        ensures
            r.cmd()@ == old(self).cmd()@.with_current_dir(dir@),
            *final(self) == *final(r),
    {
        self.on_current_dir(dir);
        self.command_mut().current_dir(dir);
        self
    }

    /// Configures the child's standard input.
    fn stdin(&mut self, cfg: Stdio) -> (r: &mut Self)
        ensures
            r.cmd()@ == old(self).cmd()@.with_stdin(cfg),
            *final(self) == *final(r),
    {
        self.on_stdin(&cfg);
        self.command_mut().stdin(cfg);
        self
    }

    /// Configures the child's standard output.
    fn stdout(&mut self, cfg: Stdio) -> (r: &mut Self)
        ensures
            r.cmd()@ == old(self).cmd()@.with_stdout(cfg),
            *final(self) == *final(r),
    {
        self.on_stdout(&cfg);
        self.command_mut().stdout(cfg);
        self
    }

    /// Configures the child's standard error.
    fn stderr(&mut self, cfg: Stdio) -> (r: &mut Self)
        ensures
            r.cmd()@ == old(self).cmd()@.with_stderr(cfg),
            *final(self) == *final(r),
    {
        self.on_stderr(&cfg);
        self.command_mut().stderr(cfg);
        self
    }

    /// Starts the child through `platform` and hands back its result unchanged.
    fn spawn<C, F: FnOnce(&Command) -> Result<C, IoError>>(&mut self, platform: F) -> (r: Result<
        C,
        IoError,
    >)
        requires
            platform.requires((&old(self).cmd(),)),
        ensures
            platform.ensures((&old(self).cmd(),), r),
            final(self).cmd() == old(self).cmd(),
    {
        self.on_spawn();
        let child = platform(self.command());
        self.after_spawn(&child);
        child
    }

    /// Runs the command to completion through `platform`, capturing its
    /// streams, and hands back the result unchanged.
    fn output<F: FnOnce(&Command) -> Result<Output, IoError>>(&mut self, platform: F) -> (r: Result<
        Output,
        IoError,
    >)
        requires
            platform.requires((&old(self).cmd(),)),
        ensures
            platform.ensures((&old(self).cmd(),), r),
            final(self).cmd() == old(self).cmd(),
    {
        self.on_output();
        let output = platform(self.command());
        self.after_output(&output);
        output
    }

    /// Runs the command to completion through `platform`, without capturing
    /// its streams, and hands back the result unchanged.
    fn status<F: FnOnce(&Command) -> Result<ExitStatus, IoError>>(&mut self, platform: F) -> (r:
        Result<ExitStatus, IoError>)
        requires
            platform.requires((&old(self).cmd(),)),
        ensures
            platform.ensures((&old(self).cmd(),), r),
            final(self).cmd() == old(self).cmd(),
    {
        self.on_status();
        let status = platform(self.command());
        self.after_status(&status);
        status
    }

    /// Makes each call in turn, first to last, through the builder methods
    /// (and so through their hooks).
    fn configure(&mut self, calls: &[BuilderCall]) -> (r: &mut Self)
        ensures
            r.cmd()@ == replay(old(self).cmd()@, calls@),
            *final(self) == *final(r),
    {
        let ghost start = self.cmd()@;
        let mut i: usize = 0;
        while i < calls.len()
            invariant
                i <= calls@.len(),
                self.cmd()@ == replay(start, calls@.take(i as int)),
            decreases calls.len() - i,
        {
            match calls[i] {
                BuilderCall::Arg(a) => {
                    self.arg(a);
                },
                BuilderCall::Args(a) => {
                    self.args(a);
                },
                BuilderCall::Env(k, x) => {
                    self.env(k, x);
                },
                BuilderCall::Envs(vars) => {
                    self.envs(vars);
                },
                BuilderCall::EnvRemove(k) => {
                    self.env_remove(k);
                },
                BuilderCall::EnvClear => {
                    self.env_clear();
                },
                BuilderCall::CurrentDir(d) => {
                    self.current_dir(d);
                },
                BuilderCall::Stdin(cfg) => {
                    self.stdin(cfg);
                },
                BuilderCall::Stdout(cfg) => {
                    self.stdout(cfg);
                },
                BuilderCall::Stderr(cfg) => {
                    self.stderr(cfg);
                },
            }
            assert(calls@.take(i + 1).drop_last() =~= calls@.take(i as int));
            i = i + 1;
        }
        assert(calls@.take(i as int) =~= calls@);
        self
    }

    fn get_program(&self) -> (r: &str)
        ensures
            r@ == self.cmd()@.program,
    {
        self.command().get_program()
    }

    fn get_args(&self) -> (r: &[String])
        ensures
            r@.map_values(|a: String| a@) == self.cmd()@.args,
    {
        self.command().get_args()
    }

    fn get_envs(&self) -> (r: &[(String, Option<String>)])
        ensures
            r@.map_values(|e: (String, Option<String>)| e.deep_view()) == self.cmd()@.envs,
    {
        self.command().get_envs()
    }

    fn get_current_dir(&self) -> (r: Option<&str>)
        ensures
            match r {
                Some(d) => self.cmd()@.current_dir == Some(d@),
                None => self.cmd()@.current_dir.is_none(),
            },
    {
        self.command().get_current_dir()
    }
}

/// A bare command is its own wrapper, with every hook left as a no-op.
impl HasCommand for Command {
    open spec fn cmd(&self) -> Command {
        *self
    }

    fn command(&self) -> (r: &Command) {
        self
    }

    fn command_mut(&mut self) -> (r: &mut Command) {
        self
    }
}

impl CommandWrap for Command {}

} // verus!
