//! The severity-filtered observer: a wrapper that turns the command it owns
//! and the outcomes of its terminal actions into records, one channel at a
//! time, for a logging, tracing or printing sink to emit.
use crate::check::{check_output, classifies, CommandExtCheck};
use crate::command::{Command, CommandView, EnvEntry};
use crate::error::CommandExtError;
use crate::outcome::{status_text, ExitStatus, IoError, Output};
use crate::text::{decode_lossy, join, push_joined, trim_text, trimmed, utf8_lossy};
use crate::wrap::{CommandWrap, HasCommand};
use vstd::prelude::*;

verus! {

/// Five ordered severities, least severe first.
#[derive(Clone, Copy, Debug, PartialEq, Eq, Structural, PartialOrd, Ord, Hash)]
pub enum Level {
    Trace,
    Debug,
    Info,
    Warn,
    Error,
}

/// The setting of each channel: `None` keeps the channel silent. A logging or
/// tracing observer's setting is a [`Level`]; a printing observer's is `()`.
#[derive(Clone, Copy, Debug)]
pub struct Channels<S> {
    /// Program and arguments, before each terminal action.
    pub args: Option<S>,
    /// Each explicit environment entry, before each terminal action.
    pub envs: Option<S>,
    /// The working directory, before each terminal action.
    pub current_dir: Option<S>,
    /// The exit status, after a run that completed.
    pub status: Option<S>,
    /// The captured stdout, trimmed, after a run that completed; nothing when blank.
    pub stdout: Option<S>,
    /// The captured stderr, trimmed, after a run that completed; nothing when blank.
    pub stderr: Option<S>,
}

/// Every channel silent.
pub open spec fn no_channels<S>() -> Channels<S> {
    Channels {
        args: None,
        envs: None,
        current_dir: None,
        status: None,
        stdout: None,
        stderr: None,
    }
}

impl<S: Copy> Channels<S> {
    /// Every channel silent.
    pub fn silent() -> (r: Channels<S>)
        ensures
            r == no_channels::<S>(),
    {
        Channels {
            args: None,
            envs: None,
            current_dir: None,
            status: None,
            stdout: None,
            stderr: None,
        }
    }
}

/// What one record reports.
#[derive(Debug)]
pub enum Event {
    /// The program and its arguments.
    Args { program: String, args: Vec<String> },
    /// One explicit environment entry; `None` where the variable is unset.
    Env { key: String, value: Option<String> },
    /// The working directory, if one is set.
    CurrentDir { dir: Option<String> },
    /// How the process ended.
    Status { status: ExitStatus },
    /// The trimmed stdout.
    Stdout { text: String },
    /// The trimmed stderr.
    Stderr { text: String },
}

pub enum EventView {
    Args { program: Seq<char>, args: Seq<Seq<char>> },
    Env { key: Seq<char>, value: Option<Seq<char>> },
    CurrentDir { dir: Option<Seq<char>> },
    Status { status: ExitStatus },
    Stdout { text: Seq<char> },
    Stderr { text: Seq<char> },
}

impl View for Event {
    type V = EventView;

    open spec fn view(&self) -> EventView {
        match self {
            Event::Args { program, args } => EventView::Args {
                program: program@,
                args: args.deep_view(),
            },
            Event::Env { key, value } => EventView::Env { key: key@, value: value.deep_view() },
            Event::CurrentDir { dir } => EventView::CurrentDir { dir: dir.deep_view() },
            Event::Status { status } => EventView::Status { status: *status },
            Event::Stdout { text } => EventView::Stdout { text: text@ },
            Event::Stderr { text } => EventView::Stderr { text: text@ },
        }
    }
}

/// The line a sink writes for an event.
pub open spec fn message_of(e: EventView) -> Seq<char> {
    match e {
        EventView::Args { program, args } => "args: "@ + program + " "@ + join(args, " "@),
        EventView::Env { key, value } => "envs: "@ + key + "="@ + match value {
            Some(v) => v,
            None => Seq::empty(),
        },
        EventView::CurrentDir { dir } => "current_dir: "@ + match dir {
            Some(d) => d,
            None => Seq::empty(),
        },
        EventView::Status { status } => "status: "@ + status_text(status),
        EventView::Stdout { text } => "stdout: "@ + text,
        EventView::Stderr { text } => "stderr: "@ + text,
    }
}

impl Event {
    /// The line a sink writes for this event, e.g. `args: echo x`.
    pub fn message(&self) -> (r: String)
        ensures
            r@ == message_of(self@),
    {
        match self {
            Event::Args { program, args } => {
                let mut s = String::from_str("args: ");
                s.append(program.as_str());
                s.append(" ");
                push_joined(&mut s, args.as_slice(), " ");
                assert(args@.map_values(|p: String| p@) =~= args.deep_view());
                s
            },
            Event::Env { key, value } => {
                let mut s = String::from_str("envs: ");
                s.append(key.as_str());
                s.append("=");
                if let Some(v) = value {
                    s.append(v.as_str());
                }
                assert(s@ =~= message_of(self@));
                s
            },
            Event::CurrentDir { dir } => {
                let mut s = String::from_str("current_dir: ");
                if let Some(d) = dir {
                    s.append(d.as_str());
                }
                assert(s@ =~= message_of(self@));
                s
            },
            Event::Status { status } => {
                let mut s = String::from_str("status: ");
                let t = status.describe();
                s.append(t.as_str());
                s
            },
            Event::Stdout { text } => {
                let mut s = String::from_str("stdout: ");
                s.append(text.as_str());
                s
            },
            Event::Stderr { text } => {
                let mut s = String::from_str("stderr: ");
                s.append(text.as_str());
                s
            },
        }
    }
}

/// One thing for a sink to emit, at the setting of the channel that produced it.
#[derive(Debug)]
pub struct Record<S> {
    pub setting: S,
    pub event: Event,
}

impl<S> View for Record<S> {
    type V = (S, EventView);

    open spec fn view(&self) -> (S, EventView) {
        (self.setting, self.event@)
    }
}

pub open spec fn records_view<S>(v: Seq<Record<S>>) -> Seq<(S, EventView)> {
    v.map_values(|r: Record<S>| r@)
}

pub open spec fn args_records<S>(ch: Channels<S>, c: CommandView) -> Seq<(S, EventView)> {
    match ch.args {
        Some(l) => seq![(l, EventView::Args { program: c.program, args: c.args })],
        None => Seq::empty(),
    }
}

pub open spec fn env_record<S>(l: S, e: EnvEntry) -> (S, EventView) {
    (l, EventView::Env { key: e.0, value: e.1 })
}

pub open spec fn envs_records<S>(ch: Channels<S>, c: CommandView) -> Seq<(S, EventView)> {
    match ch.envs {
        Some(l) => c.envs.map_values(|e: EnvEntry| env_record(l, e)),
        None => Seq::empty(),
    }
}

pub open spec fn current_dir_records<S>(ch: Channels<S>, c: CommandView) -> Seq<(S, EventView)> {
    match ch.current_dir {
        Some(l) => seq![(l, EventView::CurrentDir { dir: c.current_dir })],
        None => Seq::empty(),
    }
}

/// What the pre-execution channels report about command `c`.
pub open spec fn pre_records<S>(ch: Channels<S>, c: CommandView) -> Seq<(S, EventView)> {
    args_records(ch, c) + envs_records(ch, c) + current_dir_records(ch, c)
}

pub open spec fn exit_records<S>(ch: Channels<S>, s: ExitStatus) -> Seq<(S, EventView)> {
    match ch.status {
        Some(l) => seq![(l, EventView::Status { status: s })],
        None => Seq::empty(),
    }
}

/// A stream channel reports the trimmed text once, and nothing when it is blank.
pub open spec fn stream_records<S>(setting: Option<S>, text: Seq<char>, is_stderr: bool) -> Seq<
    (S, EventView),
> {
    match setting {
        Some(l) => if trimmed(text).len() == 0 {
            Seq::empty()
        } else if is_stderr {
            seq![(l, EventView::Stderr { text: trimmed(text) })]
        } else {
            seq![(l, EventView::Stdout { text: trimmed(text) })]
        },
        None => Seq::empty(),
    }
}

/// What the post-execution channels report after a capturing run.
pub open spec fn output_records<S>(ch: Channels<S>, r: Result<Output, IoError>) -> Seq<
    (S, EventView),
> {
    match r {
        Ok(o) => exit_records(ch, o.status) + stream_records(ch.stdout, utf8_lossy(o.stdout@), false)
            + stream_records(ch.stderr, utf8_lossy(o.stderr@), true),
        Err(_) => Seq::empty(),
    }
}

/// What the post-execution channels report after a run without capture.
pub open spec fn status_records<S>(ch: Channels<S>, r: Result<ExitStatus, IoError>) -> Seq<
    (S, EventView),
> {
    match r {
        Ok(s) => exit_records(ch, s),
        Err(_) => Seq::empty(),
    }
}

fn clone_strings(v: &[String]) -> (r: Vec<String>)
    ensures
        r.deep_view() == v@.map_values(|a: String| a@),
{
    let mut r: Vec<String> = Vec::new();
    let mut i: usize = 0;
    while i < v.len()
        invariant
            i <= v@.len(),
            r.deep_view() == v@.map_values(|a: String| a@).take(i as int),
        decreases v.len() - i,
    {
        let ghost prev = r.deep_view();
        let s = v[i].clone();
        r.push(s);
        assert(r.deep_view() =~= prev.push(v@[i as int]@));
        assert(v@.map_values(|a: String| a@).take(i + 1) =~= v@.map_values(|a: String| a@).take(
            i as int,
        ).push(v@[i as int]@));
        i = i + 1;
    }
    assert(v@.map_values(|a: String| a@).take(i as int) =~= v@.map_values(|a: String| a@));
    r
}

fn clone_opt(v: &Option<String>) -> (r: Option<String>)
    ensures
        r.deep_view() == v.deep_view(),
{
    match v {
        Some(s) => Some(s.clone()),
        None => None,
    }
}

/// The mathematical value of a [`CommandObserver`], besides its command.
pub struct ObserverView<S> {
    pub channels: Channels<S>,
    /// Records produced and not yet taken, oldest first.
    pub records: Seq<(S, EventView)>,
}

/// A wrapper that owns a command and records, per channel, what it is
/// configured to report before and after each terminal action.
pub struct CommandObserver<S> {
    command: Command,
    channels: Channels<S>,
    records: Vec<Record<S>>,
}

impl<S: Copy> View for CommandObserver<S> {
    type V = ObserverView<S>;

    closed spec fn view(&self) -> ObserverView<S> {
        ObserverView { channels: self.channels, records: records_view(self.records@) }
    }
}

impl<S: Copy> CommandObserver<S> {
    /// Wraps `command`, with the given channel settings and no records.
    pub fn new(command: Command, channels: Channels<S>) -> (r: CommandObserver<S>)
        ensures
            r.cmd() == command,
            r@.channels == channels,
            r@.records == Seq::<(S, EventView)>::empty(),
    {
        let r = CommandObserver { command, channels, records: Vec::new() };
        assert(r@.records =~= Seq::<(S, EventView)>::empty());
        r
    }

    pub fn channels(&self) -> (r: Channels<S>)
        ensures
            r == self@.channels,
    {
        self.channels
    }

    /// Replaces the channel settings.
    pub fn set_channels(&mut self, channels: Channels<S>)
        ensures
            final(self).cmd() == old(self).cmd(),
            final(self)@ == (ObserverView { channels, ..old(self)@ }),
    {
        self.channels = channels;
    }

    /// Hands out the records produced so far, oldest first, and forgets them.
    pub fn take_records(&mut self) -> (r: Vec<Record<S>>)
        ensures
            records_view(r@) == old(self)@.records,
            final(self).cmd() == old(self).cmd(),
            final(self)@.channels == old(self)@.channels,
            final(self)@.records == Seq::<(S, EventView)>::empty(),
    {
        let mut r: Vec<Record<S>> = Vec::new();
        r.append(&mut self.records);
        assert(r@ =~= old(self).records@);
        assert(self@.records =~= Seq::<(S, EventView)>::empty());
        r
    }

    /// Gives the command back.
    pub fn into_command(self) -> (r: Command)
        ensures
            r == self.cmd(),
    {
        self.command
    }

    fn push_record(&mut self, setting: S, event: Event)
        ensures
            final(self).cmd() == old(self).cmd(),
            final(self)@.channels == old(self)@.channels,
            final(self)@.records == old(self)@.records.push((setting, event@)),
    {
        let ghost before = self@.records;
        self.records.push(Record { setting, event });
        assert(self@.records =~= before.push((setting, event@)));
    }

    /// Records what the pre-execution channels report about the command as it stands.
    fn record_before(&mut self)
        ensures
            final(self).cmd() == old(self).cmd(),
            final(self)@.channels == old(self)@.channels,
            final(self)@.records == old(self)@.records + pre_records(
                old(self)@.channels,
                old(self).cmd()@,
            ),
    {
        let ghost start = self@.records;
        let ghost ch = self.channels;
        let ghost c = self.command@;
        let ghost cmd0 = self.command;
        if let Some(l) = self.channels.args {
            let program = self.command.get_program().to_owned();
            let args = clone_strings(self.command.get_args());
            self.push_record(l, Event::Args { program, args });
        }
        assert(self@.records =~= start + args_records(ch, c));
        if let Some(l) = self.channels.envs {
            let ghost mid = self@.records;
            let n = self.command.get_envs().len();
            let mut i: usize = 0;
            while i < n
                invariant
                    self.command == cmd0,
                    self.command@ == c,
                    self@.channels == ch,
                    ch.envs == Some(l),
                    n == c.envs.len(),
                    i <= n,
                    self@.records == mid + c.envs.take(i as int).map_values(
                        |e: EnvEntry| env_record(l, e),
                    ),
                decreases n - i,
            {
                let envs = self.command.get_envs();
                let key = envs[i].0.clone();
                let value = clone_opt(&envs[i].1);
                proof {
                    assert(envs@.map_values(|e: (String, Option<String>)| e.deep_view())[i as int]
                        == c.envs[i as int]);
                }
                self.push_record(l, Event::Env { key, value });
                assert(c.envs.take(i + 1).map_values(|e: EnvEntry| env_record(l, e))
                    =~= c.envs.take(i as int).map_values(|e: EnvEntry| env_record(l, e)).push(
                    env_record(l, c.envs[i as int]),
                ));
                i = i + 1;
            }
            assert(c.envs.take(i as int) =~= c.envs);
        }
        assert(self@.records =~= start + args_records(ch, c) + envs_records(ch, c));
        if let Some(l) = self.channels.current_dir {
            let dir = match self.command.get_current_dir() {
                Some(d) => Some(d.to_owned()),
                None => None,
            };
            self.push_record(l, Event::CurrentDir { dir });
        }
        assert(self@.records =~= start + pre_records(ch, c));
    }

    /// Records the exit status, if that channel is on.
    fn record_exit(&mut self, status: ExitStatus)
        ensures
            final(self).cmd() == old(self).cmd(),
            final(self)@.channels == old(self)@.channels,
            final(self)@.records == old(self)@.records + exit_records(old(self)@.channels, status),
    {
        let ghost start = self@.records;
        if let Some(l) = self.channels.status {
            self.push_record(l, Event::Status { status });
        }
        assert(self@.records =~= start + exit_records(self@.channels, status));
    }

    /// Records the trimmed text of a captured stream, unless it is blank.
    fn record_stream(&mut self, setting: Option<S>, text: &str, is_stderr: bool)
        ensures
            final(self).cmd() == old(self).cmd(),
            final(self)@.channels == old(self)@.channels,
            final(self)@.records == old(self)@.records + stream_records(setting, text@, is_stderr),
    {
        let ghost start = self@.records;
        if let Some(l) = setting {
            let t = trim_text(text);
            if !t.is_empty() {
                let text = t.to_owned();
                if is_stderr {
                    self.push_record(l, Event::Stderr { text });
                } else {
                    self.push_record(l, Event::Stdout { text });
                }
            }
        }
        assert(self@.records =~= start + stream_records(setting, text@, is_stderr));
    }

    /// Records what the post-execution channels report after a capturing run.
    fn record_output(&mut self, output: &Result<Output, IoError>)
        ensures
            final(self).cmd() == old(self).cmd(),
            final(self)@.channels == old(self)@.channels,
            final(self)@.records == old(self)@.records + output_records(
                old(self)@.channels,
                *output,
            ),
    {
        let ghost start = self@.records;
        let ghost ch = self.channels;
        if let Ok(o) = output {
            self.record_exit(o.status);
            let out = decode_lossy(o.stdout.as_slice());
            self.record_stream(self.channels.stdout, out.as_str(), false);
            let err = decode_lossy(o.stderr.as_slice());
            self.record_stream(self.channels.stderr, err.as_str(), true);
        }
        assert(self@.records =~= start + output_records(ch, *output));
    }

    /// Records what the post-execution channels report after a run without capture.
    fn record_status(&mut self, status: &Result<ExitStatus, IoError>)
        ensures
            final(self).cmd() == old(self).cmd(),
            final(self)@.channels == old(self)@.channels,
            final(self)@.records == old(self)@.records + status_records(
                old(self)@.channels,
                *status,
            ),
    {
        let ghost start = self@.records;
        if let Ok(s) = status {
            self.record_exit(*s);
        }
        assert(self@.records =~= start + status_records(self@.channels, *status));
    }
}

impl<S: Copy> HasCommand for CommandObserver<S> {
    closed spec fn cmd(&self) -> Command {
        self.command
    }

    fn command(&self) -> (r: &Command) {
        &self.command
    }

    fn command_mut(&mut self) -> (r: &mut Command)
        ensures
            final(self)@ == old(self)@,
    {
        &mut self.command
    }
}

impl<S: Copy> CommandWrap for CommandObserver<S> {
    fn on_spawn(&mut self)
        ensures
            final(self)@.channels == old(self)@.channels,
            final(self)@.records == old(self)@.records + pre_records(
                old(self)@.channels,
                old(self).cmd()@,
            ),
    {
        self.record_before();
    }

    fn on_output(&mut self)
        ensures
            final(self)@.channels == old(self)@.channels,
            final(self)@.records == old(self)@.records + pre_records(
                old(self)@.channels,
                old(self).cmd()@,
            ),
    {
        self.record_before();
    }

    fn on_status(&mut self)
        ensures
            final(self)@.channels == old(self)@.channels,
            final(self)@.records == old(self)@.records + pre_records(
                old(self)@.channels,
                old(self).cmd()@,
            ),
    {
        self.record_before();
    }

    /// A spawned child has no outcome yet: nothing is recorded.
    #[allow(unused_variables)]
    fn after_spawn<C>(&mut self, child: &Result<C, IoError>)
        ensures
            final(self)@ == old(self)@,
    {
    }

    fn after_output(&mut self, output: &Result<Output, IoError>)
        ensures
            final(self)@.channels == old(self)@.channels,
            final(self)@.records == old(self)@.records + output_records(
                old(self)@.channels,
                *output,
            ),
    {
        self.record_output(output);
    }

    fn after_status(&mut self, status: &Result<ExitStatus, IoError>)
        ensures
            final(self)@.channels == old(self)@.channels,
            final(self)@.records == old(self)@.records + status_records(
                old(self)@.channels,
                *status,
            ),
    {
        self.record_status(status);
    }

    fn spawn<C, F: FnOnce(&Command) -> Result<C, IoError>>(&mut self, platform: F) -> (r: Result<
        C,
        IoError,
    >)
        ensures
            final(self)@.channels == old(self)@.channels,
            final(self)@.records == old(self)@.records + pre_records(
                old(self)@.channels,
                old(self).cmd()@,
            ),
    {
        self.on_spawn();
        let child = platform(self.command());
        self.after_spawn(&child);
        child
    }

    fn output<F: FnOnce(&Command) -> Result<Output, IoError>>(&mut self, platform: F) -> (r: Result<
        Output,
        IoError,
    >)
        ensures
            final(self)@.channels == old(self)@.channels,
            final(self)@.records == old(self)@.records + pre_records(
                old(self)@.channels,
                old(self).cmd()@,
            ) + output_records(old(self)@.channels, r),
    {
        self.on_output();
        let output = platform(self.command());
        self.after_output(&output);
        output
    }

    fn status<F: FnOnce(&Command) -> Result<ExitStatus, IoError>>(&mut self, platform: F) -> (r:
        Result<ExitStatus, IoError>)
        ensures
            final(self)@.channels == old(self)@.channels,
            final(self)@.records == old(self)@.records + pre_records(
                old(self)@.channels,
                old(self).cmd()@,
            ) + status_records(old(self)@.channels, r),
    {
        self.on_status();
        let status = platform(self.command());
        self.after_status(&status);
        status
    }
}

impl<S: Copy> CommandExtCheck for CommandObserver<S> {
    fn check<F: FnOnce(&Command) -> Result<Output, IoError>>(&mut self, platform: F) -> (r: Result<
        Output,
        CommandExtError,
    >)
        ensures
            final(self)@.channels == old(self)@.channels,
            exists|o: Result<Output, IoError>|
                {
                    &&& platform.ensures((&old(self).cmd(),), o)
                    &&& #[trigger] classifies(o, r)
                    &&& final(self)@.records == old(self)@.records + pre_records(
                        old(self)@.channels,
                        old(self).cmd()@,
                    ) + output_records(old(self)@.channels, o)
                },
    {
        let outcome = self.output(platform);
        check_output(outcome)
    }
}

/// A stream channel that is on reports nothing for a stream that is blank
/// once trimmed, and otherwise exactly one record, holding the trimmed text.
pub proof fn lemma_stream_channel<S>(l: S, text: Seq<char>, is_stderr: bool)
    ensures
        trimmed(text).len() == 0 ==> stream_records(Some(l), text, is_stderr).len() == 0,
        trimmed(text).len() > 0 ==> stream_records(Some(l), text, is_stderr) == seq![
            (l, if is_stderr {
                EventView::Stderr { text: trimmed(text) }
            } else {
                EventView::Stdout { text: trimmed(text) }
            }),
        ],
        stream_records(None::<S>, text, is_stderr).len() == 0,
{
}

/// Pre-execution channels report once per terminal action, and report the
/// same content again when a second capturing run follows on an observer
/// whose command and channels are unchanged: each run's own records are the
/// pre-execution records followed by what that run's outcome reports.
pub proof fn lemma_pre_records_refire<S>(
    ch: Channels<S>,
    c: CommandView,
    start: Seq<(S, EventView)>,
    first: Result<Output, IoError>,
    second: Result<Output, IoError>,
)
    ensures
        ({
            let after_first = start + pre_records(ch, c) + output_records(ch, first);
            let after_second = after_first + pre_records(ch, c) + output_records(ch, second);
            let n = pre_records(ch, c).len();
            &&& after_first.subrange(start.len() as int, (start.len() + n) as int) == pre_records(ch, c)
            &&& after_second.subrange(after_first.len() as int, (after_first.len() + n) as int)
                == pre_records(ch, c)
            &&& after_second.len() == start.len() + 2 * n + output_records(ch, first).len()
                + output_records(ch, second).len()
        }),
{
    let after_first = start + pre_records(ch, c) + output_records(ch, first);
    let after_second = after_first + pre_records(ch, c) + output_records(ch, second);
    let n = pre_records(ch, c).len();
    assert(after_first.subrange(start.len() as int, (start.len() + n) as int) =~= pre_records(ch, c));
    assert(after_second.subrange(after_first.len() as int, (after_first.len() + n) as int) =~= pre_records(
        ch,
        c,
    ));
}

} // verus!
