use command_ext::{
    Channels, Command, CommandExtCheck, CommandExtLog, CommandExtPrint, CommandExtTrace, CommandObserver,
    CommandWrap, Event, ExitStatus, HasCommand, IoError, Level, Output, Record,
};

/// Stands in for the operating system: `echo` prints its arguments, and
/// `bash -c` knows two scripts.
fn platform(c: &Command) -> Result<Output, IoError> {
    let args: Vec<&str> = c.get_args().iter().map(|a| a.as_str()).collect();
    let exited = |stdout: &str, stderr: &str| Output {
        status: ExitStatus { code: Some(0), signal: None },
        stdout: stdout.as_bytes().to_vec(),
        stderr: stderr.as_bytes().to_vec(),
    };
    match (c.get_program(), args.as_slice()) {
        ("echo", a) => Ok(exited(&format!("{}\n", a.join(" ")), "")),
        ("bash", ["-c", "echo y 1>&2"]) => Ok(exited("", "y\n")),
        ("bash", ["-c", "echo y 1>&2; echo x;"]) => Ok(exited("x\n", "y\n")),
        _ => Err(IoError { raw_os_error: Some(2), message: "not found".to_string() }),
    }
}

fn status_only(c: &Command) -> Result<ExitStatus, IoError> {
    platform(c).map(|o| o.status)
}

fn lines<S: Copy>(records: &[Record<S>]) -> Vec<String> {
    records.iter().map(|r| r.event.message()).collect()
}

#[test]
fn mod_test_args() {
    let mut c = Command::new("echo");
    c.arg("x");
    let mut log = c.log_args(Level::Error);
    log.output(platform).unwrap();
    let records = log.take_records();
    assert_eq!(records.len(), 1);
    assert_eq!(records[0].setting, Level::Error);
    assert_eq!(lines(&records), vec!["args: echo x"]);
    assert!(log.take_records().is_empty());
}

#[test]
fn mod_test_envs() {
    let mut c = Command::new("echo");
    c.env("x", "y");
    let mut log = c.log_envs(Level::Error);
    log.output(platform).unwrap();
    assert_eq!(lines(&log.take_records()), vec!["envs: x=y"]);
}

#[test]
fn mod_test_current_dir() {
    let mut c = Command::new("echo");
    c.current_dir("/tmp/project");
    let mut log = c.log_current_dir(Level::Error);
    log.output(platform).unwrap();
    assert_eq!(lines(&log.take_records()), vec!["current_dir: /tmp/project"]);
}

#[test]
fn mod_test_status() {
    let mut c = Command::new("echo");
    c.arg("x");
    let mut log = c.log_status(Level::Error);
    log.output(platform).unwrap();
    assert_eq!(lines(&log.take_records()), vec!["status: exit status: 0"]);
}

#[test]
fn mod_test_stdout() {
    let mut c = Command::new("echo");
    c.arg("x");
    let mut log = c.log_stdout(Level::Error);
    log.output(platform).unwrap();
    assert_eq!(lines(&log.take_records()), vec!["stdout: x"]);
}

#[test]
fn mod_test_stderr() {
    let mut c = Command::new("bash");
    c.args(&["-c", "echo y 1>&2"]);
    let mut log = c.log_stderr(Level::Error);
    log.output(platform).unwrap();
    assert_eq!(lines(&log.take_records()), vec!["stderr: y"]);
}

#[test]
fn print_test_args() {
    let mut c = Command::new("echo");
    c.arg("x");
    let mut p = c.print_args();
    p.output(platform).unwrap();
    assert_eq!(lines(&p.take_records()), vec!["args: echo x"]);
}

#[test]
fn print_test_envs() {
    let mut c = Command::new("echo");
    c.env("x", "y");
    let mut p = c.print_envs();
    p.output(platform).unwrap();
    assert_eq!(lines(&p.take_records()), vec!["envs: x=y"]);
}

#[test]
fn print_test_current_dir() {
    let mut c = Command::new("echo");
    c.current_dir("/tmp/project");
    let mut p = c.print_current_dir();
    p.output(platform).unwrap();
    assert_eq!(lines(&p.take_records()), vec!["current_dir: /tmp/project"]);
}

#[test]
fn print_test_status() {
    let mut c = Command::new("echo");
    c.arg("x");
    let mut p = c.print_status();
    p.output(platform).unwrap();
    assert_eq!(lines(&p.take_records()), vec!["status: exit status: 0"]);
}

#[test]
fn print_test_stdout() {
    let mut c = Command::new("echo");
    c.arg("x");
    let mut p = c.print_stdout();
    p.output(platform).unwrap();
    assert_eq!(lines(&p.take_records()), vec!["stdout: x"]);
}

#[test]
fn print_test_stderr() {
    let mut c = Command::new("bash");
    c.args(&["-c", "echo y 1>&2"]);
    let mut p = c.print_stderr();
    p.output(platform).unwrap();
    assert_eq!(lines(&p.take_records()), vec!["stderr: y"]);
}

#[test]
fn trace_test_args() {
    let mut c = Command::new("echo");
    c.arg("x");
    let mut t = c.trace_args(Level::Error);
    t.output(platform).unwrap();
    let records = t.take_records();
    assert_eq!(records[0].setting, Level::Error);
    match &records[0].event {
        Event::Args { program, args } => {
            assert_eq!(program, "echo");
            assert_eq!(args, &vec!["x".to_string()]);
        }
        other => panic!("unexpected event {:?}", other),
    }
}

#[test]
fn trace_test_envs() {
    let mut c = Command::new("echo");
    c.env("x", "y");
    let mut t = c.trace_envs(Level::Error);
    t.output(platform).unwrap();
    assert_eq!(lines(&t.take_records()), vec!["envs: x=y"]);
}

#[test]
fn trace_test_current_dir() {
    let mut c = Command::new("echo");
    c.current_dir("/tmp/project");
    let mut t = c.trace_current_dir(Level::Error);
    t.output(platform).unwrap();
    assert_eq!(lines(&t.take_records()), vec!["current_dir: /tmp/project"]);
}

#[test]
fn trace_test_status() {
    let mut c = Command::new("echo");
    c.arg("x");
    let mut t = c.trace_status(Level::Error);
    t.output(platform).unwrap();
    assert_eq!(lines(&t.take_records()), vec!["status: exit status: 0"]);
}

#[test]
fn trace_test_stdout() {
    let mut c = Command::new("echo");
    c.arg("x");
    let mut t = c.trace_stdout(Level::Error);
    t.output(platform).unwrap();
    assert_eq!(lines(&t.take_records()), vec!["stdout: x"]);
}

#[test]
fn trace_test_stderr() {
    let mut c = Command::new("bash");
    c.args(&["-c", "echo y 1>&2"]);
    let mut t = c.trace_stderr(Level::Error);
    t.output(platform).unwrap();
    assert_eq!(lines(&t.take_records()), vec!["stderr: y"]);
}

#[test]
fn test_multi() {
    let mut c = Command::new("bash");
    c.args(&["-c", "echo y 1>&2; echo x;"]);
    let mut t = c.trace_args(Level::Debug);
    t.trace_status(Level::Info).trace_stdout(Level::Trace).trace_stderr(Level::Warn);
    t.output(platform).unwrap();
    let records = t.take_records();
    let settings: Vec<Level> = records.iter().map(|r| r.setting).collect();
    assert_eq!(settings, vec![Level::Debug, Level::Info, Level::Trace, Level::Warn]);
    assert_eq!(
        lines(&records),
        vec!["args: bash -c echo y 1>&2; echo x;", "status: exit status: 0", "stdout: x", "stderr: y"]
    );
}

#[test]
fn blank_streams_are_suppressed() {
    let mut c = Command::new("echo");
    c.arg(" \t ");
    let mut log = c.log_stdout(Level::Info);
    log.log_stderr(Level::Info);
    log.output(platform).unwrap();
    assert!(log.take_records().is_empty());
}

#[test]
fn streams_are_trimmed_and_emitted_once() {
    let mut c = Command::new("echo");
    c.args(&["  padded", "text \n"]);
    let mut log = c.log_stdout(Level::Info);
    log.output(platform).unwrap();
    assert_eq!(lines(&log.take_records()), vec!["stdout: padded text"]);
}

#[test]
fn pre_execution_channels_fire_on_every_terminal_action() {
    let mut c = Command::new("echo");
    c.arg("x").env("K", "V").current_dir("/w");
    let mut log = c.log_args(Level::Debug);
    log.log_envs(Level::Debug).log_current_dir(Level::Debug);
    log.status(status_only).unwrap();
    log.output(platform).unwrap();
    let expected = vec!["args: echo x", "envs: K=V", "current_dir: /w"];
    let got = lines(&log.take_records());
    assert_eq!(got.len(), 6);
    assert_eq!(got[..3].to_vec(), expected);
    assert_eq!(got[3..].to_vec(), expected);
}

#[test]
fn status_fires_after_both_runs() {
    let mut c = Command::new("echo");
    let mut log = c.log_status(Level::Info);
    log.status(status_only).unwrap();
    log.output(platform).unwrap();
    assert_eq!(lines(&log.take_records()), vec!["status: exit status: 0", "status: exit status: 0"]);
}

#[test]
fn failed_spawn_reports_only_pre_execution_channels() {
    let c = Command::new("missing");
    let mut log = c.log_args(Level::Warn);
    log.log_status(Level::Warn).log_stdout(Level::Warn);
    assert!(log.output(platform).is_err());
    assert_eq!(lines(&log.take_records()), vec!["args: missing "]);
}

#[test]
fn spawn_fires_pre_channels_only() {
    let mut c = Command::new("echo");
    c.arg("x");
    let mut log = c.log_args(Level::Info);
    log.log_status(Level::Info);
    let child = log.spawn(|c: &Command| Ok::<usize, IoError>(c.get_args().len()));
    assert_eq!(child.unwrap(), 1);
    assert_eq!(lines(&log.take_records()), vec!["args: echo x"]);
}

#[test]
fn explicitly_unset_variables_are_reported_empty() {
    let mut c = Command::new("echo");
    c.env_remove("GONE");
    let mut log = c.log_envs(Level::Info);
    log.output(platform).unwrap();
    assert_eq!(lines(&log.take_records()), vec!["envs: GONE="]);
}

#[test]
fn checking_through_an_observer_records_and_classifies() {
    let mut c = Command::new("echo");
    c.arg("hi");
    let mut log = c.log_stdout(Level::Info);
    let out = log.check(platform).unwrap();
    assert_eq!(out.stdout, b"hi\n".to_vec());
    assert_eq!(lines(&log.take_records()), vec!["stdout: hi"]);
    let mut missing = Command::new("missing").log_status(Level::Info);
    assert!(missing.check(platform).is_err());
    assert!(missing.take_records().is_empty());
}

#[test]
fn observer_builder_methods_reach_the_command() {
    let mut log = Command::new("echo").log_args(Level::Info);
    log.arg("a").args(&["b", "c"]).env("K", "1").current_dir("/d");
    assert_eq!(log.get_program(), "echo");
    assert_eq!(log.get_args().to_vec(), vec!["a".to_string(), "b".to_string(), "c".to_string()]);
    assert_eq!(log.get_current_dir(), Some("/d"));
    assert_eq!(log.command().get_envs().to_vec(), vec![("K".to_string(), Some("1".to_string()))]);
    let c = log.into_command();
    assert_eq!(c.get_args().len(), 3);
}

#[test]
fn channels_can_be_set_together() {
    let mut ch: Channels<Level> = Channels::silent();
    ch.args = Some(Level::Trace);
    ch.status = Some(Level::Error);
    let mut c = Command::new("echo");
    c.arg("z");
    let mut o = CommandObserver::new(c, ch);
    assert_eq!(o.channels().status, Some(Level::Error));
    o.output(platform).unwrap();
    assert_eq!(lines(&o.take_records()), vec!["args: echo z", "status: exit status: 0"]);
    o.set_channels(Channels::silent());
    o.output(platform).unwrap();
    assert!(o.take_records().is_empty());
}

#[test]
fn levels_are_ordered() {
    assert!(Level::Trace < Level::Debug);
    assert!(Level::Debug < Level::Info);
    assert!(Level::Info < Level::Warn);
    assert!(Level::Warn < Level::Error);
}
