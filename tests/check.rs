use command_ext::check::check_output;
use command_ext::{Command, CommandExtCheck, CommandExtError, CommandWrap, ExitStatus, IoError, Output};

fn exited(code: i32, stdout: &[u8], stderr: &[u8]) -> Output {
    Output {
        status: ExitStatus { code: Some(code), signal: None },
        stdout: stdout.to_vec(),
        stderr: stderr.to_vec(),
    }
}

/// Stands in for the operating system: knows `echo` and `false`, and nothing else.
fn platform(c: &Command) -> Result<Output, IoError> {
    match c.get_program() {
        "echo" => {
            let args: Vec<&str> = c.get_args().iter().map(|a| a.as_str()).collect();
            Ok(exited(0, format!("{}\n", args.join(" ")).as_bytes(), b""))
        }
        "false" => Ok(exited(1, b"", b"")),
        _ => Err(IoError {
            raw_os_error: Some(2),
            message: "No such file or directory (os error 2)".to_string(),
        }),
    }
}

#[test]
fn test_success() {
    let mut c = Command::new("echo");
    c.arg("x");
    match c.check(platform) {
        Ok(output) => assert_eq!(String::from_utf8_lossy(&output.stdout), "x\n", "Output mismatch"),
        Err(e) => panic!("Unexpected error from command: {}", e.message()),
    }
}

#[test]
fn test_nocmd() {
    let mut c = Command::new("asdfasdfasdfasdfjkljkljkl");
    match c.check(platform) {
        Ok(output) => panic!("Unexpected success from command: {:?}", output),
        Err(e) => assert!(matches!(e, CommandExtError::StdIoError(_))),
    }
}

#[test]
fn test_failure() {
    let mut c = Command::new("false");
    match c.check(platform) {
        Ok(output) => panic!("Unexpected success from command: {:?}", output),
        Err(e) => assert!(matches!(
            e,
            CommandExtError::Check {
                status: _,
                stdout: _,
                stderr: _
            }
        )),
    }
}

#[test]
fn failure_carries_exact_status_and_streams() {
    let r = check_output(Ok(exited(3, b"out\n", b"bad\xffbyte")));
    match r {
        Err(CommandExtError::Check { status, stdout, stderr }) => {
            assert_eq!(status.code, Some(3));
            assert_eq!(stdout, "out\n");
            assert_eq!(stderr, "bad\u{fffd}byte");
        }
        other => panic!("unexpected: {:?}", other),
    }
}

#[test]
fn killed_by_signal_is_a_failure() {
    let out = Output { status: ExitStatus { code: None, signal: Some(9) }, stdout: vec![], stderr: vec![] };
    let r = check_output(Ok(out));
    match r {
        Err(e) => {
            assert_eq!(e.message(), "Command failed with status (signal: 9), stdout (), stderr ()");
        }
        Ok(_) => panic!("a signalled process is no success"),
    }
}

#[test]
fn success_keeps_output_bytes() {
    let r = check_output(Ok(exited(0, b"\xff\n", b"warn"))).unwrap();
    assert_eq!(r.stdout, b"\xff\n".to_vec());
    assert_eq!(r.stderr, b"warn".to_vec());
}

#[test]
fn spawn_failure_is_never_a_check_error() {
    let e = IoError { raw_os_error: Some(13), message: "Permission denied".to_string() };
    match check_output(Err(e)) {
        Err(CommandExtError::StdIoError(e)) => {
            assert_eq!(e.raw_os_error, Some(13));
            assert_eq!(e.message, "Permission denied");
        }
        other => panic!("unexpected: {:?}", other),
    }
}

#[test]
fn check_error_message_reads_like_a_diagnostic() {
    let mut c = Command::new("false");
    let e = c.check(platform).unwrap_err();
    assert_eq!(e.message(), "Command failed with status (exit status: 1), stdout (), stderr ()");
    let io: CommandExtError = IoError { raw_os_error: None, message: "gone".to_string() }.into();
    assert_eq!(io.message(), "gone");
}

#[test]
fn default_hooks_hand_back_the_platform_result() {
    let mut c = Command::new("echo");
    c.args(&["a", "b"]);
    let direct = platform(&c).unwrap();
    let wrapped = CommandWrap::output(&mut c, platform).unwrap();
    assert_eq!(direct.status, wrapped.status);
    assert_eq!(direct.stdout, wrapped.stdout);
    assert_eq!(direct.stderr, wrapped.stderr);
    let status = CommandWrap::status(&mut c, |c: &Command| platform(c).map(|o| o.status)).unwrap();
    assert!(status.success());
    let child = CommandWrap::spawn(&mut c, |c: &Command| Ok::<String, IoError>(c.get_program().to_string()));
    assert_eq!(child.unwrap(), "echo");
    let missing = CommandWrap::output(&mut Command::new("nothing-here"), platform);
    assert!(missing.is_err());
}

#[test]
fn exit_status_reads() {
    assert_eq!(ExitStatus { code: Some(0), signal: None }.describe(), "exit status: 0");
    assert_eq!(ExitStatus { code: Some(-12), signal: None }.describe(), "exit status: -12");
    assert_eq!(ExitStatus { code: Some(i32::MIN), signal: None }.describe(), "exit status: -2147483648");
    assert_eq!(ExitStatus { code: None, signal: Some(15) }.describe(), "signal: 15");
    assert_eq!(ExitStatus { code: None, signal: None }.describe(), "exit status: unknown");
    assert!(ExitStatus { code: Some(0), signal: None }.success());
    assert!(!ExitStatus { code: Some(1), signal: None }.success());
    assert_eq!(ExitStatus { code: Some(4), signal: None }.code(), Some(4));
}
