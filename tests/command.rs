use command_ext::command::BuilderCall;
use command_ext::{Command, CommandWrap, Stdio};

fn envs(c: &Command) -> Vec<(String, Option<String>)> {
    c.get_envs().to_vec()
}

fn entry(k: &str, v: Option<&str>) -> (String, Option<String>) {
    (k.to_string(), v.map(|v| v.to_string()))
}

#[test]
fn new_command_is_bare() {
    let c = Command::new("ls");
    assert_eq!(c.get_program(), "ls");
    assert!(c.get_args().is_empty());
    assert!(envs(&c).is_empty());
    assert!(!c.get_env_cleared());
    assert_eq!(c.get_current_dir(), None);
    assert_eq!(c.get_stdin(), None);
    assert_eq!(c.get_stdout(), None);
    assert_eq!(c.get_stderr(), None);
}

#[test]
fn set_then_remove_leaves_variable_unset() {
    let mut c = Command::new("ls");
    c.env("X", "1").env_remove("X");
    assert_eq!(envs(&c), vec![entry("X", None)]);
}

#[test]
fn remove_after_clear_drops_the_entry() {
    let mut c = Command::new("ls");
    c.env_clear().env("X", "1").env_remove("X");
    assert!(envs(&c).is_empty());
    assert!(c.get_env_cleared());
}

#[test]
fn overwriting_keeps_first_position() {
    let mut c = Command::new("ls");
    c.env("A", "1").env("B", "2").env("A", "3");
    assert_eq!(envs(&c), vec![entry("A", Some("3")), entry("B", Some("2"))]);
    c.envs(&[("B", "4"), ("C", "5"), ("B", "6")]);
    assert_eq!(envs(&c), vec![entry("A", Some("3")), entry("B", Some("6")), entry("C", Some("5"))]);
}

#[test]
fn clear_forgets_explicit_entries() {
    let mut c = Command::new("ls");
    c.env("A", "1").env_remove("B").env_clear();
    assert!(envs(&c).is_empty());
    c.env_remove("C");
    assert!(envs(&c).is_empty());
}

#[test]
fn args_keep_their_order() {
    let mut c = Command::new("sh");
    c.arg("-C").arg("/path/to/repo").args(&["x", "y"]).args(&[]);
    assert_eq!(c.get_args().to_vec(), vec!["-C", "/path/to/repo", "x", "y"]);
}

#[test]
fn stdio_and_dir_read_back() {
    let mut c = Command::new("cat");
    c.stdin(Stdio::Null).stdout(Stdio::Piped).stderr(Stdio::Fd(7)).current_dir("/a").current_dir("/b");
    assert_eq!(c.get_stdin(), Some(Stdio::Null));
    assert_eq!(c.get_stdout(), Some(Stdio::Piped));
    assert_eq!(c.get_stderr(), Some(Stdio::Fd(7)));
    assert_eq!(c.get_current_dir(), Some("/b"));
    c.stdout(Stdio::Inherit);
    assert_eq!(c.get_stdout(), Some(Stdio::Inherit));
}

#[test]
fn replayed_calls_give_the_net_configuration() {
    let args = ["b", "c"];
    let vars = [("Y", "2"), ("Z", "3")];
    let calls = [
        BuilderCall::Arg("a"),
        BuilderCall::Args(&args),
        BuilderCall::Env("X", "1"),
        BuilderCall::Envs(&vars),
        BuilderCall::EnvRemove("X"),
        BuilderCall::CurrentDir("/w"),
        BuilderCall::Stdin(Stdio::Null),
        BuilderCall::Stdout(Stdio::Piped),
        BuilderCall::Stderr(Stdio::Inherit),
    ];
    let mut c = Command::new("prog");
    c.configure(&calls);
    assert_eq!(c.get_args().to_vec(), vec!["a", "b", "c"]);
    assert_eq!(envs(&c), vec![entry("X", None), entry("Y", Some("2")), entry("Z", Some("3"))]);
    assert_eq!(c.get_current_dir(), Some("/w"));
    assert_eq!(c.get_stdin(), Some(Stdio::Null));
    assert_eq!(c.get_stdout(), Some(Stdio::Piped));
    assert_eq!(c.get_stderr(), Some(Stdio::Inherit));

    let mut d = Command::new("prog");
    d.arg("a").args(&args).env("X", "1").envs(&vars).env_remove("X").current_dir("/w");
    assert_eq!(d.get_args(), c.get_args());
    assert_eq!(envs(&d), envs(&c));

    let mut e = Command::new("prog");
    e.configure(&[BuilderCall::Env("Q", "1"), BuilderCall::EnvClear, BuilderCall::Env("R", "2")]);
    assert_eq!(envs(&e), vec![entry("R", Some("2"))]);
    assert!(e.get_env_cleared());
}

#[test]
fn independent_commands_share_nothing() {
    let mut a = Command::new("a");
    let b = Command::new("a");
    a.arg("x").env("K", "V").current_dir("/a").stdout(Stdio::Null);
    assert!(b.get_args().is_empty());
    assert!(envs(&b).is_empty());
    assert_eq!(b.get_current_dir(), None);
    assert_eq!(b.get_stdout(), None);
    let mut wrapped = Command::new("a");
    wrapped.configure(&[BuilderCall::Arg("y")]);
    assert_eq!(a.get_args().to_vec(), vec!["x"]);
    assert_eq!(wrapped.get_args().to_vec(), vec!["y"]);
}
