//! The command specification: program, arguments, explicit environment,
//! working directory and stdio redirection targets of a prospective process.
use vstd::prelude::*;

verus! {

/// Where one of the child's standard streams goes.
#[derive(Clone, Copy, Debug, PartialEq, Eq, Structural)]
pub enum Stdio {
    /// The stream is shared with the parent.
    Inherit,
    /// The stream is connected to the null device.
    Null,
    /// A pipe is set up between parent and child.
    Piped,
    /// The stream is redirected to an open file descriptor.
    Fd(i32),
}

/// One explicit environment entry: a name, and `None` where the variable is
/// explicitly unset.
pub type EnvEntry = (Seq<char>, Option<Seq<char>>);

/// No two explicit environment entries share a name.
pub open spec fn keys_unique(e: Seq<EnvEntry>) -> bool {
    forall|i: int, j: int| 0 <= i < j < e.len() ==> e[i].0 != e[j].0
}

pub open spec fn has_key(e: Seq<EnvEntry>, k: Seq<char>) -> bool {
    exists|i: int| 0 <= i < e.len() && e[i].0 == k
}

/// `i` is the first position of an entry named `k`.
pub open spec fn first_pos(e: Seq<EnvEntry>, k: Seq<char>, i: int) -> bool {
    &&& 0 <= i < e.len()
    &&& e[i].0 == k
    &&& forall|j: int| 0 <= j < i ==> e[j].0 != k
}

/// The position of the entry named `k` (meaningful where `has_key(e, k)`).
pub open spec fn key_pos(e: Seq<EnvEntry>, k: Seq<char>) -> int {
    choose|i: int| first_pos(e, k, i)
}

/// Sets the entry named `k` to `v`: in place where it exists, else at the end.
pub open spec fn set_entry(e: Seq<EnvEntry>, k: Seq<char>, v: Option<Seq<char>>) -> Seq<EnvEntry> {
    if has_key(e, k) {
        e.update(key_pos(e, k), (k, v))
    } else {
        e.push((k, v))
    }
}

/// Drops the entry named `k`, if there is one.
pub open spec fn drop_entry(e: Seq<EnvEntry>, k: Seq<char>) -> Seq<EnvEntry> {
    if has_key(e, k) {
        e.remove(key_pos(e, k))
    } else {
        e
    }
}

/// The mathematical value of a [`Command`].
pub struct CommandView {
    pub program: Seq<char>,
    pub args: Seq<Seq<char>>,
    /// Explicit environment entries, in the order in which each name was first set.
    pub envs: Seq<EnvEntry>,
    /// Whether the parent's environment is no longer inherited.
    pub env_cleared: bool,
    pub current_dir: Option<Seq<char>>,
    pub stdin: Option<Stdio>,
    pub stdout: Option<Stdio>,
    pub stderr: Option<Stdio>,
}

impl CommandView {
    pub open spec fn init(program: Seq<char>) -> CommandView {
        CommandView {
            program,
            args: Seq::empty(),
            envs: Seq::empty(),
            env_cleared: false,
            current_dir: None,
            stdin: None,
            stdout: None,
            stderr: None,
        }
    }

    pub open spec fn with_arg(self, a: Seq<char>) -> CommandView {
        CommandView { args: self.args.push(a), ..self }
    }

    pub open spec fn with_args(self, a: Seq<Seq<char>>) -> CommandView {
        CommandView { args: self.args + a, ..self }
    }

    pub open spec fn with_env(self, k: Seq<char>, v: Seq<char>) -> CommandView {
        CommandView { envs: set_entry(self.envs, k, Some(v)), ..self }
    }

    /// Sets each pair in turn, first to last.
    pub open spec fn with_envs(self, vars: Seq<(Seq<char>, Seq<char>)>) -> CommandView
        decreases vars.len(),
    {
        if vars.len() == 0 {
            self
        } else {
            self.with_envs(vars.drop_last()).with_env(vars.last().0, vars.last().1)
        }
    }

    /// Once the environment is cleared a removal only drops the entry; before
    /// that it records the name as explicitly unset.
    pub open spec fn without_env(self, k: Seq<char>) -> CommandView {
        if self.env_cleared {
            CommandView { envs: drop_entry(self.envs, k), ..self }
        } else {
            CommandView { envs: set_entry(self.envs, k, None), ..self }
        }
    }

    pub open spec fn cleared_env(self) -> CommandView {
        CommandView { envs: Seq::empty(), env_cleared: true, ..self }
    }

    pub open spec fn with_current_dir(self, d: Seq<char>) -> CommandView {
        CommandView { current_dir: Some(d), ..self }
    }

    pub open spec fn with_stdin(self, s: Stdio) -> CommandView {
        CommandView { stdin: Some(s), ..self }
    }

    pub open spec fn with_stdout(self, s: Stdio) -> CommandView {
        CommandView { stdout: Some(s), ..self }
    }

    pub open spec fn with_stderr(self, s: Stdio) -> CommandView {
        CommandView { stderr: Some(s), ..self }
    }
}

/// A prospective process invocation, configured step by step.
pub struct Command {
    program: String,
    args: Vec<String>,
    envs: Vec<(String, Option<String>)>,
    env_cleared: bool,
    current_dir: Option<String>,
    stdin: Option<Stdio>,
    stdout: Option<Stdio>,
    stderr: Option<Stdio>,
}

impl View for Command {
    type V = CommandView;

    closed spec fn view(&self) -> CommandView {
        CommandView {
            program: self.program@,
            args: self.args.deep_view(),
            envs: self.envs.deep_view(),
            env_cleared: self.env_cleared,
            current_dir: self.current_dir.deep_view(),
            stdin: self.stdin,
            stdout: self.stdout,
            stderr: self.stderr,
        }
    }
}


impl Command {
    /// A command for `program`, with nothing else configured.
    pub fn new(program: &str) -> (r: Command)
        ensures
            r@ == CommandView::init(program@),
    {
        let r = Command {
            program: program.to_owned(),
            args: Vec::new(),
            envs: Vec::new(),
            env_cleared: false,
            current_dir: None,
            stdin: None,
            stdout: None,
            stderr: None,
        };
        assert(r@.args =~= Seq::<Seq<char>>::empty());
        assert(r@.envs =~= Seq::<EnvEntry>::empty());
        r
    }

    /// The position of the explicit entry named `key`.
    fn find_env(&self, key: &String) -> (r: Option<usize>)
        ensures
            match r {
                Some(i) => {
                    &&& first_pos(self@.envs, key@, i as int)
                    &&& has_key(self@.envs, key@)
                    &&& i as int == key_pos(self@.envs, key@)
                },
                None => !has_key(self@.envs, key@),
            },
            self@.envs.len() == self.envs@.len(),
    {
        let ghost e = self@.envs;
        let mut i: usize = 0;
        while i < self.envs.len()
            invariant
                e == self@.envs,
                e.len() == self.envs@.len(),
                i <= e.len(),
                forall|j: int| 0 <= j < i ==> e[j].0 != key@,
            decreases self.envs.len() - i,
        {
            if self.envs[i].0 == *key {
                proof {
                    assert(first_pos(e, key@, i as int));
                    let p = key_pos(e, key@);
                    assert(first_pos(e, key@, p));
                    assert(p == i as int);
                }
                return Some(i);
            }
            i = i + 1;
        }
        None
    }

    /// Sets the explicit entry named `key` to `val`.
    fn put_env(&mut self, key: String, val: Option<String>)
        ensures
            final(self)@ == (CommandView { envs: set_entry(old(self)@.envs, key@, val.deep_view()), ..old(self)@ }),
    {
        let ghost e = self@.envs;
        let ghost k = key@;
        let ghost v = val.deep_view();
        match self.find_env(&key) {
            Some(i) => {
                self.envs.set(i, (key, val));
                assert(self@.envs =~= e.update(i as int, (k, v)));
            },
            None => {
                self.envs.push((key, val));
                assert(self@.envs =~= e.push((k, v)));
            },
        }
    }

    /// Appends one argument.
    pub fn arg(&mut self, arg: &str) -> (r: &mut Command)
        ensures
            r@ == old(self)@.with_arg(arg@),
            *final(self) == *final(r),
    {
        let ghost before = self@;
        self.args.push(arg.to_owned());
        assert(self@.args =~= before.args.push(arg@));
        self
    }

    /// Appends the arguments in order.
    pub fn args(&mut self, args: &[&str]) -> (r: &mut Command)
        ensures
            r@ == old(self)@.with_args(args@.map_values(|a: &str| a@)),
            *final(self) == *final(r),
    {
        let ghost before = self@;
        let ghost all = args@.map_values(|a: &str| a@);
        let mut i: usize = 0;
        while i < args.len()
            invariant
                i <= args@.len(),
                all == args@.map_values(|a: &str| a@),
                self@ == before.with_args(all.take(i as int)),
            decreases args.len() - i,
        {
            let ghost mid = self@;
            self.args.push(args[i].to_owned());
            assert(all.take(i + 1) =~= all.take(i as int).push(args@[i as int]@));
            assert(self@.args =~= mid.args.push(args@[i as int]@));
            i = i + 1;
        }
        assert(all.take(i as int) =~= all);
        self
    }

    /// Sets (or overwrites) the explicit value of `key`.
    pub fn env(&mut self, key: &str, val: &str) -> (r: &mut Command)
        ensures
            r@ == old(self)@.with_env(key@, val@),
            *final(self) == *final(r),
    {
        self.put_env(key.to_owned(), Some(val.to_owned()));
        self
    }

    /// Sets each pair in turn.
    pub fn envs(&mut self, vars: &[(&str, &str)]) -> (r: &mut Command)
        ensures
            r@ == old(self)@.with_envs(vars@.map_values(|p: (&str, &str)| (p.0@, p.1@))),
            *final(self) == *final(r),
    {
        let ghost before = self@;
        let ghost all = vars@.map_values(|p: (&str, &str)| (p.0@, p.1@));
        let mut i: usize = 0;
        while i < vars.len()
            invariant
                i <= vars@.len(),
                all == vars@.map_values(|p: (&str, &str)| (p.0@, p.1@)),
                self@ == before.with_envs(all.take(i as int)),
            decreases vars.len() - i,
        {
            let (k, v) = vars[i];
            self.env(k, v);
            assert(all.take(i + 1).drop_last() =~= all.take(i as int));
            i = i + 1;
        }
        assert(all.take(i as int) =~= all);
        self
    }

    /// Removes the explicit value of `key` and stops it being inherited.
    pub fn env_remove(&mut self, key: &str) -> (r: &mut Command)
        ensures
            r@ == old(self)@.without_env(key@),
            *final(self) == *final(r),
    {
        let k = key.to_owned();
        if self.env_cleared {
            let ghost e = self@.envs;
            match self.find_env(&k) {
                Some(i) => {
                    self.envs.remove(i);
                    assert(self@.envs =~= e.remove(i as int));
                },
                None => {},
            }
        } else {
            self.put_env(k, None);
        }
        self
    }

    /// Drops every explicit entry and stops the whole environment being inherited.
    pub fn env_clear(&mut self) -> (r: &mut Command)
        ensures
            r@ == old(self)@.cleared_env(),
            *final(self) == *final(r),
    {
        self.envs = Vec::new();
        self.env_cleared = true;
        assert(self@.envs =~= Seq::<EnvEntry>::empty());
        self
    }

    /// Sets the child's working directory.
    pub fn current_dir(&mut self, dir: &str) -> (r: &mut Command)
        ensures
            r@ == old(self)@.with_current_dir(dir@),
            *final(self) == *final(r),
    {
        self.current_dir = Some(dir.to_owned());
        self
    }

    /// Configures the child's standard input.
    pub fn stdin(&mut self, cfg: Stdio) -> (r: &mut Command)
        ensures
            r@ == old(self)@.with_stdin(cfg),
            *final(self) == *final(r),
    {
        self.stdin = Some(cfg);
        self
    }

    /// Configures the child's standard output.
    pub fn stdout(&mut self, cfg: Stdio) -> (r: &mut Command)
        ensures
            r@ == old(self)@.with_stdout(cfg),
            *final(self) == *final(r),
    {
        self.stdout = Some(cfg);
        self
    }

    /// Configures the child's standard error.
    pub fn stderr(&mut self, cfg: Stdio) -> (r: &mut Command)
        ensures
            r@ == old(self)@.with_stderr(cfg),
            *final(self) == *final(r),
    {
        self.stderr = Some(cfg);
        self
    }

    /// The program to run.
    pub fn get_program(&self) -> (r: &str)
        ensures
            r@ == self@.program,
    {
        self.program.as_str()
    }

    /// The arguments, without the program.
    pub fn get_args(&self) -> (r: &[String])
        ensures
            r@.map_values(|a: String| a@) == self@.args,
    {
        let r = self.args.as_slice();
        assert(r@.map_values(|a: String| a@) =~= self@.args);
        r
    }

    /// The explicit environment entries, in the order in which each name was first set.
    pub fn get_envs(&self) -> (r: &[(String, Option<String>)])
        ensures
            r@.map_values(|e: (String, Option<String>)| e.deep_view()) == self@.envs,
    {
        let r = self.envs.as_slice();
        assert(r@.map_values(|e: (String, Option<String>)| e.deep_view()) =~= self@.envs);
        r
    }

    /// Whether the parent's environment is no longer inherited.
    pub fn get_env_cleared(&self) -> (r: bool)
        ensures
            r == self@.env_cleared,
    {
        self.env_cleared
    }

    /// The working directory, if one is set.
    pub fn get_current_dir(&self) -> (r: Option<&str>)
        ensures
            match r {
                Some(d) => self@.current_dir == Some(d@),
                None => self@.current_dir.is_none(),
            },
    {
        match &self.current_dir {
            Some(d) => Some(d.as_str()),
            None => None,
        }
    }

    /// The configured stdin, if any.
    pub fn get_stdin(&self) -> (r: Option<Stdio>)
        ensures
            r == self@.stdin,
    {
        self.stdin
    }

    /// The configured stdout, if any.
    pub fn get_stdout(&self) -> (r: Option<Stdio>)
        ensures
            r == self@.stdout,
    {
        self.stdout
    }

    /// The configured stderr, if any.
    pub fn get_stderr(&self) -> (r: Option<Stdio>)
        ensures
            r == self@.stderr,
    {
        self.stderr
    }
}

/// One builder-method call, recorded so that a configuration can be replayed.
pub enum BuilderCall<'a> {
    Arg(&'a str),
    Args(&'a [&'a str]),
    Env(&'a str, &'a str),
    Envs(&'a [(&'a str, &'a str)]),
    EnvRemove(&'a str),
    EnvClear,
    CurrentDir(&'a str),
    Stdin(Stdio),
    Stdout(Stdio),
    Stderr(Stdio),
}

/// The configuration after `call` is made on a command configured as `v`.
pub open spec fn apply_call(v: CommandView, call: BuilderCall) -> CommandView {
    match call {
        BuilderCall::Arg(a) => v.with_arg(a@),
        BuilderCall::Args(a) => v.with_args(a@.map_values(|x: &str| x@)),
        BuilderCall::Env(k, x) => v.with_env(k@, x@),
        BuilderCall::Envs(vars) => v.with_envs(vars@.map_values(|p: (&str, &str)| (p.0@, p.1@))),
        BuilderCall::EnvRemove(k) => v.without_env(k@),
        BuilderCall::EnvClear => v.cleared_env(),
        BuilderCall::CurrentDir(d) => v.with_current_dir(d@),
        BuilderCall::Stdin(s) => v.with_stdin(s),
        BuilderCall::Stdout(s) => v.with_stdout(s),
        BuilderCall::Stderr(s) => v.with_stderr(s),
    }
}

/// The configuration after `calls` are made in order, first to last.
pub open spec fn replay(v: CommandView, calls: Seq<BuilderCall>) -> CommandView
    decreases calls.len(),
{
    if calls.len() == 0 {
        v
    } else {
        apply_call(replay(v, calls.drop_last()), calls.last())
    }
}

/// The explicit environment as a map from name to value (`None`: unset).
pub open spec fn env_map(e: Seq<EnvEntry>) -> Map<Seq<char>, Option<Seq<char>>> {
    Map::new(|k: Seq<char>| has_key(e, k), |k: Seq<char>| e[key_pos(e, k)].1)
}

proof fn lemma_unique_first(e: Seq<EnvEntry>, k: Seq<char>, i: int)
    requires
        keys_unique(e),
        0 <= i < e.len(),
        e[i].0 == k,
    ensures
        has_key(e, k),
        key_pos(e, k) == i,
{
    assert(first_pos(e, k, i));
    let p = key_pos(e, k);
    assert(first_pos(e, k, p));
}

/// Setting a name keeps names unique and acts on the environment as a map
/// insertion.
pub proof fn lemma_set_entry(e: Seq<EnvEntry>, k: Seq<char>, v: Option<Seq<char>>)
    requires
        keys_unique(e),
    ensures
        keys_unique(set_entry(e, k, v)),
        env_map(set_entry(e, k, v)) == env_map(e).insert(k, v),
{
    let e2 = set_entry(e, k, v);
    if has_key(e, k) {
        let j = choose|j: int| 0 <= j < e.len() && e[j].0 == k;
        lemma_unique_first(e, k, j);
    }
    assert(keys_unique(e2));
    assert forall|k2: Seq<char>| has_key(e2, k2) == (has_key(e, k2) || k2 == k) by {
        if k2 == k {
            if !has_key(e, k) {
                assert(e2[e.len() as int].0 == k);
            } else {
                assert(e2[key_pos(e, k)].0 == k);
            }
        }
        if has_key(e, k2) && k2 != k {
            let j = choose|j: int| 0 <= j < e.len() && e[j].0 == k2;
            assert(e2[j].0 == k2);
        }
        if has_key(e2, k2) && k2 != k {
            let j = choose|j: int| 0 <= j < e2.len() && e2[j].0 == k2;
            assert(e[j].0 == k2);
        }
    }
    assert forall|k2: Seq<char>| has_key(e2, k2) implies e2[key_pos(e2, k2)].1 == (if k2 == k {
        v
    } else {
        e[key_pos(e, k2)].1
    }) by {
        if k2 == k {
            if has_key(e, k) {
                lemma_unique_first(e2, k, key_pos(e, k));
            } else {
                lemma_unique_first(e2, k, e.len() as int);
            }
        } else {
            let j = choose|j: int| 0 <= j < e.len() && e[j].0 == k2;
            lemma_unique_first(e, k2, j);
            lemma_unique_first(e2, k2, j);
        }
    }
    assert(env_map(e2) =~= env_map(e).insert(k, v));
}

/// Dropping a name keeps names unique and acts on the environment as a map
/// removal.
pub proof fn lemma_drop_entry(e: Seq<EnvEntry>, k: Seq<char>)
    requires
        keys_unique(e),
    ensures
        keys_unique(drop_entry(e, k)),
        env_map(drop_entry(e, k)) == env_map(e).remove(k),
{
    let e2 = drop_entry(e, k);
    if has_key(e, k) {
        let j0 = choose|j: int| 0 <= j < e.len() && e[j].0 == k;
        lemma_unique_first(e, k, j0);
        let p = key_pos(e, k);
        assert forall|i: int| 0 <= i < e2.len() implies e2[i] == (if i < p {
            e[i]
        } else {
            e[i + 1]
        }) by {}
        assert forall|k2: Seq<char>| has_key(e2, k2) == (has_key(e, k2) && k2 != k) by {
            if has_key(e, k2) && k2 != k {
                let j = choose|j: int| 0 <= j < e.len() && e[j].0 == k2;
                if j < p {
                    assert(e2[j].0 == k2);
                } else {
                    assert(j != p);
                    assert(e2[j - 1].0 == k2);
                }
            }
            if has_key(e2, k2) {
                let j = choose|j: int| 0 <= j < e2.len() && e2[j].0 == k2;
                if j < p {
                    assert(e[j].0 == k2);
                } else {
                    assert(e[j + 1].0 == k2);
                }
            }
        }
        assert forall|k2: Seq<char>| has_key(e2, k2) implies e2[key_pos(e2, k2)].1 == e[key_pos(
            e,
            k2,
        )].1 by {
            let j = choose|j: int| 0 <= j < e.len() && e[j].0 == k2;
            lemma_unique_first(e, k2, j);
            if j < p {
                lemma_unique_first(e2, k2, j);
            } else {
                lemma_unique_first(e2, k2, j - 1);
            }
        }
        assert(env_map(e2) =~= env_map(e).remove(k));
    } else {
        assert(env_map(e2) =~= env_map(e).remove(k));
    }
}

/// Setting a variable and then removing it leaves it explicitly unset, not
/// set, unless the environment was cleared, in which case no entry is left.
pub proof fn lemma_set_then_remove(v: CommandView, k: Seq<char>, x: Seq<char>)
    requires
        keys_unique(v.envs),
    ensures
        v.env_cleared ==> !env_map(v.with_env(k, x).without_env(k).envs).contains_key(k),
        !v.env_cleared ==> env_map(v.with_env(k, x).without_env(k).envs).index(k) == None::<
            Seq<char>,
        >,
        !v.env_cleared ==> env_map(v.with_env(k, x).without_env(k).envs).contains_key(k),
{
    lemma_set_entry(v.envs, k, Some(x));
    let e1 = set_entry(v.envs, k, Some(x));
    lemma_set_entry(e1, k, None);
    lemma_drop_entry(e1, k);
}

/// The environment map after setting each pair in turn.
pub open spec fn map_with_envs(
    m: Map<Seq<char>, Option<Seq<char>>>,
    vars: Seq<(Seq<char>, Seq<char>)>,
) -> Map<Seq<char>, Option<Seq<char>>>
    decreases vars.len(),
{
    if vars.len() == 0 {
        m
    } else {
        map_with_envs(m, vars.drop_last()).insert(vars.last().0, Some(vars.last().1))
    }
}

/// The environment, as a map, and whether inheritance is off, after `call`:
/// a set inserts a value, a removal inserts `None` (or, once the environment
/// is cleared, removes the name), and a clear empties the map.
pub open spec fn map_call(
    m: Map<Seq<char>, Option<Seq<char>>>,
    cleared: bool,
    call: BuilderCall,
) -> (Map<Seq<char>, Option<Seq<char>>>, bool) {
    match call {
        BuilderCall::Env(k, x) => (m.insert(k@, Some(x@)), cleared),
        BuilderCall::Envs(vars) => (
            map_with_envs(m, vars@.map_values(|p: (&str, &str)| (p.0@, p.1@))),
            cleared,
        ),
        BuilderCall::EnvRemove(k) => if cleared {
            (m.remove(k@), cleared)
        } else {
            (m.insert(k@, None), cleared)
        },
        BuilderCall::EnvClear => (Map::empty(), true),
        _ => (m, cleared),
    }
}

/// The environment map, and whether inheritance is off, after `calls` in order.
pub open spec fn map_replay(
    m: Map<Seq<char>, Option<Seq<char>>>,
    cleared: bool,
    calls: Seq<BuilderCall>,
) -> (Map<Seq<char>, Option<Seq<char>>>, bool)
    decreases calls.len(),
{
    if calls.len() == 0 {
        (m, cleared)
    } else {
        let prev = map_replay(m, cleared, calls.drop_last());
        map_call(prev.0, prev.1, calls.last())
    }
}

proof fn lemma_with_envs_map(v: CommandView, vars: Seq<(Seq<char>, Seq<char>)>)
    requires
        keys_unique(v.envs),
    ensures
        keys_unique(v.with_envs(vars).envs),
        env_map(v.with_envs(vars).envs) == map_with_envs(env_map(v.envs), vars),
        v.with_envs(vars).env_cleared == v.env_cleared,
    decreases vars.len(),
{
    if vars.len() > 0 {
        lemma_with_envs_map(v, vars.drop_last());
        lemma_set_entry(v.with_envs(vars.drop_last()).envs, vars.last().0, Some(vars.last().1));
    }
}

/// Whatever builder calls are made, the explicit environment read back as a
/// map is the net effect of the same calls made on a plain map: the last set
/// or removal of a name decides its entry, and a clear forgets all before it.
pub proof fn lemma_replay_env_map(v: CommandView, calls: Seq<BuilderCall>)
    requires
        keys_unique(v.envs),
    ensures
        keys_unique(replay(v, calls).envs),
        (env_map(replay(v, calls).envs), replay(v, calls).env_cleared) == map_replay(
            env_map(v.envs),
            v.env_cleared,
            calls,
        ),
    decreases calls.len(),
{
    if calls.len() > 0 {
        let w = replay(v, calls.drop_last());
        lemma_replay_env_map(v, calls.drop_last());
        match calls.last() {
            BuilderCall::Env(k, x) => lemma_set_entry(w.envs, k@, Some(x@)),
            BuilderCall::Envs(vars) => lemma_with_envs_map(
                w,
                vars@.map_values(|p: (&str, &str)| (p.0@, p.1@)),
            ),
            BuilderCall::EnvRemove(k) => {
                lemma_set_entry(w.envs, k@, None);
                lemma_drop_entry(w.envs, k@);
            },
            BuilderCall::EnvClear => {
                assert(env_map(Seq::<EnvEntry>::empty()) =~= Map::empty());
            },
            _ => {},
        }
    }
}

} // verus!
