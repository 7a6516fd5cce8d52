//! External command runner trait, its result types, and the mock runner.
//!
//! The trait abstracts every external command the library issues (tmux,
//! ssh, ssh-add, ssh-keygen, gzip). Each method's contract ties its reply to
//! a spec relation of the implementing type, so that a caller's contract can
//! state which command it issued and what it made of the reply.

use vstd::prelude::*;

use crate::error::Error;
use crate::text::{
    concat2, i32_to_string, int_decimal, join, lines, lines_str, owned, push_str, str_eq,
    string_from, strviews, sviews, trim, trim_str, vviews,
};

verus! {

/// Output from an external command execution.
#[derive(Debug, Clone)]
pub struct CommandOutput {
    /// Process exit code (0 = success).
    pub exit_code: i32,
    /// Captured stdout content.
    pub stdout: String,
    /// Captured stderr content.
    pub stderr: String,
}

/// Result of `ssh-add -l` listing agent keys.
#[derive(Debug, Clone)]
pub struct AgentListResult {
    /// Whether the agent is available.
    pub available: bool,
    /// Raw output lines from `ssh-add -l`.
    pub keys: Vec<String>,
}

/// A request made to a [`CommandRunner`], as the contracts see it.
pub enum Request {
    /// `run(cmd, args, timeout_secs)`.
    Run { cmd: Seq<char>, args: Seq<Seq<char>>, timeout_secs: u64 },
    /// `run_interactive(cmd, args)`.
    Interactive { cmd: Seq<char>, args: Seq<Seq<char>> },
    /// `ssh_resolve(host, config_args)`.
    Resolve { host: Seq<char>, config_args: Seq<Seq<char>> },
    /// `ssh_agent_list()`.
    AgentList,
    /// `ssh_keygen_fingerprint(path)`.
    Fingerprint { path: Seq<char> },
}

/// The requests made to a runner so far, oldest first. It holds no data at
/// run time: its view exists for the contracts only, and every request of
/// the [`CommandRunner`] methods appends itself to it.
pub struct RequestLog {
    entries: Ghost<Seq<Request>>,
}

impl View for RequestLog {
    type V = Seq<Request>;

    closed spec fn view(&self) -> Seq<Request> {
        self.entries@
    }
}

impl RequestLog {
    /// An empty log.
    pub fn new() -> (r: RequestLog)
        ensures
            r@ == Seq::<Request>::empty(),
    {
        RequestLog { entries: Ghost(Seq::empty()) }
    }

    /// Note a `run` request.
    pub fn record_run(&mut self, cmd: &str, args: &[&str], timeout_secs: u64)
        ensures
            final(self)@ == old(self)@.push(Request::Run { cmd: cmd@, args: strviews(args@), timeout_secs }),
    {
        self.entries = Ghost(self.entries@.push(Request::Run { cmd: cmd@, args: strviews(args@), timeout_secs }));
    }

    /// Note a `run_interactive` request.
    pub fn record_interactive(&mut self, cmd: &str, args: &[&str])
        ensures
            final(self)@ == old(self)@.push(Request::Interactive { cmd: cmd@, args: strviews(args@) }),
    {
        self.entries = Ghost(self.entries@.push(Request::Interactive { cmd: cmd@, args: strviews(args@) }));
    }

    /// Note an `ssh_resolve` request.
    pub fn record_resolve(&mut self, host: &str, config_args: &[String])
        ensures
            final(self)@ == old(self)@.push(Request::Resolve { host: host@, config_args: sviews(config_args@) }),
    {
        self.entries = Ghost(self.entries@.push(Request::Resolve { host: host@, config_args: sviews(config_args@) }));
    }

    /// Note an `ssh_agent_list` request.
    pub fn record_agent_list(&mut self)
        ensures
            final(self)@ == old(self)@.push(Request::AgentList),
    {
        self.entries = Ghost(self.entries@.push(Request::AgentList));
    }

    /// Note an `ssh_keygen_fingerprint` request.
    pub fn record_fingerprint(&mut self, path: &str)
        ensures
            final(self)@ == old(self)@.push(Request::Fingerprint { path: path@ }),
    {
        self.entries = Ghost(self.entries@.push(Request::Fingerprint { path: path@ }));
    }
}

/// The `run` request of `cmd` with `args` and a timeout.
pub open spec fn run_req(cmd: Seq<char>, args: Seq<Seq<char>>, timeout_secs: u64) -> Request {
    Request::Run { cmd, args, timeout_secs }
}

/// `new` is the log `old` followed by more requests.
pub open spec fn extends(old: Seq<Request>, new: Seq<Request>) -> bool {
    old.len() <= new.len() && new.take(old.len() as int) == old
}

/// The requests of `new` that follow those of `old`.
pub open spec fn added(old: Seq<Request>, new: Seq<Request>) -> Seq<Request> {
    new.skip(old.len() as int)
}

/// Appending a request to an extended log extends it by one more.
pub proof fn lemma_extends_push(l0: Seq<Request>, l1: Seq<Request>, q: Request)
    requires
        extends(l0, l1),
    ensures
        extends(l0, l1.push(q)),
        added(l0, l1.push(q)) == added(l0, l1).push(q),
{
    assert(l1.push(q).take(l0.len() as int) =~= l1.take(l0.len() as int));
    assert(added(l0, l1.push(q)) =~= added(l0, l1).push(q));
}

/// Extending twice extends, by the two additions in turn.
pub proof fn lemma_extends_trans(l0: Seq<Request>, l1: Seq<Request>, l2: Seq<Request>)
    requires
        extends(l0, l1),
        extends(l1, l2),
    ensures
        extends(l0, l2),
        added(l0, l2) == added(l0, l1) + added(l1, l2),
{
    assert(l2.take(l0.len() as int) =~= l2.take(l1.len() as int).take(l0.len() as int));
    assert(added(l0, l2) =~= added(l0, l1) + added(l1, l2));
}

/// None of the requests `reqs` resolves a host with `ssh -G`.
pub open spec fn no_resolve(reqs: Seq<Request>) -> bool {
    forall|i: int| 0 <= i < reqs.len() ==> !(#[trigger] reqs[i] is Resolve)
}

/// `reqs` starts with the request `req`, whose outcome is `c`: a failure ends
/// the sequence there with `r` that error; a success continues with `rest`
/// (which speaks of `reqs.drop_first()`).
pub open spec fn step_then(
    req: Request,
    c: Result<CommandOutput, Seq<Seq<char>>>,
    r: Result<(), Error>,
    reqs: Seq<Request>,
    rest: bool,
) -> bool {
    &&& reqs.len() >= 1
    &&& reqs[0] == req
    &&& match c {
        Err(chain) => is_err_with(r, chain) && reqs.len() == 1,
        Ok(_) => rest,
    }
}

/// Abstraction for external command execution.
///
/// Each `*_reply` relation says which replies an implementation may give to
/// a request; the executable methods promise a reply in that relation. By
/// default every reply is possible, as with the real system; the mock
/// narrows them to the replies registered in it.
pub trait CommandRunner {
    /// `reply` may be the outcome of running `cmd` with `args`.
    open spec fn run_reply(
        &self,
        cmd: Seq<char>,
        args: Seq<Seq<char>>,
        timeout_secs: u64,
        reply: Result<CommandOutput, Error>,
    ) -> bool {
        true
    }

    /// `reply` may be the outcome of running `cmd` with `args` interactively.
    open spec fn interactive_reply(
        &self,
        cmd: Seq<char>,
        args: Seq<Seq<char>>,
        reply: Result<i32, Error>,
    ) -> bool {
        true
    }

    /// `reply` may be the outcome of resolving `host` with `ssh -G`.
    open spec fn resolve_reply(
        &self,
        host: Seq<char>,
        config_args: Seq<Seq<char>>,
        reply: Result<String, Error>,
    ) -> bool {
        true
    }

    /// `reply` may be the outcome of listing the agent's keys.
    open spec fn agent_list_reply(&self, reply: Result<AgentListResult, Error>) -> bool {
        true
    }

    /// `reply` may be the outcome of fingerprinting the key file at `path`.
    open spec fn fingerprint_reply(&self, path: Seq<char>, reply: Result<String, Error>) -> bool {
        true
    }

    /// Run a command with a timeout, capturing its output.
    fn run(&self, log: &mut RequestLog, cmd: &str, args: &[&str], timeout_secs: u64) -> (r: Result<CommandOutput, Error>)
        ensures
            self.run_reply(cmd@, strviews(args@), timeout_secs, r),
            final(log)@ == old(log)@.push(Request::Run { cmd: cmd@, args: strviews(args@), timeout_secs }),
    ;

    /// Run a command interactively, inheriting stdin/stdout/stderr, and
    /// return its exit code.
    fn run_interactive(&self, log: &mut RequestLog, cmd: &str, args: &[&str]) -> (r: Result<i32, Error>)
        ensures
            self.interactive_reply(cmd@, strviews(args@), r),
            final(log)@ == old(log)@.push(Request::Interactive { cmd: cmd@, args: strviews(args@) }),
    ;

    /// Resolve SSH config for a host via `ssh -G`.
    fn ssh_resolve(&self, log: &mut RequestLog, host: &str, config_args: &[String]) -> (r: Result<String, Error>)
        ensures
            self.resolve_reply(host@, sviews(config_args@), r),
            final(log)@ == old(log)@.push(Request::Resolve { host: host@, config_args: sviews(config_args@) }),
    ;

    /// List agent keys via `ssh-add -l`.
    fn ssh_agent_list(&self, log: &mut RequestLog) -> (r: Result<AgentListResult, Error>)
        ensures
            self.agent_list_reply(r),
            final(log)@ == old(log)@.push(Request::AgentList),
    ;

    /// Get a key fingerprint via `ssh-keygen -lf`.
    fn ssh_keygen_fingerprint(&self, log: &mut RequestLog, path: &str) -> (r: Result<String, Error>)
        ensures
            self.fingerprint_reply(path@, r),
            final(log)@ == old(log)@.push(Request::Fingerprint { path: path@ }),
    ;
}

// ---------------------------------------------------------------------------
// Copies
// ---------------------------------------------------------------------------

/// A copy of a list of strings.
pub fn copy_strings(v: &Vec<String>) -> (r: Vec<String>)
    ensures
        r@ == v@,
{
    let mut r: Vec<String> = Vec::new();
    let mut i: usize = 0;
    while i < v.len()
        invariant
            i <= v.len(),
            r@ == v@.take(i as int),
        decreases v.len() - i,
    {
        r.push(v[i].clone());
        i = i + 1;
        assert(r@ =~= v@.take(i as int));
    }
    assert(v@.take(v.len() as int) =~= v@);
    r
}

impl CommandOutput {
    /// A field-for-field copy.
    pub fn copy(&self) -> (r: CommandOutput)
        ensures
            r == *self,
    {
        CommandOutput { exit_code: self.exit_code, stdout: self.stdout.clone(), stderr: self.stderr.clone() }
    }
}

impl AgentListResult {
    /// A field-for-field copy.
    pub fn copy(&self) -> (r: AgentListResult)
        ensures
            r.available == self.available,
            r.keys@ == self.keys@,
    {
        AgentListResult { available: self.available, keys: copy_strings(&self.keys) }
    }
}

// ---------------------------------------------------------------------------
// MockCommandRunner
// ---------------------------------------------------------------------------

/// The key under which the mock files a command: the command and its
/// arguments separated by single spaces.
pub open spec fn command_key_text(cmd: Seq<char>, args: Seq<Seq<char>>) -> Seq<char> {
    if args.len() == 0 {
        cmd
    } else {
        cmd + " "@ + join(args, " "@)
    }
}

/// The value filed under `key` in an association list; a later entry for the
/// same key overrides an earlier one.
pub open spec fn lookup<V>(entries: Seq<(String, V)>, key: Seq<char>) -> Option<V>
    decreases entries.len(),
{
    if entries.len() == 0 {
        None
    } else if entries.last().0@ == key {
        Some(entries.last().1)
    } else {
        lookup(entries.drop_last(), key)
    }
}

/// Look `key` up in an association list.
fn find_entry<V>(entries: &Vec<(String, V)>, key: &str) -> (r: Option<usize>)
    ensures
        match lookup(entries@, key@) {
            Some(v) => r matches Some(i) && i < entries.len() && entries@[i as int].1 == v,
            None => r is None,
        },
{
    let mut i: usize = entries.len();
    assert(entries@.take(entries.len() as int) =~= entries@);
    while i > 0
        invariant
            i <= entries.len(),
            lookup(entries@, key@) == lookup(entries@.take(i as int), key@),
        decreases i,
    {
        let ghost pre = entries@.take(i as int);
        assert(pre.drop_last() =~= entries@.take(i - 1));
        if str_eq(entries[i - 1].0.as_str(), key) {
            return Some(i - 1);
        }
        i = i - 1;
    }
    None
}

/// Mock implementation of [`CommandRunner`] for tests.
///
/// Responses are registered per command string; unregistered commands
/// get a default success response.
#[derive(Debug)]
pub struct MockCommandRunner {
    /// Keyed by `"cmd arg1 arg2 ..."`.
    run_responses: Vec<(String, CommandOutput)>,
    /// Keyed by `"cmd arg1 arg2 ..."`: exit code only.
    interactive_responses: Vec<(String, i32)>,
    /// Keyed by host name; `Err(msg)` simulates a failed resolve.
    ssh_resolve_responses: Vec<(String, Result<String, String>)>,
    /// Single response for `ssh_agent_list`.
    agent_list_response: Option<AgentListResult>,
    /// Keyed by path; `Err(msg)` simulates a failed fingerprint.
    fingerprint_responses: Vec<(String, Result<String, String>)>,
}

impl MockCommandRunner {
    /// The output registered for a command key.
    pub closed spec fn run_response(&self, key: Seq<char>) -> Option<CommandOutput> {
        lookup(self.run_responses@, key)
    }

    /// The exit code registered for an interactive command key.
    pub closed spec fn interactive_response(&self, key: Seq<char>) -> Option<i32> {
        lookup(self.interactive_responses@, key)
    }

    /// The resolve outcome registered for a host.
    pub closed spec fn resolve_response(&self, host: Seq<char>) -> Option<Result<String, String>> {
        lookup(self.ssh_resolve_responses@, host)
    }

    /// The agent listing registered, if any.
    pub closed spec fn agent_response(&self) -> Option<AgentListResult> {
        self.agent_list_response
    }

    /// The fingerprint outcome registered for a path.
    pub closed spec fn fingerprint_response(&self, path: Seq<char>) -> Option<Result<String, String>> {
        lookup(self.fingerprint_responses@, path)
    }

    /// Create an empty mock.
    pub fn new() -> (r: Self)
        ensures
            forall|k: Seq<char>| r.run_response(k) is None,
            forall|k: Seq<char>| r.interactive_response(k) is None,
            forall|k: Seq<char>| r.resolve_response(k) is None,
            forall|k: Seq<char>| r.fingerprint_response(k) is None,
            r.agent_response() is None,
    {
        MockCommandRunner {
            run_responses: Vec::new(),
            interactive_responses: Vec::new(),
            ssh_resolve_responses: Vec::new(),
            agent_list_response: None,
            fingerprint_responses: Vec::new(),
        }
    }

    /// Register a response for a specific command invocation.
    pub fn with_run_response(self, key: &str, output: CommandOutput) -> (r: Self)
        ensures
            forall|k: Seq<char>|
                #[trigger] r.run_response(k) == if k == key@ {
                    Some(output)
                } else {
                    self.run_response(k)
                },
            forall|k: Seq<char>| r.interactive_response(k) == self.interactive_response(k),
            forall|k: Seq<char>| r.resolve_response(k) == self.resolve_response(k),
            forall|k: Seq<char>| r.fingerprint_response(k) == self.fingerprint_response(k),
            r.agent_response() == self.agent_response(),
    {
        let mut s = self;
        let ghost old_entries = s.run_responses@;
        s.run_responses.push((crate::text::owned(key), output));
        assert(s.run_responses@.drop_last() =~= old_entries);
        s
    }

    /// Register a response for an interactive command invocation.
    pub fn with_interactive_response(self, key: &str, exit_code: i32) -> (r: Self)
        ensures
            forall|k: Seq<char>|
                #[trigger] r.interactive_response(k) == if k == key@ {
                    Some(exit_code)
                } else {
                    self.interactive_response(k)
                },
            forall|k: Seq<char>| r.run_response(k) == self.run_response(k),
            forall|k: Seq<char>| r.resolve_response(k) == self.resolve_response(k),
            forall|k: Seq<char>| r.fingerprint_response(k) == self.fingerprint_response(k),
            r.agent_response() == self.agent_response(),
    {
        let mut s = self;
        let ghost old_entries = s.interactive_responses@;
        s.interactive_responses.push((crate::text::owned(key), exit_code));
        assert(s.interactive_responses@.drop_last() =~= old_entries);
        s
    }

    /// Register a successful response for `ssh_resolve`.
    pub fn with_ssh_resolve(self, host: &str, output: &str) -> (r: Self)
        ensures
            forall|k: Seq<char>|
                #![trigger r.resolve_response(k)]
                if k == host@ {
                    r.resolve_response(k) matches Some(Ok(s)) && s@ == output@
                } else {
                    r.resolve_response(k) == self.resolve_response(k)
                },
            forall|k: Seq<char>| r.run_response(k) == self.run_response(k),
            forall|k: Seq<char>| r.interactive_response(k) == self.interactive_response(k),
            forall|k: Seq<char>| r.fingerprint_response(k) == self.fingerprint_response(k),
            r.agent_response() == self.agent_response(),
    {
        let mut s = self;
        let ghost old_entries = s.ssh_resolve_responses@;
        s.ssh_resolve_responses.push((crate::text::owned(host), Ok(crate::text::owned(output))));
        assert(s.ssh_resolve_responses@.drop_last() =~= old_entries);
        s
    }

    /// Register an error response for `ssh_resolve`.
    pub fn with_ssh_resolve_error(self, host: &str, error_msg: &str) -> (r: Self)
        ensures
            forall|k: Seq<char>|
                #![trigger r.resolve_response(k)]
                if k == host@ {
                    r.resolve_response(k) matches Some(Err(m)) && m@ == error_msg@
                } else {
                    r.resolve_response(k) == self.resolve_response(k)
                },
            forall|k: Seq<char>| r.run_response(k) == self.run_response(k),
            forall|k: Seq<char>| r.interactive_response(k) == self.interactive_response(k),
            forall|k: Seq<char>| r.fingerprint_response(k) == self.fingerprint_response(k),
            r.agent_response() == self.agent_response(),
    {
        let mut s = self;
        let ghost old_entries = s.ssh_resolve_responses@;
        s.ssh_resolve_responses.push((crate::text::owned(host), Err(crate::text::owned(error_msg))));
        assert(s.ssh_resolve_responses@.drop_last() =~= old_entries);
        s
    }

    /// Register a response for `ssh_agent_list`.
    pub fn with_agent_list(self, result: AgentListResult) -> (r: Self)
        ensures
            r.agent_response() == Some(result),
            forall|k: Seq<char>| r.run_response(k) == self.run_response(k),
            forall|k: Seq<char>| r.interactive_response(k) == self.interactive_response(k),
            forall|k: Seq<char>| r.resolve_response(k) == self.resolve_response(k),
            forall|k: Seq<char>| r.fingerprint_response(k) == self.fingerprint_response(k),
    {
        let mut s = self;
        s.agent_list_response = Some(result);
        s
    }

    /// Register a successful response for `ssh_keygen_fingerprint`.
    pub fn with_fingerprint(self, path: &str, fingerprint: &str) -> (r: Self)
        ensures
            forall|k: Seq<char>|
                #![trigger r.fingerprint_response(k)]
                if k == path@ {
                    r.fingerprint_response(k) matches Some(Ok(s)) && s@ == fingerprint@
                } else {
                    r.fingerprint_response(k) == self.fingerprint_response(k)
                },
            forall|k: Seq<char>| r.run_response(k) == self.run_response(k),
            forall|k: Seq<char>| r.interactive_response(k) == self.interactive_response(k),
            forall|k: Seq<char>| r.resolve_response(k) == self.resolve_response(k),
            r.agent_response() == self.agent_response(),
    {
        let mut s = self;
        let ghost old_entries = s.fingerprint_responses@;
        s.fingerprint_responses.push((crate::text::owned(path), Ok(crate::text::owned(fingerprint))));
        assert(s.fingerprint_responses@.drop_last() =~= old_entries);
        s
    }

    /// Register an error response for `ssh_keygen_fingerprint`.
    pub fn with_fingerprint_error(self, path: &str, error_msg: &str) -> (r: Self)
        ensures
            forall|k: Seq<char>|
                #![trigger r.fingerprint_response(k)]
                if k == path@ {
                    r.fingerprint_response(k) matches Some(Err(m)) && m@ == error_msg@
                } else {
                    r.fingerprint_response(k) == self.fingerprint_response(k)
                },
            forall|k: Seq<char>| r.run_response(k) == self.run_response(k),
            forall|k: Seq<char>| r.interactive_response(k) == self.interactive_response(k),
            forall|k: Seq<char>| r.resolve_response(k) == self.resolve_response(k),
            r.agent_response() == self.agent_response(),
    {
        let mut s = self;
        let ghost old_entries = s.fingerprint_responses@;
        s.fingerprint_responses.push((crate::text::owned(path), Err(crate::text::owned(error_msg))));
        assert(s.fingerprint_responses@.drop_last() =~= old_entries);
        s
    }

    /// The key under which a command is filed.
    pub fn command_key(cmd: &str, args: &[&str]) -> (r: String)
        ensures
            r@ == command_key_text(cmd@, strviews(args@)),
    {
        if args.len() == 0 {
            crate::text::owned(cmd)
        } else {
            let mut r = crate::text::owned(cmd);
            push_str(&mut r, " ");
            let parts = crate::text::to_strings(args);
            let joined = crate::text::join_strings(parts.as_slice(), " ");
            push_str(&mut r, joined.as_str());
            r
        }
    }
}

/// The reply the mock gives to a resolve or fingerprint request filed as
/// `entry`: the registered text, the registered error message, or an empty
/// text when nothing is registered.
pub open spec fn mock_text_reply(entry: Option<Result<String, String>>, reply: Result<String, Error>) -> bool {
    match entry {
        Some(Ok(s)) => reply matches Ok(x) && x@ == s@,
        Some(Err(m)) => reply matches Err(e) && e@ == seq![m@],
        None => reply matches Ok(x) && x@ == Seq::<char>::empty(),
    }
}

/// What the mock was told a host resolves to is what it answers for that
/// host, whatever the config arguments.
pub proof fn law_mock_resolve_answers(m: MockCommandRunner, host: Seq<char>, output: Seq<char>, config_args: Seq<Seq<char>>, reply: Result<String, Error>)
    requires
        m.resolve_response(host) matches Some(Ok(s)) && s@ == output,
    ensures
        m.resolve_reply(host, config_args, reply) <==> (reply matches Ok(x) && x@ == output),
{
}

/// The mock's reply to a text request filed as `entry`.
fn mock_text(entry: Option<&Result<String, String>>) -> (r: Result<String, Error>)
    ensures
        mock_text_reply(
            match entry {
                Some(e) => Some(*e),
                None => None,
            },
            r,
        ),
{
    match entry {
        Some(Ok(s)) => Ok(s.clone()),
        Some(Err(m)) => Err(Error::msg(m.clone())),
        None => Ok(String::new()),
    }
}

impl CommandRunner for MockCommandRunner {
    open spec fn run_reply(
        &self,
        cmd: Seq<char>,
        args: Seq<Seq<char>>,
        timeout_secs: u64,
        reply: Result<CommandOutput, Error>,
    ) -> bool {
        match self.run_response(command_key_text(cmd, args)) {
            Some(o) => reply == Ok::<CommandOutput, Error>(o),
            None => reply matches Ok(o) && o.exit_code == 0 && o.stdout@ == Seq::<char>::empty()
                && o.stderr@ == Seq::<char>::empty(),
        }
    }

    open spec fn interactive_reply(
        &self,
        cmd: Seq<char>,
        args: Seq<Seq<char>>,
        reply: Result<i32, Error>,
    ) -> bool {
        match self.interactive_response(command_key_text(cmd, args)) {
            Some(c) => reply == Ok::<i32, Error>(c),
            None => reply == Ok::<i32, Error>(0),
        }
    }

    open spec fn resolve_reply(
        &self,
        host: Seq<char>,
        config_args: Seq<Seq<char>>,
        reply: Result<String, Error>,
    ) -> bool {
        mock_text_reply(self.resolve_response(host), reply)
    }

    open spec fn agent_list_reply(&self, reply: Result<AgentListResult, Error>) -> bool {
        match self.agent_response() {
            Some(a) => reply matches Ok(x) && x.available == a.available && x.keys@ == a.keys@,
            None => reply matches Ok(x) && !x.available && x.keys@.len() == 0,
        }
    }

    open spec fn fingerprint_reply(&self, path: Seq<char>, reply: Result<String, Error>) -> bool {
        mock_text_reply(self.fingerprint_response(path), reply)
    }

    fn run(&self, log: &mut RequestLog, cmd: &str, args: &[&str], timeout_secs: u64) -> (r: Result<CommandOutput, Error>) {
        log.record_run(cmd, args, timeout_secs);
        let key = Self::command_key(cmd, args);
        match find_entry(&self.run_responses, key.as_str()) {
            Some(i) => Ok(self.run_responses[i].1.copy()),
            None => Ok(CommandOutput { exit_code: 0, stdout: String::new(), stderr: String::new() }),
        }
    }

    fn run_interactive(&self, log: &mut RequestLog, cmd: &str, args: &[&str]) -> (r: Result<i32, Error>) {
        log.record_interactive(cmd, args);
        let key = Self::command_key(cmd, args);
        match find_entry(&self.interactive_responses, key.as_str()) {
            Some(i) => Ok(self.interactive_responses[i].1),
            None => Ok(0),
        }
    }

    fn ssh_resolve(&self, log: &mut RequestLog, host: &str, config_args: &[String]) -> (r: Result<String, Error>) {
        log.record_resolve(host, config_args);
        match find_entry(&self.ssh_resolve_responses, host) {
            Some(i) => mock_text(Some(&self.ssh_resolve_responses[i].1)),
            None => mock_text(None),
        }
    }

    fn ssh_agent_list(&self, log: &mut RequestLog) -> (r: Result<AgentListResult, Error>) {
        log.record_agent_list();
        match &self.agent_list_response {
            Some(a) => Ok(a.copy()),
            None => Ok(AgentListResult { available: false, keys: Vec::new() }),
        }
    }

    fn ssh_keygen_fingerprint(&self, log: &mut RequestLog, path: &str) -> (r: Result<String, Error>) {
        log.record_fingerprint(path);
        match find_entry(&self.fingerprint_responses, path) {
            Some(i) => mock_text(Some(&self.fingerprint_responses[i].1)),
            None => mock_text(None),
        }
    }
}

/// `s` with every carriage return removed.
pub open spec fn without_cr(s: Seq<char>) -> Seq<char> {
    crate::text::replace_char(s, '\r', Seq::empty())
}

/// The output of a finished command as a runner reports it: its exit code,
/// `-1` when it has none (the process was ended by a signal), and its
/// output streams with every carriage return removed.
pub fn finished_output(code: Option<i32>, stdout: &str, stderr: &str) -> (r: CommandOutput)
    ensures
        r.exit_code == match code {
            Some(c) => c,
            None => -1i32,
        },
        r.stdout@ == without_cr(stdout@),
        r.stderr@ == without_cr(stderr@),
{
    let none: Vec<char> = Vec::new();
    let out = crate::text::replace_char_of(crate::text::chars_of(stdout).as_slice(), '\r', none.as_slice());
    let err = crate::text::replace_char_of(crate::text::chars_of(stderr).as_slice(), '\r', none.as_slice());
    assert(none@ =~= Seq::<char>::empty());
    CommandOutput {
        exit_code: match code {
            Some(c) => c,
            None => -1,
        },
        stdout: string_from(out.as_slice()),
        stderr: string_from(err.as_slice()),
    }
}

// ---------------------------------------------------------------------------
// Checked runs
// ---------------------------------------------------------------------------

/// What a run that must succeed yields: the output when the command ran and
/// exited with code 0; otherwise the error chain, which is the `context`
/// message over the runner's error when the command could not be run, or
/// `"<what><code>: <trimmed stderr>"` when it exited with a non-zero code.
pub open spec fn checked_outcome(
    o: Result<CommandOutput, Error>,
    context: Seq<char>,
    what: Seq<char>,
) -> Result<CommandOutput, Seq<Seq<char>>> {
    match o {
        Err(e) => Err(seq![context] + e@),
        Ok(out) => if out.exit_code != 0 {
            Err(seq![what + int_decimal(out.exit_code as int) + ": "@ + trim(out.stderr@)])
        } else {
            Ok(out)
        },
    }
}

/// `r` is an error whose chain is `chain`.
pub open spec fn is_err_with<T>(r: Result<T, Error>, chain: Seq<Seq<char>>) -> bool {
    r matches Err(e) && e@ == chain
}

/// Run a command that must succeed (see [`checked_outcome`]).
pub fn run_checked<R: CommandRunner>(
    runner: &R,
    log: &mut RequestLog,
    cmd: &str,
    args: &[&str],
    timeout_secs: u64,
    context: &str,
    what: &str,
) -> (r: Result<CommandOutput, Error>)
    ensures
        exists|o: Result<CommandOutput, Error>|
            {
                &&& #[trigger] runner.run_reply(cmd@, strviews(args@), timeout_secs, o)
                &&& match checked_outcome(o, context@, what@) {
                    Ok(out) => r == Ok::<CommandOutput, Error>(out),
                    Err(chain) => is_err_with(r, chain),
                }
            },
        final(log)@ == old(log)@.push(run_req(cmd@, strviews(args@), timeout_secs)),
{
    let o = runner.run(log, cmd, args, timeout_secs);
    let ghost go = o;
    match o {
        Err(e) => {
            let e2 = e.context(owned(context));
            Err(e2)
        },
        Ok(out) => {
            if out.exit_code != 0 {
                let mut m = owned(what);
                let code = i32_to_string(out.exit_code);
                push_str(&mut m, code.as_str());
                push_str(&mut m, ": ");
                let t = trim_str(out.stderr.as_str());
                push_str(&mut m, t.as_str());
                let e = Error::msg(m);
                Err(e)
            } else {
                Ok(out)
            }
        },
    }
}

// ---------------------------------------------------------------------------
// ssh helper commands issued through `run`
// ---------------------------------------------------------------------------

/// `-F <cfg>` for every config path, in order.
pub open spec fn config_flags(cfgs: Seq<Seq<char>>) -> Seq<Seq<char>>
    decreases cfgs.len(),
{
    if cfgs.len() == 0 {
        Seq::empty()
    } else {
        config_flags(cfgs.drop_last()) + seq!["-F"@, cfgs.last()]
    }
}

/// Arguments of `ssh -G` for `host`: the config flags, then `-G host`.
pub open spec fn resolve_args(host: Seq<char>, cfgs: Seq<Seq<char>>) -> Seq<Seq<char>> {
    config_flags(cfgs) + seq!["-G"@, host]
}

/// Timeout of the ssh helper commands, in seconds.
pub const SSH_HELPER_TIMEOUT_SECS: u64 = 1;

/// Resolve SSH config for `host` by running `<ssh_cmd> [-F cfg]... -G host`
/// through `runner.run`: the standard output on success.
pub fn ssh_resolve_via_run<R: CommandRunner>(
    runner: &R,
    log: &mut RequestLog,
    ssh_cmd: &str,
    host: &str,
    config_args: &[String],
) -> (r: Result<String, Error>)
    ensures
        exists|o: Result<CommandOutput, Error>|
            {
                &&& #[trigger] runner.run_reply(
                    ssh_cmd@,
                    resolve_args(host@, sviews(config_args@)),
                    SSH_HELPER_TIMEOUT_SECS,
                    o,
                )
                &&& match checked_outcome(
                    o,
                    "ssh_resolve failed for host: "@ + host@,
                    "ssh -G "@ + host@ + " exited with code "@,
                ) {
                    Ok(out) => r matches Ok(s) && s@ == out.stdout@,
                    Err(chain) => is_err_with(r, chain),
                }
            },
{
    let mut args: Vec<&str> = Vec::new();
    let mut i: usize = 0;
    while i < config_args.len()
        invariant
            i <= config_args.len(),
            strviews(args@) == config_flags(sviews(config_args@).take(i as int)),
        decreases config_args.len() - i,
    {
        let ghost pre = sviews(config_args@).take(i as int);
        args.push("-F");
        args.push(config_args[i].as_str());
        proof {
            let nxt = sviews(config_args@).take(i + 1);
            assert(nxt.drop_last() =~= pre);
            assert(strviews(args@) =~= config_flags(pre) + seq!["-F"@, nxt.last()]);
        }
        i = i + 1;
    }
    assert(sviews(config_args@).take(config_args.len() as int) =~= sviews(config_args@));
    args.push("-G");
    args.push(host);
    assert(strviews(args@) =~= resolve_args(host@, sviews(config_args@)));
    let ctx = concat2("ssh_resolve failed for host: ", host);
    let mut what = concat2("ssh -G ", host);
    push_str(&mut what, " exited with code ");
    let out = run_checked(runner, log, ssh_cmd, args.as_slice(), SSH_HELPER_TIMEOUT_SECS, ctx.as_str(), what.as_str());
    match out {
        Ok(o) => Ok(o.stdout),
        Err(e) => Err(e),
    }
}

/// The non-empty lines of `s`.
pub open spec fn non_empty_lines(s: Seq<char>) -> Seq<Seq<char>> {
    lines(s).filter(|l: Seq<char>| l.len() > 0)
}

/// The key listing made of a finished `ssh-add -l`: available with every
/// non-empty output line when it exited with 0, unavailable otherwise.
pub open spec fn agent_listing(out: CommandOutput, r: AgentListResult) -> bool {
    if out.exit_code == 0 {
        r.available && sviews(r.keys@) == non_empty_lines(out.stdout@)
    } else {
        !r.available && r.keys@.len() == 0
    }
}

/// Arguments of `ssh-add` that list the agent's keys.
pub open spec fn agent_list_args() -> Seq<Seq<char>> {
    seq!["-l"@]
}

/// Arguments of `ssh-keygen` that print the fingerprint of `path`.
pub open spec fn keygen_args(path: Seq<char>) -> Seq<Seq<char>> {
    seq!["-lf"@, path]
}

/// List the keys of the SSH agent by running `<ssh_add_cmd> -l` through
/// `runner.run`.
pub fn ssh_agent_list_via_run<R: CommandRunner>(runner: &R, log: &mut RequestLog, ssh_add_cmd: &str) -> (r: Result<
    AgentListResult,
    Error,
>)
    ensures
        exists|o: Result<CommandOutput, Error>|
            {
                &&& #[trigger] runner.run_reply(ssh_add_cmd@, agent_list_args(), SSH_HELPER_TIMEOUT_SECS, o)
                &&& match o {
                    Err(e) => is_err_with(r, seq!["failed to list SSH agent keys"@] + e@),
                    Ok(out) => r matches Ok(a) && agent_listing(out, a),
                }
            },
{
    let args: [&str; 1] = ["-l"];
    let sl: &[&str] = &args;
    assert(strviews(sl@) =~= agent_list_args());
    let o = runner.run(log, ssh_add_cmd, sl, SSH_HELPER_TIMEOUT_SECS);
    match o {
        Err(e) => Err(e.context(owned("failed to list SSH agent keys"))),
        Ok(out) => {
            if out.exit_code == 0 {
                let ls = lines_str(out.stdout.as_str());
                let mut keys: Vec<String> = Vec::new();
                let mut i: usize = 0;
                while i < ls.len()
                    invariant
                        i <= ls.len(),
                        sviews(keys@) == vviews(ls@).take(i as int).filter(
                            |l: Seq<char>| l.len() > 0,
                        ),
                    decreases ls.len() - i,
                {
                    let ghost pre = vviews(ls@).take(i as int);
                    proof {
                        let nxt = vviews(ls@).take(i + 1);
                        assert(nxt.drop_last() =~= pre);
                        reveal_with_fuel(Seq::filter, 1);
                    }
                    if ls[i].len() > 0 {
                        keys.push(string_from(ls[i].as_slice()));
                        assert(sviews(keys@) =~= vviews(ls@).take(i + 1).filter(
                            |l: Seq<char>| l.len() > 0,
                        ));
                    }
                    i = i + 1;
                }
                assert(vviews(ls@).take(ls.len() as int) =~= vviews(ls@));
                Ok(AgentListResult { available: true, keys })
            } else {
                Ok(AgentListResult { available: false, keys: Vec::new() })
            }
        },
    }
}

/// Get the fingerprint of the key file at `path` by running
/// `<keygen_cmd> -lf <path>` through `runner.run`: the trimmed standard
/// output on success.
pub fn ssh_keygen_fingerprint_via_run<R: CommandRunner>(
    runner: &R,
    log: &mut RequestLog,
    keygen_cmd: &str,
    path: &str,
) -> (r: Result<String, Error>)
    ensures
        exists|o: Result<CommandOutput, Error>|
            {
                &&& #[trigger] runner.run_reply(
                    keygen_cmd@,
                    keygen_args(path@),
                    SSH_HELPER_TIMEOUT_SECS,
                    o,
                )
                &&& match checked_outcome(
                    o,
                    "ssh_keygen_fingerprint failed for: "@ + path@,
                    "ssh-keygen -lf "@ + path@ + " exited with code "@,
                ) {
                    Ok(out) => r matches Ok(s) && s@ == trim(out.stdout@),
                    Err(chain) => is_err_with(r, chain),
                }
            },
{
    let args: [&str; 2] = ["-lf", path];
    let sl: &[&str] = &args;
    assert(strviews(sl@) =~= keygen_args(path@));
    let ctx = concat2("ssh_keygen_fingerprint failed for: ", path);
    let mut what = concat2("ssh-keygen -lf ", path);
    push_str(&mut what, " exited with code ");
    match run_checked(runner, log, keygen_cmd, sl, SSH_HELPER_TIMEOUT_SECS, ctx.as_str(), what.as_str()) {
        Ok(o) => Ok(trim_str(o.stdout.as_str())),
        Err(e) => Err(e),
    }
}

} // verus!
