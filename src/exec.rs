//! Commands run inside a container or on the host, and how their exit status
//! decides success.

use vstd::prelude::*;
use crate::text::{chars_of, string_of, texts, words, words_of};

verus! {

/// What a container exec does with an output stream.
#[derive(Debug, Clone, Copy, PartialEq, Eq, Structural)]
pub enum Stdio {
    /// Ignore it.
    Null,
    /// Use the caller's.
    Inherit,
    /// Collect it.
    Piped,
}

/// The exit code of a container exec.
#[derive(Debug, Clone, Copy, PartialEq, Eq, Structural)]
pub struct ExitCode(pub i64);

impl ExitCode {
    /// Was the command successful?
    pub fn success(&self) -> (r: bool)
        ensures
            r == (self.0 == 0),
    {
        self.0 == 0
    }
}

/// The exit code and collected output of a container exec.
pub struct Output {
    pub code: Option<ExitCode>,
    pub stdout: Vec<u8>,
    pub stderr: Vec<u8>,
}

impl Default for Output {
    fn default() -> (r: Output)
        ensures
            r.code is None,
            r.stdout@.len() == 0,
            r.stderr@.len() == 0,
    {
        Output { code: None, stdout: Vec::new(), stderr: Vec::new() }
    }
}

/// A command to run in a container, built step by step.
pub struct Command {
    id: String,
    command: String,
    args: Vec<String>,
    tty: bool,
    privileged: bool,
    stdout: Option<Stdio>,
    stderr: Option<Stdio>,
}

impl Command {
    /// The container, by name or id.
    pub closed spec fn container(&self) -> Seq<char> {
        self.id@
    }

    /// The program and its arguments.
    pub closed spec fn argv(&self) -> Seq<Seq<char>> {
        seq![self.command@] + texts(self.args@)
    }

    pub closed spec fn spec_tty(&self) -> bool {
        self.tty
    }

    pub closed spec fn spec_privileged(&self) -> bool {
        self.privileged
    }

    pub closed spec fn spec_stdout(&self) -> Option<Stdio> {
        self.stdout
    }

    pub closed spec fn spec_stderr(&self) -> Option<Stdio> {
        self.stderr
    }

    /// A command that runs `program` inside `container`, a container name or
    /// id, without arguments, TTY or privileges.
    pub fn new(container: String, program: &str) -> (r: Command)
        ensures
            r.container() == container@,
            r.argv() == seq![program@],
            !r.spec_tty(),
            !r.spec_privileged(),
            r.spec_stdout() is None,
            r.spec_stderr() is None,
    {
        let r = Command {
            id: container,
            command: program.to_owned(),
            args: Vec::new(),
            tty: false,
            privileged: false,
            stdout: None,
            stderr: None,
        };
        proof {
            assert(texts(r.args@) =~= Seq::<Seq<char>>::empty());
            assert(r.argv() =~= seq![program@]);
        }
        r
    }

    /// Adds one argument.
    pub fn arg(&mut self, arg: &str) -> (r: &mut Self)
        ensures
            r.argv() == old(self).argv().push(arg@),
            r.container() == old(self).container(),
            r.spec_tty() == old(self).spec_tty(),
            r.spec_privileged() == old(self).spec_privileged(),
            r.spec_stdout() == old(self).spec_stdout(),
            r.spec_stderr() == old(self).spec_stderr(),
            *final(self) == *final(r),
    {
        self.args.push(arg.to_owned());
        proof {
            assert(texts(self.args@) =~= texts(old(self).args@).push(arg@));
            assert(self.argv() =~= old(self).argv().push(arg@));
        }
        self
    }

    /// Adds several arguments, in order.
    pub fn args(&mut self, args: &Vec<String>) -> (r: &mut Self)
        ensures
            r.argv() == old(self).argv() + texts(args@),
            r.container() == old(self).container(),
            r.spec_tty() == old(self).spec_tty(),
            r.spec_privileged() == old(self).spec_privileged(),
            r.spec_stdout() == old(self).spec_stdout(),
            r.spec_stderr() == old(self).spec_stderr(),
            *final(self) == *final(r),
    {
        let ghost start = texts(self.args@);
        for i in 0..args.len()
            invariant
                texts(self.args@) == start + texts(args@.subrange(0, i as int)),
                self.id == old(self).id,
                self.command == old(self).command,
                self.tty == old(self).tty,
                self.privileged == old(self).privileged,
                self.stdout == old(self).stdout,
                self.stderr == old(self).stderr,
                start == texts(old(self).args@),
        {
            let ghost before = self.args@;
            self.args.push(args[i].clone());
            proof {
                assert(texts(self.args@) =~= texts(before).push(args@[i as int]@));
                assert(texts(args@.subrange(0, i + 1)) =~= texts(args@.subrange(0, i as int)).push(args@[i as int]@));
                assert(texts(self.args@) =~= start + texts(args@.subrange(0, i + 1)));
            }
        }
        proof {
            assert(args@.subrange(0, args@.len() as int) =~= args@);
            assert(self.argv() =~= old(self).argv() + texts(args@));
        }
        self
    }

    /// Attaches a TTY to the exec, or not.
    pub fn tty(&mut self, tty: bool) -> (r: &mut Self)
        ensures
            r.spec_tty() == tty,
            r.argv() == old(self).argv(),
            r.container() == old(self).container(),
            r.spec_privileged() == old(self).spec_privileged(),
            r.spec_stdout() == old(self).spec_stdout(),
            r.spec_stderr() == old(self).spec_stderr(),
            *final(self) == *final(r),
    {
        self.tty = tty;
        self
    }

    /// Runs the command with elevated privileges, or not.
    pub fn privileged(&mut self, privileged: bool) -> (r: &mut Self)
        ensures
            r.spec_privileged() == privileged,
            r.argv() == old(self).argv(),
            r.container() == old(self).container(),
            r.spec_tty() == old(self).spec_tty(),
            r.spec_stdout() == old(self).spec_stdout(),
            r.spec_stderr() == old(self).spec_stderr(),
            *final(self) == *final(r),
    {
        self.privileged = privileged;
        self
    }

    /// Sets what happens to the program's standard output.
    pub fn stdout(&mut self, stdout: Stdio) -> (r: &mut Self)
        ensures
            r.spec_stdout() == Some(stdout),
            r.argv() == old(self).argv(),
            r.container() == old(self).container(),
            r.spec_tty() == old(self).spec_tty(),
            r.spec_privileged() == old(self).spec_privileged(),
            r.spec_stderr() == old(self).spec_stderr(),
            *final(self) == *final(r),
    {
        self.stdout = Some(stdout);
        self
    }

    /// Sets what happens to the program's standard error.
    pub fn stderr(&mut self, stderr: Stdio) -> (r: &mut Self)
        ensures
            r.spec_stderr() == Some(stderr),
            r.argv() == old(self).argv(),
            r.container() == old(self).container(),
            r.spec_tty() == old(self).spec_tty(),
            r.spec_privileged() == old(self).spec_privileged(),
            r.spec_stdout() == old(self).spec_stdout(),
            *final(self) == *final(r),
    {
        self.stderr = Some(stderr);
        self
    }

    /// The container the command runs in.
    pub fn container_id(&self) -> (r: &String)
        ensures
            r@ == self.container(),
    {
        &self.id
    }

    /// The program followed by its arguments.
    pub fn command_line(&self) -> (r: Vec<String>)
        ensures
            texts(r@) == self.argv(),
    {
        command_line(&self.command, &self.args)
    }

    pub fn is_tty(&self) -> (r: bool)
        ensures
            r == self.spec_tty(),
    {
        self.tty
    }

    pub fn is_privileged(&self) -> (r: bool)
        ensures
            r == self.spec_privileged(),
    {
        self.privileged
    }
}

/// The program followed by its arguments, as one list.
pub fn command_line(command: &String, args: &Vec<String>) -> (r: Vec<String>)
    ensures
        texts(r@) == seq![command@] + texts(args@),
{
    let mut r: Vec<String> = Vec::new();
    r.push(command.clone());
    for i in 0..args.len()
        invariant
            texts(r@) == seq![command@] + texts(args@.subrange(0, i as int)),
    {
        let ghost before = r@;
        r.push(args[i].clone());
        proof {
            assert(texts(r@) =~= texts(before).push(args@[i as int]@));
            assert(texts(args@.subrange(0, i + 1)) =~= texts(args@.subrange(0, i as int)).push(args@[i as int]@));
            assert(texts(r@) =~= seq![command@] + texts(args@.subrange(0, i + 1)));
        }
    }
    proof {
        assert(args@.subrange(0, args@.len() as int) =~= args@);
    }
    r
}

/// The program and arguments of a container's command line, split at
/// whitespace.
pub fn split_command(cmd: &str) -> (r: Vec<String>)
    ensures
        texts(r@) == words(cmd@),
{
    let cs = chars_of(cmd);
    let ws = words_of(&cs);
    let mut r: Vec<String> = Vec::new();
    for i in 0..ws.len()
        invariant
            ws@.len() == words(cmd@).len(),
            forall|k: int| 0 <= k < ws@.len() ==> (#[trigger] ws@[k])@ == words(cmd@)[k],
            texts(r@) == words(cmd@).subrange(0, i as int),
    {
        let ghost before = r@;
        r.push(string_of(&ws[i]));
        proof {
            assert(texts(r@) =~= texts(before).push(ws@[i as int]@));
            assert(words(cmd@).subrange(0, i + 1) =~= words(cmd@).subrange(0, i as int).push(words(cmd@)[i as int]));
        }
    }
    proof {
        assert(words(cmd@).subrange(0, ws@.len() as int) =~= words(cmd@));
    }
    r
}

/// Why a command run in a container failed.
#[derive(Debug, Clone, Copy, PartialEq, Eq, Structural)]
pub enum ExecError {
    /// The exit status of the exec is unknown.
    UnknownStatus,
    /// The command exited with a non-zero code.
    Failed(i64),
}

/// The verdict on a container exec from its exit code.
pub fn exec_verdict(code: Option<i64>) -> (r: Result<(), ExecError>)
    ensures
        r == (match code {
            None => Err(ExecError::UnknownStatus),
            Some(c) => if c == 0 { Ok(()) } else { Err(ExecError::Failed(c)) },
        }),
{
    match code {
        None => Err(ExecError::UnknownStatus),
        Some(c) => if c == 0 { Ok(()) } else { Err(ExecError::Failed(c)) },
    }
}

/// Why a command run on the host failed.
#[derive(Debug, Clone, Copy, PartialEq, Eq, Structural)]
pub enum HostCommandError {
    /// The command exited with a non-zero code.
    ExitCode(i32),
    /// The command was killed by a signal.
    Signal(i32),
    /// The process has neither an exit code nor a terminating signal.
    NoStatus,
}

/// The verdict on a host command from its exit code, or, where it has none,
/// the signal that terminated it.
pub fn host_verdict(code: Option<i32>, signal: Option<i32>) -> (r: Result<(), HostCommandError>)
    ensures
        r == (match (code, signal) {
            (Some(c), _) => if c == 0 { Ok(()) } else { Err(HostCommandError::ExitCode(c)) },
            (None, Some(s)) => Err(HostCommandError::Signal(s)),
            (None, None) => Err(HostCommandError::NoStatus),
        }),
{
    match (code, signal) {
        (Some(c), _) => if c == 0 { Ok(()) } else { Err(HostCommandError::ExitCode(c)) },
        (None, Some(s)) => Err(HostCommandError::Signal(s)),
        (None, None) => Err(HostCommandError::NoStatus),
    }
}

/// The name or id of a container.
pub struct ContainerId(pub String);

impl ContainerId {
    pub open spec fn text(&self) -> Seq<char> {
        self.0@
    }

    /// The name or id as text.
    pub fn as_str(&self) -> (r: &str)
        ensures
            r@ == self.text(),
    {
        self.0.as_str()
    }
}

impl From<String> for ContainerId {
    fn from(value: String) -> (r: ContainerId)
        ensures
            r.text() == value@,
    {
        ContainerId(value)
    }
}

impl vstd::std_specs::convert::FromSpecImpl<String> for ContainerId {
    open spec fn obeys_from_spec() -> bool {
        true
    }

    open spec fn from_spec(v: String) -> ContainerId {
        ContainerId(v)
    }
}

impl From<ContainerId> for String {
    fn from(value: ContainerId) -> (r: String)
        ensures
            r@ == value.text(),
    {
        value.0
    }
}

impl vstd::std_specs::convert::FromSpecImpl<ContainerId> for String {
    open spec fn obeys_from_spec() -> bool {
        true
    }

    open spec fn from_spec(v: ContainerId) -> String {
        v.0
    }
}

} // verus!
