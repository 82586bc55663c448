//! Commands: their results, process descriptions, and the handle that
//! hands out the endpoints of a running command once each.

use vstd::prelude::*;
use std::collections::HashMap;
use crate::error::{SandboxError, ErrorKind};
use crate::json_types::{ProcessSelector, ProcessSelectorType, SendSignalRequest};
use crate::proto::process::Signal;

verus! {

/// Relies on tokio's unbounded channel receiver, carried as an endpoint.
#[verifier::external_type_specification]
#[verifier::external_body]
#[verifier::reject_recursive_types(T)]
pub struct ExUnboundedReceiver<T>(tokio::sync::mpsc::UnboundedReceiver<T>);

/// Relies on tokio's single-value channel receiver, carried as an endpoint.
#[verifier::external_type_specification]
#[verifier::external_body]
#[verifier::reject_recursive_types(T)]
pub struct ExOneshotReceiver<T>(tokio::sync::oneshot::Receiver<T>);

/// Relies on tokio's error of a single-value channel whose sender is gone.
#[verifier::external_type_specification]
#[verifier::external_body]
pub struct ExRecvError(tokio::sync::oneshot::error::RecvError);

/// Text a command wrote to standard output.
pub type Stdout = String;

/// Text a command wrote to standard error.
pub type Stderr = String;

/// Bytes a pseudo-terminal produced.
pub type PtyOutput = Vec<u8>;

/// Size of a pseudo-terminal.
#[derive(Debug, Clone, Copy)]
pub struct PtySize {
    pub rows: u32,
    pub cols: u32,
}

impl Default for PtySize {
    fn default() -> (r: Self)
        ensures
            r.rows == 24 && r.cols == 80,
    {
        PtySize { rows: 24, cols: 80 }
    }
}

/// The outcome of a command: its output, its exit code and, when the server
/// reports a failure other than an exit (a signal, a spawn failure), an
/// error text.
#[derive(Debug, Clone)]
pub struct CommandResult {
    pub stderr: String,
    pub stdout: String,
    pub exit_code: i32,
    pub error: Option<String>,
}

/// A command that exited with a non-zero code.
#[derive(Debug, Clone)]
pub struct CommandExitException {
    pub stderr: String,
    pub stdout: String,
    pub exit_code: i32,
    pub error: Option<String>,
}

impl From<CommandResult> for CommandExitException {
    fn from(result: CommandResult) -> Self {
        CommandExitException {
            stderr: result.stderr,
            stdout: result.stdout,
            exit_code: result.exit_code,
            error: result.error,
        }
    }
}

impl vstd::std_specs::convert::FromSpecImpl<CommandResult> for CommandExitException {
    open spec fn obeys_from_spec() -> bool {
        true
    }

    open spec fn from_spec(result: CommandResult) -> Self {
        CommandExitException {
            stderr: result.stderr,
            stdout: result.stdout,
            exit_code: result.exit_code,
            error: result.error,
        }
    }
}

/// A process running in the sandbox.
#[derive(Debug, Clone)]
pub struct ProcessInfo {
    pub pid: i32,
    pub tag: Option<String>,
    pub cmd: String,
    pub args: Vec<String>,
    pub envs: HashMap<String, String>,
    pub cwd: Option<String>,
}

/// What taking a take-once slot yields, and what the slot holds afterwards.
pub open spec fn take_once<T>(slot: Option<T>) -> (Option<T>, Option<T>) {
    (slot, None)
}

/// Single consumer: taking a slot hands out what it held, and a second
/// take right after hands out nothing.
pub proof fn lemma_single_consumer<T>(slot: Option<T>)
    ensures
        take_once(slot).0 == slot,
        take_once(take_once(slot).1).0 is None,
{
}

/// The request that sends SIGKILL to the process `pid`.
pub open spec fn is_kill_request(r: SendSignalRequest, pid: i32) -> bool {
    &&& r.signal == Signal::Sigkill.spec_code()
    &&& r.process matches Some(sel) && sel.selector matches Some(ProcessSelectorType::Pid { pid: p })
        && p == pid as u32
}

/// Builds the request that sends SIGKILL to the process `pid`.
pub fn kill_request(pid: i32) -> (r: SendSignalRequest)
    ensures
        is_kill_request(r, pid),
{
    SendSignalRequest {
        process: Some(ProcessSelector { selector: Some(ProcessSelectorType::Pid { pid: pid as u32 }) }),
        signal: Signal::Sigkill.code(),
    }
}

/// The error of a second wait on the same handle.
pub open spec fn already_waited(e: SandboxError, message: Seq<char>) -> bool {
    e.spec_kind() == ErrorKind::Other && e.spec_message() == message
}

/// Handle of a running command: its pid and three endpoints (standard
/// output, standard error, exit), each handed out at most once.
///
/// Input to the process (standard input, terminal input) and terminal
/// resizing are not offered: the agent calls for them are not wired. The
/// process is ended with the request from `kill_request`.
pub struct CommandHandle {
    pub pid: i32,
    stdout_rx: Option<tokio::sync::mpsc::UnboundedReceiver<String>>,
    stderr_rx: Option<tokio::sync::mpsc::UnboundedReceiver<String>>,
    exit_rx: Option<tokio::sync::oneshot::Receiver<CommandResult>>,
}

impl CommandHandle {
    pub closed spec fn pid_of(&self) -> i32 {
        self.pid
    }

    pub closed spec fn stdout_slot(&self) -> Option<tokio::sync::mpsc::UnboundedReceiver<String>> {
        self.stdout_rx
    }

    pub closed spec fn stderr_slot(&self) -> Option<tokio::sync::mpsc::UnboundedReceiver<String>> {
        self.stderr_rx
    }

    pub closed spec fn exit_slot(&self) -> Option<tokio::sync::oneshot::Receiver<CommandResult>> {
        self.exit_rx
    }

    /// A handle holding all three endpoints.
    pub fn new(
        pid: i32,
        stdout_rx: tokio::sync::mpsc::UnboundedReceiver<String>,
        stderr_rx: tokio::sync::mpsc::UnboundedReceiver<String>,
        exit_rx: tokio::sync::oneshot::Receiver<CommandResult>,
    ) -> (r: Self)
        ensures
            r.pid_of() == pid,
            r.stdout_slot() == Some(stdout_rx),
            r.stderr_slot() == Some(stderr_rx),
            r.exit_slot() == Some(exit_rx),
    {
        CommandHandle {
            pid,
            stdout_rx: Some(stdout_rx),
            stderr_rx: Some(stderr_rx),
            exit_rx: Some(exit_rx),
        }
    }

    /// The standard-output endpoint, the first time; none afterwards.
    pub fn stdout_stream(&mut self) -> (r: Option<tokio::sync::mpsc::UnboundedReceiver<String>>)
        ensures
            (r, final(self).stdout_slot()) == take_once(old(self).stdout_slot()),
            final(self).stderr_slot() == old(self).stderr_slot(),
            final(self).exit_slot() == old(self).exit_slot(),
            final(self).pid_of() == old(self).pid_of(),
    {
        self.stdout_rx.take()
    }

    /// The standard-error endpoint, the first time; none afterwards.
    pub fn stderr_stream(&mut self) -> (r: Option<tokio::sync::mpsc::UnboundedReceiver<String>>)
        ensures
            (r, final(self).stderr_slot()) == take_once(old(self).stderr_slot()),
            final(self).stdout_slot() == old(self).stdout_slot(),
            final(self).exit_slot() == old(self).exit_slot(),
            final(self).pid_of() == old(self).pid_of(),
    {
        self.stderr_rx.take()
    }

    /// The exit endpoint that a wait consumes, the first time; the error
    /// "Command already waited" afterwards.
    pub fn take_exit(&mut self) -> (r: Result<tokio::sync::oneshot::Receiver<CommandResult>, SandboxError>)
        ensures
            final(self).exit_slot() is None,
            final(self).stdout_slot() == old(self).stdout_slot(),
            final(self).stderr_slot() == old(self).stderr_slot(),
            final(self).pid_of() == old(self).pid_of(),
            match old(self).exit_slot() {
                Some(x) => r == Ok::<_, SandboxError>(x),
                None => r matches Err(e) && already_waited(e, "Command already waited"@),
            },
    {
        match self.exit_rx.take() {
            Some(x) => Ok(x),
            None => {
                Err(SandboxError::other("Command already waited"))
            },
        }
    }

    /// The request that kills this command (SIGKILL to its pid).
    pub fn kill_request(&self) -> (r: SendSignalRequest)
        ensures
            is_kill_request(r, self.pid_of()),
    {
        kill_request(self.pid)
    }
}

/// Handle of a running command for asynchronous callers; the same
/// endpoints, handed out at most once each.
///
/// Input to the process (standard input, terminal input) and terminal
/// resizing are not offered: the agent calls for them are not wired. The
/// process is ended with the request from `kill_request`.
pub struct AsyncCommandHandle {
    pub pid: i32,
    stdout_rx: Option<tokio::sync::mpsc::UnboundedReceiver<String>>,
    stderr_rx: Option<tokio::sync::mpsc::UnboundedReceiver<String>>,
    exit_rx: Option<tokio::sync::oneshot::Receiver<CommandResult>>,
}

impl AsyncCommandHandle {
    pub closed spec fn pid_of(&self) -> i32 {
        self.pid
    }

    pub closed spec fn stdout_slot(&self) -> Option<tokio::sync::mpsc::UnboundedReceiver<String>> {
        self.stdout_rx
    }

    pub closed spec fn stderr_slot(&self) -> Option<tokio::sync::mpsc::UnboundedReceiver<String>> {
        self.stderr_rx
    }

    pub closed spec fn exit_slot(&self) -> Option<tokio::sync::oneshot::Receiver<CommandResult>> {
        self.exit_rx
    }

    /// A handle holding all three endpoints.
    pub fn new(
        pid: i32,
        stdout_rx: tokio::sync::mpsc::UnboundedReceiver<String>,
        stderr_rx: tokio::sync::mpsc::UnboundedReceiver<String>,
        exit_rx: tokio::sync::oneshot::Receiver<CommandResult>,
    ) -> (r: Self)
        ensures
            r.pid_of() == pid,
            r.stdout_slot() == Some(stdout_rx),
            r.stderr_slot() == Some(stderr_rx),
            r.exit_slot() == Some(exit_rx),
    {
        AsyncCommandHandle {
            pid,
            stdout_rx: Some(stdout_rx),
            stderr_rx: Some(stderr_rx),
            exit_rx: Some(exit_rx),
        }
    }

    /// The standard-output endpoint, the first time; none afterwards.
    pub fn stdout_stream(&mut self) -> (r: Option<tokio::sync::mpsc::UnboundedReceiver<String>>)
        ensures
            (r, final(self).stdout_slot()) == take_once(old(self).stdout_slot()),
            final(self).stderr_slot() == old(self).stderr_slot(),
            final(self).exit_slot() == old(self).exit_slot(),
            final(self).pid_of() == old(self).pid_of(),
    {
        self.stdout_rx.take()
    }

    /// The standard-error endpoint, the first time; none afterwards.
    pub fn stderr_stream(&mut self) -> (r: Option<tokio::sync::mpsc::UnboundedReceiver<String>>)
        ensures
            (r, final(self).stderr_slot()) == take_once(old(self).stderr_slot()),
            final(self).stdout_slot() == old(self).stdout_slot(),
            final(self).exit_slot() == old(self).exit_slot(),
            final(self).pid_of() == old(self).pid_of(),
    {
        self.stderr_rx.take()
    }

    /// The exit endpoint that a wait consumes, the first time; the error
    /// "Command already waited" afterwards.
    pub fn take_exit(&mut self) -> (r: Result<tokio::sync::oneshot::Receiver<CommandResult>, SandboxError>)
        ensures
            final(self).exit_slot() is None,
            final(self).stdout_slot() == old(self).stdout_slot(),
            final(self).stderr_slot() == old(self).stderr_slot(),
            final(self).pid_of() == old(self).pid_of(),
            match old(self).exit_slot() {
                Some(x) => r == Ok::<_, SandboxError>(x),
                None => r matches Err(e) && already_waited(e, "Command already waited"@),
            },
    {
        match self.exit_rx.take() {
            Some(x) => Ok(x),
            None => {
                Err(SandboxError::other("Command already waited"))
            },
        }
    }

    /// The request that kills this command (SIGKILL to its pid).
    pub fn kill_request(&self) -> (r: SendSignalRequest)
        ensures
            is_kill_request(r, self.pid_of()),
    {
        kill_request(self.pid)
    }
}

} // verus!
