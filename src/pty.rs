//! Terminal sessions: the handle that hands out a session's output and
//! exit endpoints once each.

use vstd::prelude::*;
use crate::commands::{already_waited, is_kill_request, kill_request, take_once, PtyOutput};
use crate::error::SandboxError;
use crate::json_types::SendSignalRequest;

pub use crate::commands::PtySize;

verus! {

/// Handle of a terminal session: its pid, a local session id, and two
/// endpoints (output bytes, exit code), each handed out at most once.
///
/// Input to the process (standard input, terminal input) and terminal
/// resizing are not offered: the agent calls for them are not wired. The
/// process is ended with the request from `kill_request`.
pub struct PtyHandle {
    pub pid: i32,
    pub pty_id: String,
    output_rx: Option<tokio::sync::mpsc::UnboundedReceiver<PtyOutput>>,
    exit_rx: Option<tokio::sync::oneshot::Receiver<i32>>,
}

impl PtyHandle {
    pub closed spec fn pid_of(&self) -> i32 {
        self.pid
    }

    pub closed spec fn id_of(&self) -> String {
        self.pty_id
    }

    pub closed spec fn output_slot(&self) -> Option<tokio::sync::mpsc::UnboundedReceiver<PtyOutput>> {
        self.output_rx
    }

    pub closed spec fn exit_slot(&self) -> Option<tokio::sync::oneshot::Receiver<i32>> {
        self.exit_rx
    }

    /// A handle holding both endpoints.
    pub fn new(
        pid: i32,
        pty_id: String,
        output_rx: tokio::sync::mpsc::UnboundedReceiver<PtyOutput>,
        exit_rx: tokio::sync::oneshot::Receiver<i32>,
    ) -> (r: Self)
        ensures
            r.pid_of() == pid,
            r.id_of() == pty_id,
            r.output_slot() == Some(output_rx),
            r.exit_slot() == Some(exit_rx),
    {
        PtyHandle { pid, pty_id, output_rx: Some(output_rx), exit_rx: Some(exit_rx) }
    }

    /// The output endpoint, the first time; none afterwards.
    pub fn output_stream(&mut self) -> (r: Option<tokio::sync::mpsc::UnboundedReceiver<PtyOutput>>)
        ensures
            (r, final(self).output_slot()) == take_once(old(self).output_slot()),
            final(self).exit_slot() == old(self).exit_slot(),
            final(self).pid_of() == old(self).pid_of(),
    {
        self.output_rx.take()
    }

    /// The exit endpoint that a wait consumes, the first time; the error
    /// "PTY already waited" afterwards.
    pub fn take_exit(&mut self) -> (r: Result<tokio::sync::oneshot::Receiver<i32>, SandboxError>)
        ensures
            final(self).exit_slot() is None,
            final(self).output_slot() == old(self).output_slot(),
            final(self).pid_of() == old(self).pid_of(),
            match old(self).exit_slot() {
                Some(x) => r == Ok::<_, SandboxError>(x),
                None => r matches Err(e) && already_waited(e, "PTY already waited"@),
            },
    {
        match self.exit_rx.take() {
            Some(x) => Ok(x),
            None => Err(SandboxError::other("PTY already waited")),
        }
    }

    /// The request that kills this session (SIGKILL to its pid).
    pub fn kill_request(&self) -> (r: SendSignalRequest)
        ensures
            is_kill_request(r, self.pid_of()),
    {
        kill_request(self.pid)
    }
}

/// Handle of a terminal session for asynchronous callers; the same
/// endpoints, handed out at most once each.
///
/// Input to the process (standard input, terminal input) and terminal
/// resizing are not offered: the agent calls for them are not wired. The
/// process is ended with the request from `kill_request`.
pub struct AsyncPtyHandle {
    pub pid: i32,
    pub pty_id: String,
    output_rx: Option<tokio::sync::mpsc::UnboundedReceiver<PtyOutput>>,
    exit_rx: Option<tokio::sync::oneshot::Receiver<i32>>,
}

impl AsyncPtyHandle {
    pub closed spec fn pid_of(&self) -> i32 {
        self.pid
    }

    pub closed spec fn id_of(&self) -> String {
        self.pty_id
    }

    pub closed spec fn output_slot(&self) -> Option<tokio::sync::mpsc::UnboundedReceiver<PtyOutput>> {
        self.output_rx
    }

    pub closed spec fn exit_slot(&self) -> Option<tokio::sync::oneshot::Receiver<i32>> {
        self.exit_rx
    }

    /// A handle holding both endpoints.
    pub fn new(
        pid: i32,
        pty_id: String,
        output_rx: tokio::sync::mpsc::UnboundedReceiver<PtyOutput>,
        exit_rx: tokio::sync::oneshot::Receiver<i32>,
    ) -> (r: Self)
        ensures
            r.pid_of() == pid,
            r.id_of() == pty_id,
            r.output_slot() == Some(output_rx),
            r.exit_slot() == Some(exit_rx),
    {
        AsyncPtyHandle { pid, pty_id, output_rx: Some(output_rx), exit_rx: Some(exit_rx) }
    }

    /// The output endpoint, the first time; none afterwards.
    pub fn output_stream(&mut self) -> (r: Option<tokio::sync::mpsc::UnboundedReceiver<PtyOutput>>)
        ensures
            (r, final(self).output_slot()) == take_once(old(self).output_slot()),
            final(self).exit_slot() == old(self).exit_slot(),
            final(self).pid_of() == old(self).pid_of(),
    {
        self.output_rx.take()
    }

    /// The exit endpoint that a wait consumes, the first time; the error
    /// "PTY already waited" afterwards.
    pub fn take_exit(&mut self) -> (r: Result<tokio::sync::oneshot::Receiver<i32>, SandboxError>)
        ensures
            final(self).exit_slot() is None,
            final(self).output_slot() == old(self).output_slot(),
            final(self).pid_of() == old(self).pid_of(),
            match old(self).exit_slot() {
                Some(x) => r == Ok::<_, SandboxError>(x),
                None => r matches Err(e) && already_waited(e, "PTY already waited"@),
            },
    {
        match self.exit_rx.take() {
            Some(x) => Ok(x),
            None => Err(SandboxError::other("PTY already waited")),
        }
    }

    /// The request that kills this session (SIGKILL to its pid).
    pub fn kill_request(&self) -> (r: SendSignalRequest)
        ensures
            is_kill_request(r, self.pid_of()),
    {
        kill_request(self.pid)
    }
}

} // verus!
