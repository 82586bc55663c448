//! The JSON shapes of the framed-RPC messages, and their conversions from
//! and to the service messages.

use vstd::prelude::*;
use std::collections::HashMap;
use crate::proto::filesystem as fs;
use crate::proto::process as pr;

verus! {

// Filesystem messages

#[derive(Debug, Clone)]
pub struct ListDirRequest {
    pub path: String,
    pub depth: u32,
}

#[derive(Debug, Clone)]
pub struct ListDirResponse {
    pub entries: Vec<EntryInfo>,
}

#[derive(Debug, Clone)]
pub struct StatRequest {
    pub path: String,
}

#[derive(Debug, Clone)]
pub struct StatResponse {
    pub entry: Option<EntryInfo>,
}

#[derive(Debug, Clone)]
pub struct MakeDirRequest {
    pub path: String,
}

#[derive(Debug, Clone)]
pub struct MakeDirResponse {
    pub entry: Option<EntryInfo>,
}

#[derive(Debug, Clone)]
pub struct RemoveRequest {
    pub path: String,
}

#[derive(Debug, Clone)]
pub struct RemoveResponse {}

#[derive(Debug, Clone)]
pub struct MoveRequest {
    pub source: String,
    pub destination: String,
}

#[derive(Debug, Clone)]
pub struct MoveResponse {
    pub entry: Option<EntryInfo>,
}

/// A directory entry; `file_type` is the `type` member on the wire.
#[derive(Debug, Clone)]
pub struct EntryInfo {
    pub name: String,
    pub file_type: i32,
    pub path: String,
}

/// Kind of a directory entry, by its wire code.
#[derive(Debug, Clone, Copy, PartialEq, Eq, Structural)]
pub enum FileType {
    Unspecified,
    File,
    Directory,
}

// Process messages

#[derive(Debug, Clone)]
pub struct ListRequest {}

#[derive(Debug, Clone)]
pub struct ListResponse {
    pub processes: Vec<ProcessInfo>,
}

#[derive(Debug, Clone)]
pub struct ProcessInfo {
    pub pid: u32,
    pub tag: String,
    pub config: Option<ProcessConfig>,
}

#[derive(Debug, Clone)]
pub struct ProcessConfig {
    pub cmd: String,
    pub args: Vec<String>,
    pub envs: HashMap<String, String>,
    pub cwd: Option<String>,
}

#[derive(Debug, Clone)]
pub struct SendSignalRequest {
    pub process: Option<ProcessSelector>,
    pub signal: i32,
}

#[derive(Debug, Clone)]
pub struct SendSignalResponse {}

#[derive(Debug, Clone)]
pub struct ProcessSelector {
    pub selector: Option<ProcessSelectorType>,
}

/// A process chosen by pid or by tag (an untagged member on the wire).
#[derive(Debug, Clone)]
pub enum ProcessSelectorType {
    Pid { pid: u32 },
    Tag { tag: String },
}

/// Signals, by their wire codes.
#[derive(Debug, Clone, Copy, PartialEq, Eq, Structural)]
pub enum Signal {
    Sigkill,
    Sigterm,
    Sigint,
}

// Streaming messages

#[derive(Debug, Clone)]
pub struct StartRequest {
    pub process: ProcessConfig,
    pub pty: Option<Pty>,
    pub tag: Option<String>,
}

#[derive(Debug, Clone)]
pub struct StartResponse {
    pub event: ProcessEvent,
}

/// One event of a process stream; any subset of the members may be set.
#[derive(Debug, Clone)]
pub struct ProcessEvent {
    pub start: Option<StartEvent>,
    pub data: Option<DataEvent>,
    pub end: Option<EndEvent>,
    pub keep_alive: Option<ProcessKeepAliveEvent>,
}

#[derive(Debug, Clone)]
pub struct StartEvent {
    pub pid: u32,
}

/// Output bytes of a process (base64 text on the wire).
#[derive(Debug, Clone)]
pub struct DataEvent {
    pub stdout: Option<Vec<u8>>,
    pub stderr: Option<Vec<u8>>,
    pub pty: Option<Vec<u8>>,
}

#[derive(Debug, Clone)]
pub struct EndEvent {
    pub exit_code: i32,
    pub error: Option<String>,
}

#[derive(Debug, Clone)]
pub struct Pty {
    pub size: Option<PtySize>,
}

#[derive(Debug, Clone, Copy)]
pub struct PtySize {
    pub cols: u32,
    pub rows: u32,
}

#[derive(Debug, Clone)]
pub struct WatchDirRequest {
    pub path: String,
    pub recursive: bool,
}

#[derive(Debug, Clone)]
pub struct WatchDirResponse {
    pub event: Option<WatchEvent>,
}

/// One event of a watch stream (an untagged member on the wire).
#[derive(Debug, Clone)]
pub enum WatchEvent {
    Start { start: WatchStartEvent },
    Filesystem { filesystem: FilesystemEvent },
    KeepAlive { keepalive: ProcessKeepAliveEvent },
}

#[derive(Debug, Clone)]
pub struct WatchStartEvent {}

/// A filesystem change; `event_type` is the `type` member on the wire.
#[derive(Debug, Clone)]
pub struct FilesystemEvent {
    pub name: String,
    pub event_type: i32,
}

#[derive(Debug, Clone)]
pub struct ProcessKeepAliveEvent {}

/// Kind of a filesystem change, by its wire code.
#[derive(Debug, Clone, Copy, PartialEq, Eq, Structural)]
pub enum FilesystemEventType {
    Unspecified,
    Create,
    Write,
    Remove,
    Rename,
    Chmod,
}

// Conversions

/// The service form of an entry.
pub open spec fn entry_to_proto(e: EntryInfo) -> fs::EntryInfo {
    fs::EntryInfo { name: e.name, file_type: e.file_type, path: e.path }
}

/// The service form of an optional entry.
pub open spec fn opt_entry_to_proto(e: Option<EntryInfo>) -> Option<fs::EntryInfo> {
    match e {
        Some(x) => Some(entry_to_proto(x)),
        None => None,
    }
}

fn convert_entry(e: EntryInfo) -> (r: fs::EntryInfo)
    ensures
        r == entry_to_proto(e),
{
    fs::EntryInfo { name: e.name, file_type: e.file_type, path: e.path }
}

fn convert_opt_entry(e: Option<EntryInfo>) -> (r: Option<fs::EntryInfo>)
    ensures
        r == opt_entry_to_proto(e),
{
    match e {
        Some(x) => Some(convert_entry(x)),
        None => None,
    }
}

/// The service form of a list of entries, in order.
pub fn entries_to_proto(v: &Vec<EntryInfo>) -> (r: Vec<fs::EntryInfo>)
    ensures
        r@ == v@.map_values(|e: EntryInfo| entry_to_proto(e)),
{
    let mut out: Vec<fs::EntryInfo> = Vec::new();
    let mut i: usize = 0;
    while i < v.len()
        invariant
            i <= v@.len(),
            out@ == v@.subrange(0, i as int).map_values(|e: EntryInfo| entry_to_proto(e)),
        decreases v@.len() - i,
    {
        let e = &v[i];
        out.push(fs::EntryInfo { name: e.name.clone(), file_type: e.file_type, path: e.path.clone() });
        i = i + 1;
        assert(out@ =~= v@.subrange(0, i as int).map_values(|e: EntryInfo| entry_to_proto(e)));
    }
    assert(v@.subrange(0, i as int) =~= v@);
    out
}

impl From<fs::ListDirRequest> for ListDirRequest {
    fn from(req: fs::ListDirRequest) -> Self {
        ListDirRequest { path: req.path, depth: req.depth }
    }
}

impl vstd::std_specs::convert::FromSpecImpl<fs::ListDirRequest> for ListDirRequest {
    open spec fn obeys_from_spec() -> bool {
        true
    }

    open spec fn from_spec(req: fs::ListDirRequest) -> Self {
        ListDirRequest { path: req.path, depth: req.depth }
    }
}

impl From<ListDirResponse> for fs::ListDirResponse {
    fn from(resp: ListDirResponse) -> Self {
        fs::ListDirResponse { entries: entries_to_proto(&resp.entries) }
    }
}

impl vstd::std_specs::convert::FromSpecImpl<ListDirResponse> for fs::ListDirResponse {
    /// A list is carried element by element (see `entries_to_proto`).
    open spec fn obeys_from_spec() -> bool {
        false
    }

    open spec fn from_spec(resp: ListDirResponse) -> Self {
        arbitrary()
    }
}

impl From<fs::StatRequest> for StatRequest {
    fn from(req: fs::StatRequest) -> Self {
        StatRequest { path: req.path }
    }
}

impl vstd::std_specs::convert::FromSpecImpl<fs::StatRequest> for StatRequest {
    open spec fn obeys_from_spec() -> bool {
        true
    }

    open spec fn from_spec(req: fs::StatRequest) -> Self {
        StatRequest { path: req.path }
    }
}

impl From<StatResponse> for fs::StatResponse {
    fn from(resp: StatResponse) -> Self {
        fs::StatResponse { entry: convert_opt_entry(resp.entry) }
    }
}

impl vstd::std_specs::convert::FromSpecImpl<StatResponse> for fs::StatResponse {
    open spec fn obeys_from_spec() -> bool {
        true
    }

    open spec fn from_spec(resp: StatResponse) -> Self {
        fs::StatResponse { entry: opt_entry_to_proto(resp.entry) }
    }
}

impl From<fs::MakeDirRequest> for MakeDirRequest {
    fn from(req: fs::MakeDirRequest) -> Self {
        MakeDirRequest { path: req.path }
    }
}

impl vstd::std_specs::convert::FromSpecImpl<fs::MakeDirRequest> for MakeDirRequest {
    open spec fn obeys_from_spec() -> bool {
        true
    }

    open spec fn from_spec(req: fs::MakeDirRequest) -> Self {
        MakeDirRequest { path: req.path }
    }
}

impl From<MakeDirResponse> for fs::MakeDirResponse {
    fn from(resp: MakeDirResponse) -> Self {
        fs::MakeDirResponse { entry: convert_opt_entry(resp.entry) }
    }
}

impl vstd::std_specs::convert::FromSpecImpl<MakeDirResponse> for fs::MakeDirResponse {
    open spec fn obeys_from_spec() -> bool {
        true
    }

    open spec fn from_spec(resp: MakeDirResponse) -> Self {
        fs::MakeDirResponse { entry: opt_entry_to_proto(resp.entry) }
    }
}

impl From<fs::RemoveRequest> for RemoveRequest {
    fn from(req: fs::RemoveRequest) -> Self {
        RemoveRequest { path: req.path }
    }
}

impl vstd::std_specs::convert::FromSpecImpl<fs::RemoveRequest> for RemoveRequest {
    open spec fn obeys_from_spec() -> bool {
        true
    }

    open spec fn from_spec(req: fs::RemoveRequest) -> Self {
        RemoveRequest { path: req.path }
    }
}

impl From<RemoveResponse> for fs::RemoveResponse {
    fn from(resp: RemoveResponse) -> Self {
        fs::RemoveResponse {}
    }
}

impl vstd::std_specs::convert::FromSpecImpl<RemoveResponse> for fs::RemoveResponse {
    open spec fn obeys_from_spec() -> bool {
        true
    }

    open spec fn from_spec(resp: RemoveResponse) -> Self {
        fs::RemoveResponse {}
    }
}

impl From<fs::MoveRequest> for MoveRequest {
    fn from(req: fs::MoveRequest) -> Self {
        MoveRequest { source: req.source, destination: req.destination }
    }
}

impl vstd::std_specs::convert::FromSpecImpl<fs::MoveRequest> for MoveRequest {
    open spec fn obeys_from_spec() -> bool {
        true
    }

    open spec fn from_spec(req: fs::MoveRequest) -> Self {
        MoveRequest { source: req.source, destination: req.destination }
    }
}

impl From<MoveResponse> for fs::MoveResponse {
    fn from(resp: MoveResponse) -> Self {
        fs::MoveResponse { entry: convert_opt_entry(resp.entry) }
    }
}

impl vstd::std_specs::convert::FromSpecImpl<MoveResponse> for fs::MoveResponse {
    open spec fn obeys_from_spec() -> bool {
        true
    }

    open spec fn from_spec(resp: MoveResponse) -> Self {
        fs::MoveResponse { entry: opt_entry_to_proto(resp.entry) }
    }
}

impl From<pr::ListRequest> for ListRequest {
    fn from(req: pr::ListRequest) -> Self {
        ListRequest {}
    }
}

impl vstd::std_specs::convert::FromSpecImpl<pr::ListRequest> for ListRequest {
    open spec fn obeys_from_spec() -> bool {
        true
    }

    open spec fn from_spec(req: pr::ListRequest) -> Self {
        ListRequest {}
    }
}

/// The service form of a process description: the tag is always present.
pub open spec fn process_to_proto(p: ProcessInfo) -> pr::ProcessInfo {
    pr::ProcessInfo {
        pid: p.pid,
        tag: Some(p.tag),
        config: match p.config {
            Some(c) => Some(pr::ProcessConfig { cmd: c.cmd, args: c.args, envs: c.envs, cwd: c.cwd }),
            None => None,
        },
    }
}

/// The service form of a list of process descriptions, in order.
pub fn processes_to_proto(v: Vec<ProcessInfo>) -> (r: Vec<pr::ProcessInfo>)
    ensures
        r@ == v@.map_values(|p: ProcessInfo| process_to_proto(p)),
{
    let mut v = v;
    let ghost orig = v@;
    let mut rev: Vec<pr::ProcessInfo> = Vec::new();
    while v.len() > 0
        invariant
            v@ == orig.subrange(0, v@.len() as int),
            v@.len() <= orig.len(),
            rev@.len() == orig.len() - v@.len(),
            forall|k: int|
                0 <= k < rev@.len() ==> #[trigger] rev@[k] == process_to_proto(
                    orig[orig.len() - 1 - k],
                ),
        decreases v@.len(),
    {
        let p = v.pop().unwrap();
        let config = match p.config {
            Some(c) => Some(pr::ProcessConfig { cmd: c.cmd, args: c.args, envs: c.envs, cwd: c.cwd }),
            None => None,
        };
        rev.push(pr::ProcessInfo { pid: p.pid, tag: Some(p.tag), config });
        assert(v@ =~= orig.subrange(0, v@.len() as int));
    }
    let mut out: Vec<pr::ProcessInfo> = Vec::new();
    let n = rev.len();
    while rev.len() > 0
        invariant
            n == orig.len(),
            rev@.len() <= n,
            out@.len() == n - rev@.len(),
            forall|k: int| 0 <= k < rev@.len() ==> #[trigger] rev@[k] == process_to_proto(orig[n - 1 - k]),
            forall|k: int| 0 <= k < out@.len() ==> #[trigger] out@[k] == process_to_proto(orig[k]),
        decreases rev@.len(),
    {
        let p = rev.pop().unwrap();
        out.push(p);
    }
    assert(out@ =~= orig.map_values(|p: ProcessInfo| process_to_proto(p)));
    out
}

impl From<ListResponse> for pr::ListResponse {
    fn from(resp: ListResponse) -> Self {
        pr::ListResponse { processes: processes_to_proto(resp.processes) }
    }
}

impl vstd::std_specs::convert::FromSpecImpl<ListResponse> for pr::ListResponse {
    /// A list is carried element by element (see `processes_to_proto`).
    open spec fn obeys_from_spec() -> bool {
        false
    }

    open spec fn from_spec(resp: ListResponse) -> Self {
        arbitrary()
    }
}

/// The JSON form of a process selector.
pub open spec fn selector_from_proto(s: pr::ProcessSelector) -> ProcessSelector {
    ProcessSelector {
        selector: match s.selector {
            Some(pr::Selector::Pid(pid)) => Some(ProcessSelectorType::Pid { pid }),
            Some(pr::Selector::Tag(tag)) => Some(ProcessSelectorType::Tag { tag }),
            None => None,
        },
    }
}

impl From<pr::SendSignalRequest> for SendSignalRequest {
    fn from(req: pr::SendSignalRequest) -> Self {
        let process = match req.process {
            Some(sel) => Some(
                ProcessSelector {
                    selector: match sel.selector {
                        Some(pr::Selector::Pid(pid)) => Some(ProcessSelectorType::Pid { pid }),
                        Some(pr::Selector::Tag(tag)) => Some(ProcessSelectorType::Tag { tag }),
                        None => None,
                    },
                },
            ),
            None => None,
        };
        SendSignalRequest { process, signal: req.signal }
    }
}

impl vstd::std_specs::convert::FromSpecImpl<pr::SendSignalRequest> for SendSignalRequest {
    open spec fn obeys_from_spec() -> bool {
        true
    }

    open spec fn from_spec(req: pr::SendSignalRequest) -> Self {
        SendSignalRequest {
            process: match req.process {
                Some(sel) => Some(selector_from_proto(sel)),
                None => None,
            },
            signal: req.signal,
        }
    }
}

impl From<SendSignalResponse> for pr::SendSignalResponse {
    fn from(resp: SendSignalResponse) -> Self {
        pr::SendSignalResponse {}
    }
}

impl vstd::std_specs::convert::FromSpecImpl<SendSignalResponse> for pr::SendSignalResponse {
    open spec fn obeys_from_spec() -> bool {
        true
    }

    open spec fn from_spec(resp: SendSignalResponse) -> Self {
        pr::SendSignalResponse {}
    }
}

} // verus!
