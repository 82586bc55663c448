//! The per-sandbox agent: where it is reached, how requests to it are
//! authenticated and built, and how its answers become library values.

use vstd::prelude::*;
use base64::Engine;
use vstd::string::StringSliceAdditionalSpecFns;
use std::collections::HashMap;
use crate::commands::{ProcessInfo, PtySize};
use crate::config::Config;
use crate::connect::{ConnectConfig, ConnectError, ConnectResult};
use crate::error::{map_connect_error, is_status_error, coded_text, SandboxError, ErrorKind};
use crate::filesystem::{EntryInfo, FileType};
use crate::json_types::{self as wire, ProcessConfig, StartRequest, WatchDirRequest};
use crate::proto::filesystem as fs;
use crate::proto::process as pr;
use crate::text::{concat2, push_text, starts_with};

verus! {

/// Route of the agent's bulk file endpoint.
pub const ENVD_API_FILES_ROUTE: &'static str = "/files";

/// Route of the agent's health endpoint.
pub const ENVD_API_HEALTH_ROUTE: &'static str = "/health";

/// The user that agent requests act as, unless another is chosen.
pub const DEFAULT_USER: &'static str = "user";

// ---------------------------------------------------------------------
// Outside calls
// ---------------------------------------------------------------------

/// The host that the `url` crate parses out of a URL (none when the text is
/// not an absolute URL or has no host).
pub uninterp spec fn url_host_of(url: Seq<char>) -> Option<Seq<char>>;

/// The URL that the `url` crate makes of `url` with its host replaced by
/// `host` (none when either is refused).
pub uninterp spec fn url_with_host_of(url: Seq<char>, host: Seq<char>) -> Option<Seq<char>>;

/// The digit of a six-bit value in the standard base64 alphabet.
pub open spec fn b64_digit(v: nat) -> char {
    "ABCDEFGHIJKLMNOPQRSTUVWXYZabcdefghijklmnopqrstuvwxyz0123456789+/"@[v as int]
}

/// The standard base64 encoding of some bytes, padded with `=`: each group
/// of three bytes gives four digits; a last group of one or two bytes
/// gives two or three digits and the padding.
pub open spec fn base64_of(b: Seq<u8>) -> Seq<char>
    decreases b.len(),
{
    if b.len() == 0 {
        Seq::empty()
    } else if b.len() == 1 {
        seq![b64_digit(b[0] as nat / 4), b64_digit((b[0] as nat % 4) * 16), '=', '=']
    } else if b.len() == 2 {
        seq![
            b64_digit(b[0] as nat / 4),
            b64_digit((b[0] as nat % 4) * 16 + b[1] as nat / 16),
            b64_digit((b[1] as nat % 16) * 4),
            '=',
        ]
    } else {
        seq![
            b64_digit(b[0] as nat / 4),
            b64_digit((b[0] as nat % 4) * 16 + b[1] as nat / 16),
            b64_digit((b[1] as nat % 16) * 4 + b[2] as nat / 64),
            b64_digit(b[2] as nat % 64),
        ] + base64_of(b.skip(3))
    }
}

/// Relies on `url::Url::parse` and `Url::host_str`: the host of a URL.
#[verifier::external_body]
fn url_host(url: &str) -> (r: Option<String>)
    ensures
        match r {
            Some(h) => url_host_of(url@) == Some(h@),
            None => url_host_of(url@) is None,
        },
{
    url::Url::parse(url).ok().and_then(|u| u.host_str().map(|h| h.to_string()))
}

/// Relies on `url::Url::set_host`: the URL `url` with the host `host`, as
/// the `url` crate serialises it.
#[verifier::external_body]
fn url_with_host(url: &str, host: &str) -> (r: Option<String>)
    ensures
        match r {
            Some(u) => url_with_host_of(url@, host@) == Some(u@),
            None => url_with_host_of(url@, host@) is None,
        },
{
    let mut u = url::Url::parse(url).ok()?;
    u.set_host(Some(host)).ok()?;
    Some(u.to_string())
}

/// Relies on base64's `STANDARD` engine `encode`: padded standard base64.
#[verifier::external_body]
fn base64_encode(b: &[u8]) -> (r: String)
    ensures
        r@ == base64_of(b@),
{
    base64::engine::general_purpose::STANDARD.encode(b)
}

// ---------------------------------------------------------------------
// Endpoints
// ---------------------------------------------------------------------

/// The host of a control-plane URL without a leading `api.`.
pub open spec fn strip_api(host: Seq<char>) -> Seq<char> {
    if host.len() >= 4 && host.subrange(0, 4) == "api."@ {
        host.skip(4)
    } else {
        host
    }
}

/// The agent host of a sandbox: `49983-<id>.<host without api.>`.
pub open spec fn agent_host_of(full_id: Seq<char>, host: Seq<char>) -> Seq<char> {
    "49983-"@ + full_id + "."@ + strip_api(host)
}

/// The agent host of the sandbox `full_id` (sandbox id and client id joined
/// by `-`) under the control-plane host `host`.
pub fn agent_host(full_id: &str, host: &str) -> (r: String)
    ensures
        r@ == agent_host_of(full_id@, host@),
{
    proof {
        reveal_strlit("api.");
    }
    let rest: &str = if starts_with(host, "api.") {
        host.substring_char(4, host.unicode_len())
    } else {
        host
    };
    let mut s = String::from_str("49983-");
    push_text(&mut s, full_id);
    push_text(&mut s, ".");
    push_text(&mut s, rest);
    s
}

/// The host assumed for a control-plane URL without one.
pub open spec fn fallback_host() -> Seq<char> {
    "api.e2b.app"@
}

/// The agent URL derived from the control-plane URL `base_domain`: its
/// scheme and the agent host, as the `url` crate serialises them.
pub open spec fn envd_url_of(full_id: Seq<char>, base_domain: Seq<char>) -> Option<Seq<char>> {
    let host = match url_host_of(base_domain) {
        Some(h) => h,
        None => fallback_host(),
    };
    url_with_host_of(base_domain, agent_host_of(full_id, host))
}

/// The agent URL of the sandbox `full_id` (sandbox id and client id joined
/// by `-`) under the control-plane URL `base_domain`.
pub fn build_envd_url(full_id: &str, base_domain: &str) -> (r: Result<String, SandboxError>)
    ensures
        match r {
            Ok(u) => envd_url_of(full_id@, base_domain@) == Some(u@),
            Err(e) => envd_url_of(full_id@, base_domain@) is None && e.spec_kind()
                == ErrorKind::InvalidArgument,
        },
{
    let host = match url_host(base_domain) {
        Some(h) => h,
        None => String::from_str("api.e2b.app"),
    };
    let envd_host = agent_host(full_id, host.as_str());
    match url_with_host(base_domain, envd_host.as_str()) {
        Some(u) => Ok(u),
        None => Err(SandboxError::invalid_argument("Invalid envd host")),
    }
}

/// The agent URL in debug mode.
pub const DEBUG_AGENT_URL: &'static str = "http://localhost:49983/";

/// The agent URL in debug mode.
pub open spec fn debug_agent_url() -> Seq<char> {
    "http://localhost:49983/"@
}

/// The agent URL of the sandbox `sandbox_id` of client `client_id`: the
/// local agent in debug mode, else the URL derived from the control plane.
pub fn agent_url(config: &Config, sandbox_id: &str, client_id: &str) -> (r: Result<
    String,
    SandboxError,
>)
    ensures
        config.debug ==> (r matches Ok(u) && u@ == debug_agent_url()),
        !config.debug ==> match r {
            Ok(u) => envd_url_of(sandbox_id@ + "-"@ + client_id@, config.domain@) == Some(u@),
            Err(e) => envd_url_of(sandbox_id@ + "-"@ + client_id@, config.domain@) is None
                && e.spec_kind() == ErrorKind::InvalidArgument,
        },
{
    if config.debug {
        return Ok(String::from_str(DEBUG_AGENT_URL));
    }
    let mut full = String::from_str(sandbox_id);
    push_text(&mut full, "-");
    push_text(&mut full, client_id);
    build_envd_url(full.as_str(), config.domain.as_str())
}

/// The framed-RPC endpoint of a sandbox: the local agent in debug mode (the
/// same URL as `agent_url` gives), else
/// `https://49983-<sandbox_id>.<domain>` (domain `e2b.app` when none is
/// given).
pub fn get_connect_endpoint(sandbox_id: &str, domain: Option<&str>, debug: bool) -> (r: String)
    ensures
        debug ==> r@ == debug_agent_url(),
        !debug ==> r@ == "https://49983-"@ + sandbox_id@ + "."@ + match domain {
            Some(d) => d@,
            None => "e2b.app"@,
        },
{
    if debug {
        return String::from_str(DEBUG_AGENT_URL);
    }
    let d: &str = match domain {
        Some(d) => d,
        None => "e2b.app",
    };
    let mut s = String::from_str("https://49983-");
    push_text(&mut s, sandbox_id);
    push_text(&mut s, ".");
    push_text(&mut s, d);
    s
}

/// `base` and `path` joined by exactly one `/` where `base` ends with one.
pub open spec fn join_url(base: Seq<char>, path: Seq<char>) -> Seq<char> {
    if base.len() > 0 && base.last() == '/' && path.len() > 0 && path[0] == '/' {
        base + path.skip(1)
    } else if base.len() > 0 && base.last() == '/' || path.len() > 0 && path[0] == '/' {
        base + path
    } else {
        base + "/"@ + path
    }
}

/// Joins a base URL and a path with exactly one `/` between them.
pub fn join_path(base: &str, path: &str) -> (r: String)
    ensures
        r@ == join_url(base@, path@),
{
    let n = base.unicode_len();
    let m = path.unicode_len();
    let base_slash = n > 0 && base.get_char(n - 1) == '/';
    let path_slash = m > 0 && path.get_char(0) == '/';
    if base_slash && path_slash {
        concat2(base, path.substring_char(1, m))
    } else if base_slash || path_slash {
        concat2(base, path)
    } else {
        let mut s = String::from_str(base);
        push_text(&mut s, "/");
        push_text(&mut s, path);
        s
    }
}

/// The URL of the method `method` of the service `service` under `base`.
pub fn rpc_url(base: &str, service: &str, method: &str) -> (r: String)
    ensures
        r@ == join_url(base@, service@ + "/"@ + method@),
{
    let mut p = String::from_str(service);
    push_text(&mut p, "/");
    push_text(&mut p, method);
    join_path(base, p.as_str())
}

/// The URL of the agent's bulk file endpoint.
pub fn files_url(base: &str) -> (r: String)
    ensures
        r@ == join_url(base@, "/files"@),
{
    join_path(base, ENVD_API_FILES_ROUTE)
}

/// The URL of the agent's health endpoint.
pub fn health_url(base: &str) -> (r: String)
    ensures
        r@ == join_url(base@, "/health"@),
{
    join_path(base, ENVD_API_HEALTH_ROUTE)
}

// ---------------------------------------------------------------------
// Credentials and headers
// ---------------------------------------------------------------------

/// The agent's credential: Basic auth with the user name and an empty
/// password, so the encoded text is `<username>:`.
pub open spec fn basic_auth_of(username: Seq<u8>) -> Seq<char> {
    "Basic "@ + base64_of(username + seq![58u8])
}

/// The `Authorization` header value of agent requests.
pub fn basic_auth_header(username: &str) -> (r: String)
    ensures
        r@ == basic_auth_of(username.spec_bytes()),
{
    let mut bytes = username.as_bytes_vec();
    bytes.push(58u8);
    assert(bytes@ =~= username.spec_bytes() + seq![58u8]);
    let encoded = base64_encode(bytes.as_slice());
    concat2("Basic ", encoded.as_str())
}

/// The header carrying the agent credential: `Authorization`, with the
/// Basic value for `username`.
pub fn agent_auth_header(username: &str) -> (r: (String, String))
    ensures
        r.0@ == "Authorization"@,
        r.1@ == basic_auth_of(username.spec_bytes()),
{
    (String::from_str("Authorization"), basic_auth_header(username))
}

/// The headers of a framed-RPC call: the protocol version and the content
/// type, and for a streaming call the keepalive interval.
pub fn rpc_headers(streaming: bool) -> (r: Vec<(String, String)>)
    ensures
        r@.len() == if streaming { 3int } else { 2int },
        r@[0].0@ == "connect-protocol-version"@ && r@[0].1@ == "1"@,
        r@[1].0@ == "content-type"@,
        streaming ==> r@[1].1@ == "application/connect+json"@ && r@[2].0@ == "connect-keepalive-ping"@
            && r@[2].1@ == "30"@,
        !streaming ==> r@[1].1@ == "application/json"@,
{
    let mut h: Vec<(String, String)> = Vec::new();
    h.push((String::from_str("connect-protocol-version"), String::from_str("1")));
    if streaming {
        h.push((String::from_str("content-type"), String::from_str("application/connect+json")));
        h.push((String::from_str("connect-keepalive-ping"), String::from_str("30")));
    } else {
        h.push((String::from_str("content-type"), String::from_str("application/json")));
    }
    h
}

/// The settings of the framed-RPC clients of an agent at `endpoint`: JSON
/// bodies, the default timeout, and the agent credential of `username`
/// among the headers.
pub fn connect_config(endpoint: &str, username: &str) -> (r: ConnectConfig)
    ensures
        r.base_url@ == endpoint@,
        r.use_json,
        r.timeout_secs == 30,
        vstd::std_specs::hash::obeys_key_model::<String>() ==> exists|k: String, v: String|
            k@ == "Authorization"@ && v@ == basic_auth_of(username.spec_bytes()) && r.headers@
                == Map::<String, String>::empty().insert(k, v),
{
    let (name, value) = agent_auth_header(username);
    let mut headers: HashMap<String, String> = HashMap::new();
    headers.insert(name, value);
    proof {
        if vstd::std_specs::hash::obeys_key_model::<String>()
            && vstd::std_specs::hash::builds_valid_hashers::<std::hash::RandomState>() {
            assert(headers@ =~= Map::<String, String>::empty().insert(name, value));
        }
    }
    ConnectConfig {
        base_url: String::from_str(endpoint),
        headers,
        timeout_secs: 30,
        use_json: true,
    }
}

// ---------------------------------------------------------------------
// Requests
// ---------------------------------------------------------------------

/// `cmd` followed by each argument, separated by single spaces.
pub open spec fn command_line(cmd: Seq<char>, args: Seq<&str>) -> Seq<char>
    decreases args.len(),
{
    if args.len() == 0 {
        cmd
    } else {
        command_line(cmd, args.drop_last()) + " "@ + args.last()@
    }
}

/// The command line that a login shell runs for `cmd` and `args`.
pub fn shell_command(cmd: &str, args: &[&str]) -> (r: String)
    ensures
        r@ == command_line(cmd@, args@),
{
    let mut s = String::from_str(cmd);
    let mut i: usize = 0;
    while i < args.len()
        invariant
            i <= args@.len(),
            s@ == command_line(cmd@, args@.subrange(0, i as int)),
        decreases args@.len() - i,
    {
        push_text(&mut s, " ");
        push_text(&mut s, args[i]);
        proof {
            let next = args@.subrange(0, i + 1);
            assert(next.drop_last() =~= args@.subrange(0, i as int));
        }
        i = i + 1;
    }
    assert(args@.subrange(0, i as int) =~= args@);
    s
}

/// Whether `args` are the strings of `strs`, in order.
pub open spec fn strings_of(args: Seq<String>, strs: Seq<&str>) -> bool {
    &&& args.len() == strs.len()
    &&& forall|i: int| 0 <= i < args.len() ==> #[trigger] args[i]@ == strs[i]@
}

/// Owned copies of the arguments, in order.
pub fn to_strings(args: &[&str]) -> (r: Vec<String>)
    ensures
        strings_of(r@, args@),
{
    let mut out: Vec<String> = Vec::new();
    let mut i: usize = 0;
    while i < args.len()
        invariant
            i <= args@.len(),
            out@.len() == i,
            forall|k: int| 0 <= k < i ==> #[trigger] out@[k]@ == args@[k]@,
        decreases args@.len() - i,
    {
        out.push(String::from_str(args[i]));
        i = i + 1;
    }
    out
}

/// The request that runs `cmd` with `args` in a login shell
/// (`/bin/bash -l -c "<cmd> <args>"`), so that shell syntax in them is
/// interpreted.
pub fn shell_start_request(
    cmd: &str,
    args: &[&str],
    envs: HashMap<String, String>,
    cwd: Option<String>,
) -> (r: StartRequest)
    ensures
        r.process.cmd@ == "/bin/bash"@,
        r.process.args@.len() == 3,
        r.process.args@[0]@ == "-l"@,
        r.process.args@[1]@ == "-c"@,
        r.process.args@[2]@ == command_line(cmd@, args@),
        r.process.envs == envs,
        r.process.cwd == cwd,
        r.pty is None,
        r.tag is None,
{
    let mut a: Vec<String> = Vec::new();
    a.push(String::from_str("-l"));
    a.push(String::from_str("-c"));
    a.push(shell_command(cmd, args));
    StartRequest {
        process: ProcessConfig { cmd: String::from_str("/bin/bash"), args: a, envs, cwd },
        pty: None,
        tag: None,
    }
}

/// The environment of a one-shot command: the desktop display `:1`.
pub fn display_env() -> (r: HashMap<String, String>)
    ensures
        vstd::std_specs::hash::obeys_key_model::<String>() ==> exists|k: String, v: String|
            k@ == "DISPLAY"@ && v@ == ":1"@ && r@ == Map::<String, String>::empty().insert(k, v),
{
    let mut m: HashMap<String, String> = HashMap::new();
    let k = String::from_str("DISPLAY");
    let v = String::from_str(":1");
    m.insert(k, v);
    proof {
        if vstd::std_specs::hash::obeys_key_model::<String>()
            && vstd::std_specs::hash::builds_valid_hashers::<std::hash::RandomState>() {
            assert(m@ =~= Map::<String, String>::empty().insert(k, v));
        }
    }
    m
}

/// The request that starts `cmd` with `args` directly, on a terminal of
/// the given size (80 columns by 24 rows when none is given).
pub fn pty_start_request(
    cmd: &str,
    args: &[&str],
    envs: HashMap<String, String>,
    cwd: Option<String>,
    size: Option<PtySize>,
) -> (r: StartRequest)
    ensures
        r.process.cmd@ == cmd@,
        strings_of(r.process.args@, args@),
        r.process.envs == envs,
        r.process.cwd == cwd,
        r.tag is None,
        r.pty matches Some(p) && (p.size matches Some(s) && match size {
            Some(z) => s.cols == z.cols && s.rows == z.rows,
            None => s.cols == 80 && s.rows == 24,
        }),
{
    let s = match size {
        Some(z) => z,
        None => PtySize::default(),
    };
    StartRequest {
        process: ProcessConfig { cmd: String::from_str(cmd), args: to_strings(args), envs, cwd },
        pty: Some(wire::Pty { size: Some(wire::PtySize { cols: s.cols, rows: s.rows }) }),
        tag: None,
    }
}

/// The request that lists the direct children of `path`.
pub fn list_dir_request(path: &str) -> (r: fs::ListDirRequest)
    ensures
        r.path@ == path@,
        r.depth == 1,
{
    fs::ListDirRequest { path: String::from_str(path), depth: 1 }
}

/// The request that watches `path` (not recursively).
pub fn watch_dir_request(path: &str) -> (r: WatchDirRequest)
    ensures
        r.path@ == path@,
        !r.recursive,
{
    WatchDirRequest { path: String::from_str(path), recursive: false }
}

// ---------------------------------------------------------------------
// Answers
// ---------------------------------------------------------------------

/// The kind of entry a wire code stands for; unknown codes give none.
pub open spec fn spec_file_type(code: i32) -> Option<FileType> {
    if code == 2 {
        Some(FileType::Dir)
    } else if code == 1 {
        Some(FileType::File)
    } else {
        None
    }
}

/// An entry as the library presents it.
pub fn entry_from_wire(e: fs::EntryInfo) -> (r: EntryInfo)
    ensures
        r.name == e.name,
        r.path == e.path,
        r.file_type == spec_file_type(e.file_type),
{
    let t = if e.file_type == fs::FileType::Directory.code() {
        Some(FileType::Dir)
    } else if e.file_type == fs::FileType::File.code() {
        Some(FileType::File)
    } else {
        None
    };
    EntryInfo { name: e.name, file_type: t, path: e.path }
}

/// The entries of a directory listing, in order.
pub fn entries_from_listing(resp: fs::ListDirResponse) -> (r: Vec<EntryInfo>)
    ensures
        r@.len() == resp.entries@.len(),
        forall|i: int|
            0 <= i < r@.len() ==> (#[trigger] r@[i]).name == resp.entries@[i].name && r@[i].path
                == resp.entries@[i].path && r@[i].file_type == spec_file_type(
                resp.entries@[i].file_type,
            ),
{
    let mut out: Vec<EntryInfo> = Vec::new();
    let mut i: usize = 0;
    while i < resp.entries.len()
        invariant
            i <= resp.entries@.len(),
            out@.len() == i,
            forall|k: int|
                0 <= k < i ==> (#[trigger] out@[k]).name == resp.entries@[k].name && out@[k].path
                    == resp.entries@[k].path && out@[k].file_type == spec_file_type(
                    resp.entries@[k].file_type,
                ),
        decreases resp.entries@.len() - i,
    {
        let e = &resp.entries[i];
        out.push(entry_from_wire(fs::EntryInfo { name: e.name.clone(), file_type: e.file_type, path: e.path.clone() }));
        i = i + 1;
    }
    out
}

/// Whether a path exists, from the answer to its `stat`: an entry means
/// yes, a not-found error means no, any other error is passed on.
pub fn exists_from_stat(stat: ConnectResult<fs::StatResponse>) -> (r: Result<bool, SandboxError>)
    ensures
        match stat {
            Ok(resp) => r == Ok::<bool, SandboxError>(resp.entry is Some),
            Err(ConnectError::Rpc { code, message }) => if code == 404 {
                r == Ok::<bool, SandboxError>(false)
            } else {
                r matches Err(e) && is_status_error(e, code as int, message@, coded_text("RPC error "@, code as int, message@))
            },
            Err(ConnectError::Http(_)) => r matches Err(e) && e.spec_kind() == ErrorKind::Network,
            Err(ConnectError::Json(_)) => r matches Err(e) && e.spec_kind() == ErrorKind::Serialization,
            Err(ConnectError::InvalidResponse(m)) => r matches Err(e) && e.spec_kind() == ErrorKind::Protocol
                && e.spec_message() == m@,
        },
{
    match stat {
        Ok(resp) => Ok(resp.entry.is_some()),
        Err(ConnectError::Rpc { code, message }) => {
            if code == 404 {
                Ok(false)
            } else {
                Err(map_connect_error(ConnectError::Rpc { code, message }))
            }
        },
        Err(e) => Err(map_connect_error(e)),
    }
}

/// A process description as the library presents it; the parts of a
/// missing configuration are empty.
pub fn process_from_wire(p: pr::ProcessInfo) -> (r: ProcessInfo)
    ensures
        r.pid == p.pid as i32,
        r.tag == p.tag,
        match p.config {
            Some(c) => r.cmd == c.cmd && r.args == c.args && r.envs == c.envs && r.cwd == c.cwd,
            None => r.cmd@.len() == 0 && r.args@.len() == 0 && r.envs@ == Map::<String, String>::empty()
                && r.cwd is None,
        },
{
    match p.config {
        Some(c) => ProcessInfo {
            pid: p.pid as i32,
            tag: p.tag,
            cmd: c.cmd,
            args: c.args,
            envs: c.envs,
            cwd: c.cwd,
        },
        None => ProcessInfo {
            pid: p.pid as i32,
            tag: p.tag,
            cmd: String::new(),
            args: Vec::new(),
            envs: HashMap::new(),
            cwd: None,
        },
    }
}

} // verus!
