//! The desktop stack inside a sandbox (virtual display, desktop session,
//! VNC server, browser proxy): the commands that start it, its password,
//! its browser URL and whether it runs.

use vstd::prelude::*;
use rand::Rng;
use crate::error::{SandboxError, ErrorKind};
use crate::text::{decimal, push_char, push_decimal, push_text, str_eq};

verus! {

/// Settings of the desktop stack.
#[derive(Debug, Clone)]
pub struct VncConfig {
    /// Port of the VNC server.
    pub vnc_port: u16,
    /// Port of the browser proxy.
    pub novnc_port: u16,
    /// Whether a password is required.
    pub enable_auth: bool,
    /// The password; one is generated when none is given.
    pub password: Option<String>,
    /// A single window to share instead of the whole display.
    pub window_id: Option<String>,
}

impl Default for VncConfig {
    fn default() -> (r: Self)
        ensures
            r.vnc_port == 5900,
            r.novnc_port == 6080,
            r.enable_auth,
            r.password is None,
            r.window_id is None,
    {
        VncConfig { vnc_port: 5900, novnc_port: 6080, enable_auth: true, password: None, window_id: None }
    }
}

/// Options of the browser URL.
#[derive(Debug, Clone)]
pub struct VncUrlOptions {
    /// Connect as soon as the page loads.
    pub autoconnect: bool,
    /// Show the desktop without taking input.
    pub view_only: bool,
    /// How the view is resized (`off`, `scale`, `remote`).
    pub resize: Option<String>,
}

impl Default for VncUrlOptions {
    fn default() -> (r: Self)
        ensures
            !r.autoconnect,
            !r.view_only,
            r.resize is None,
    {
        VncUrlOptions { autoconnect: false, view_only: false, resize: None }
    }
}

impl VncUrlOptions {
    /// No option set.
    pub fn new() -> (r: Self)
        ensures
            !r.autoconnect,
            !r.view_only,
            r.resize is None,
    {
        VncUrlOptions::default()
    }

    pub fn with_autoconnect(self, autoconnect: bool) -> (r: Self)
        ensures
            r.autoconnect == autoconnect,
            r.view_only == self.view_only,
            r.resize == self.resize,
    {
        VncUrlOptions { autoconnect, ..self }
    }

    pub fn with_view_only(self, view_only: bool) -> (r: Self)
        ensures
            r.view_only == view_only,
            r.autoconnect == self.autoconnect,
            r.resize == self.resize,
    {
        VncUrlOptions { view_only, ..self }
    }

    pub fn with_resize(self, resize: String) -> (r: Self)
        ensures
            r.resize == Some(resize),
            r.autoconnect == self.autoconnect,
            r.view_only == self.view_only,
    {
        VncUrlOptions { resize: Some(resize), ..self }
    }
}

// ---------------------------------------------------------------------
// Password
// ---------------------------------------------------------------------

/// Whether a character is an ASCII letter or digit.
pub open spec fn is_alphanumeric(c: char) -> bool {
    ('a' <= c && c <= 'z') || ('A' <= c && c <= 'Z') || ('0' <= c && c <= '9')
}

/// Relies on rand's `Alphanumeric` distribution, sampled from the thread
/// generator: an ASCII letter or digit, at random.
#[verifier::external_body]
fn random_alphanumeric() -> (r: u8)
    ensures
        is_alphanumeric(r as char),
{
    rand::thread_rng().sample(rand::distributions::Alphanumeric)
}

/// Length of a generated password.
pub const PASSWORD_LEN: usize = 12;

/// The password made of drawn ASCII letters and digits, in order.
pub fn password_from(draws: &Vec<u8>) -> (r: String)
    requires
        draws@.len() == 12,
        forall|i: int| 0 <= i < 12 ==> is_alphanumeric(#[trigger] draws@[i] as char),
    ensures
        r@ == draws@.map_values(|b: u8| b as char),
{
    let mut s = String::new();
    let mut i: usize = 0;
    while i < draws.len()
        invariant
            i <= draws@.len(),
            s@ == draws@.subrange(0, i as int).map_values(|b: u8| b as char),
        decreases draws@.len() - i,
    {
        push_char(&mut s, draws[i] as char);
        i = i + 1;
        assert(s@ =~= draws@.subrange(0, i as int).map_values(|b: u8| b as char));
    }
    assert(draws@.subrange(0, i as int) =~= draws@);
    s
}

/// A random password of 12 ASCII letters and digits: 12 draws, in order.
pub fn generate_password() -> (r: String)
    ensures
        r@.len() == 12,
        forall|i: int| 0 <= i < 12 ==> is_alphanumeric(#[trigger] r@[i]),
{
    let mut draws: Vec<u8> = Vec::new();
    while draws.len() < PASSWORD_LEN
        invariant
            draws@.len() <= 12,
            forall|k: int| 0 <= k < draws@.len() ==> is_alphanumeric(#[trigger] draws@[k] as char),
        decreases 12 - draws@.len(),
    {
        draws.push(random_alphanumeric());
    }
    let r = password_from(&draws);
    assert forall|i: int| 0 <= i < 12 implies is_alphanumeric(#[trigger] r@[i]) by {
        assert(r@[i] == draws@[i] as char);
    }
    r
}

/// A password as `generate_password` makes one: 12 ASCII letters or digits.
pub open spec fn is_generated_password(p: Seq<char>) -> bool {
    p.len() == 12 && forall|i: int| 0 <= i < 12 ==> is_alphanumeric(#[trigger] p[i])
}

/// The password the stack uses: none without authentication; else the
/// configured one, else the one already chosen, else a fresh one.
pub fn choose_password(config: &VncConfig, current: Option<String>) -> (r: Option<String>)
    ensures
        !config.enable_auth ==> r == current,
        config.enable_auth && config.password is Some ==> r == config.password,
        config.enable_auth && config.password is None && current is Some ==> r == current,
        config.enable_auth && config.password is None && current is None ==> (r matches Some(p)
            && is_generated_password(p@)),
{
    if !config.enable_auth {
        return current;
    }
    match &config.password {
        Some(p) => Some(p.clone()),
        None => match current {
            Some(c) => Some(c),
            None => Some(generate_password()),
        },
    }
}

// ---------------------------------------------------------------------
// Commands
// ---------------------------------------------------------------------

/// The texts of a list of strings.
pub open spec fn views(v: Seq<String>) -> Seq<Seq<char>> {
    v.map_values(|s: String| s@)
}

/// The texts of a list of string slices.
pub open spec fn str_views(v: Seq<&str>) -> Seq<Seq<char>> {
    v.map_values(|s: &str| s@)
}

fn strings(items: &[&str]) -> (r: Vec<String>)
    ensures
        views(r@) == str_views(items@),
{
    let r = crate::envd::to_strings(items);
    assert(views(r@) =~= str_views(items@));
    r
}

/// Arguments of the virtual display: `:1 -ac -screen 0 1024x768x24 -retro
/// -dpi 96 -nolisten tcp &`.
pub fn xvfb_args() -> (r: Vec<String>)
    ensures
        views(r@) == seq![":1"@, "-ac"@, "-screen"@, "0"@, "1024x768x24"@, "-retro"@, "-dpi"@, "96"@, "-nolisten"@, "tcp"@, "&"@],
{
    let v = vec![":1", "-ac", "-screen", "0", "1024x768x24", "-retro", "-dpi", "96", "-nolisten", "tcp", "&"];
    let r = strings(v.as_slice());
    assert(str_views(v@) =~= seq![":1"@, "-ac"@, "-screen"@, "0"@, "1024x768x24"@, "-retro"@, "-dpi"@, "96"@, "-nolisten"@, "tcp"@, "&"@]);
    r
}

/// Arguments of the display probe: `-display :1`.
pub fn xdpyinfo_args() -> (r: Vec<String>)
    ensures
        views(r@) == seq!["-display"@, ":1"@],
{
    let v = vec!["-display", ":1"];
    let r = strings(v.as_slice());
    assert(str_views(v@) =~= seq!["-display"@, ":1"@]);
    r
}

/// Number of one-second probes of the display before giving up.
pub const XVFB_PROBES: u32 = 5;

/// What follows a probe of the display.
#[derive(Debug, Clone, Copy, PartialEq, Eq, Structural)]
pub enum ProbeStep {
    /// The display answers.
    Ready,
    /// Wait a second and probe again.
    Wait,
    /// Give up: the display did not start.
    GiveUp,
}

/// The step after probe number `attempt` (counted from 0) of the display
/// ended with `exit_code`: ready on exit code 0; else another probe while
/// fewer than five were made; else give up.
pub fn xvfb_probe_step(attempt: u32, exit_code: i32) -> (r: ProbeStep)
    ensures
        exit_code == 0 ==> r == ProbeStep::Ready,
        exit_code != 0 && attempt + 1 < 5 ==> r == ProbeStep::Wait,
        exit_code != 0 && attempt + 1 >= 5 ==> r == ProbeStep::GiveUp,
{
    if exit_code == 0 {
        ProbeStep::Ready
    } else if attempt < XVFB_PROBES - 1 {
        ProbeStep::Wait
    } else {
        ProbeStep::GiveUp
    }
}

/// The error when the display does not start.
pub fn xvfb_failed() -> (r: SandboxError)
    ensures
        r.spec_kind() == ErrorKind::Other && r.spec_message() == "Could not start Xvfb."@,
{
    SandboxError::other("Could not start Xvfb.")
}

/// The command line that starts the desktop session on the display.
pub const XFCE4_COMMAND: &'static str = "DISPLAY=:1 startxfce4 &";

/// Whether the desktop session must be started: it never was, or its last
/// process is a zombie (the first line of `ps` for it, trimmed).
pub fn xfce4_needs_start(last_pid: Option<i32>, ps_line: &str) -> (r: bool)
    ensures
        r == (last_pid is None || ps_line@ == "[xfce4-session] <defunct>"@),
{
    match last_pid {
        None => true,
        Some(_) => str_eq(ps_line, "[xfce4-session] <defunct>"),
    }
}

/// Arguments of the `ps` pipeline that finds the process `pid`:
/// `aux | grep <pid> | grep -v grep | head -n 1`.
pub fn ps_args(pid: i32) -> (r: Vec<String>)
    ensures
        views(r@) == seq!["aux"@, "|"@, "grep"@, crate::text::signed_decimal(pid as int), "|"@, "grep"@,
            "-v"@, "grep"@, "|"@, "head"@, "-n"@, "1"@],
{
    let mut p = String::new();
    crate::text::push_signed(&mut p, pid as i64);
    assert(p@ =~= crate::text::signed_decimal(pid as int));
    let head = vec!["aux", "|", "grep"];
    let mut v = strings(head.as_slice());
    let ghost d = crate::text::signed_decimal(pid as int);
    v.push(p);
    assert(views(v@) =~= str_views(head@) + seq![d]);
    let tail = vec!["|", "grep", "-v", "grep", "|", "head", "-n", "1"];
    let mut i: usize = 0;
    while i < tail.len()
        invariant
            i <= tail@.len(),
            views(v@) == str_views(head@) + seq![d] + str_views(tail@).subrange(0, i as int),
        decreases tail@.len() - i,
    {
        push_text_arg(&mut v, tail[i]);
        i = i + 1;
        assert(views(v@) =~= str_views(head@) + seq![d] + str_views(tail@).subrange(0, i as int));
    }
    assert(views(v@) =~= seq!["aux"@, "|"@, "grep"@, crate::text::signed_decimal(pid as int), "|"@, "grep"@,
            "-v"@, "grep"@, "|"@, "head"@, "-n"@, "1"@]);
    v
}

fn port_text(port: u16) -> (r: String)
    ensures
        r@ == decimal(port as nat),
{
    let mut s = String::new();
    push_decimal(&mut s, port as u64);
    s
}

/// Arguments of the VNC server: the display, the port and the sharing
/// flags, then `-passwd <password>` or `-nopw` (nothing when
/// authentication is on but no password is known), then `-id <window>`
/// when a single window is shared, and last `&`.
pub open spec fn x11vnc_args_of(config: VncConfig, password: Option<Seq<char>>) -> Seq<Seq<char>> {
    seq!["-display"@, ":1"@, "-rfbport"@, decimal(config.vnc_port as nat), "-shared"@, "-forever"@,
        "-noxdamage"@, "-noxfixes"@, "-noxrandr"@]
    + (if config.enable_auth {
        match password {
            Some(p) => seq!["-passwd"@, p],
            None => Seq::empty(),
        }
    } else {
        seq!["-nopw"@]
    })
    + (match config.window_id {
        Some(w) => seq!["-id"@, w@],
        None => Seq::empty(),
    })
    + seq!["&"@]
}

fn push_text_arg(v: &mut Vec<String>, t: &str)
    ensures
        views(final(v)@) == views(old(v)@) + seq![t@],
{
    v.push(String::from_str(t));
    assert(views(v@) =~= views(old(v)@) + seq![t@]);
}

/// Arguments of the VNC server.
pub fn x11vnc_args(config: &VncConfig, password: Option<&str>) -> (r: Vec<String>)
    ensures
        views(r@) == x11vnc_args_of(*config, match password {
            Some(p) => Some(p@),
            None => None,
        }),
{
    let mut v: Vec<String> = Vec::new();
    push_text_arg(&mut v, "-display");
    push_text_arg(&mut v, ":1");
    push_text_arg(&mut v, "-rfbport");
    let port = port_text(config.vnc_port);
    push_text_arg(&mut v, port.as_str());
    push_text_arg(&mut v, "-shared");
    push_text_arg(&mut v, "-forever");
    push_text_arg(&mut v, "-noxdamage");
    push_text_arg(&mut v, "-noxfixes");
    push_text_arg(&mut v, "-noxrandr");
    if config.enable_auth {
        match password {
            Some(p) => {
                push_text_arg(&mut v, "-passwd");
                push_text_arg(&mut v, p);
            },
            None => {},
        }
    } else {
        push_text_arg(&mut v, "-nopw");
    }
    match &config.window_id {
        Some(w) => {
            push_text_arg(&mut v, "-id");
            push_text_arg(&mut v, w.as_str());
        },
        None => {},
    }
    push_text_arg(&mut v, "&");
    assert(views(v@) =~= x11vnc_args_of(*config, match password {
        Some(p) => Some(p@),
        None => None,
    }));
    v
}

/// The browser proxy, run from its directory: `cd /opt/noVNC/utils &&
/// ./novnc_proxy --vnc localhost:<vnc port> --listen <proxy port> --web
/// /opt/noVNC > /tmp/novnc.log 2>&1 &`, as command and arguments.
pub fn novnc_command(config: &VncConfig) -> (r: (String, Vec<String>))
    ensures
        r.0@ == "cd"@,
        views(r.1@) == seq!["/opt/noVNC/utils"@, "&&"@, "./novnc_proxy"@, "--vnc"@, "localhost:"@ + decimal(
            config.vnc_port as nat,
        ), "--listen"@, decimal(config.novnc_port as nat), "--web"@, "/opt/noVNC"@, ">"@,
            "/tmp/novnc.log"@, "2>&1"@, "&"@],
{
    let mut v: Vec<String> = Vec::new();
    push_text_arg(&mut v, "/opt/noVNC/utils");
    push_text_arg(&mut v, "&&");
    push_text_arg(&mut v, "./novnc_proxy");
    push_text_arg(&mut v, "--vnc");
    let mut target = String::from_str("localhost:");
    push_decimal(&mut target, config.vnc_port as u64);
    push_text_arg(&mut v, target.as_str());
    push_text_arg(&mut v, "--listen");
    let port = port_text(config.novnc_port);
    push_text_arg(&mut v, port.as_str());
    push_text_arg(&mut v, "--web");
    push_text_arg(&mut v, "/opt/noVNC");
    push_text_arg(&mut v, ">");
    push_text_arg(&mut v, "/tmp/novnc.log");
    push_text_arg(&mut v, "2>&1");
    push_text_arg(&mut v, "&");
    assert(views(v@) =~= seq!["/opt/noVNC/utils"@, "&&"@, "./novnc_proxy"@, "--vnc"@, "localhost:"@ + decimal(
            config.vnc_port as nat,
        ), "--listen"@, decimal(config.novnc_port as nat), "--web"@, "/opt/noVNC"@, ">"@,
            "/tmp/novnc.log"@, "2>&1"@, "&"@]);
    (String::from_str("cd"), v)
}

// ---------------------------------------------------------------------
// Browser URL
// ---------------------------------------------------------------------

/// The URL that the `url` crate makes of `base` with the query pairs
/// `pairs` appended (none when `base` is refused).
pub uninterp spec fn url_with_params_of(base: Seq<char>, pairs: Seq<(Seq<char>, Seq<char>)>) -> Option<Seq<char>>;

pub open spec fn pairs_view(pairs: Seq<(String, String)>) -> Seq<(Seq<char>, Seq<char>)> {
    pairs.map_values(|p: (String, String)| (p.0@, p.1@))
}

/// Relies on `url::Url::parse_with_params`: `base` with the pairs appended
/// to its query, form-encoded.
#[verifier::external_body]
fn url_with_params(base: &str, pairs: &Vec<(String, String)>) -> (r: Option<String>)
    ensures
        match r {
            Some(u) => url_with_params_of(base@, pairs_view(pairs@)) == Some(u@),
            None => url_with_params_of(base@, pairs_view(pairs@)) is None,
        },
{
    url::Url::parse_with_params(base, pairs.iter()).ok().map(|u| u.to_string())
}

/// The page of the browser proxy: `https://<proxy port>-<host>/vnc.html`.
pub open spec fn vnc_page_of(novnc_port: u16, host: Seq<char>) -> Seq<char> {
    "https://"@ + decimal(novnc_port as nat) + "-"@ + host + "/vnc.html"@
}

/// The query of the browser URL: `autoconnect=true`, `view_only=true`,
/// `resize=<mode>` as chosen, and the password when authentication is on.
pub open spec fn vnc_query_of(opts: VncUrlOptions, enable_auth: bool, password: Option<Seq<char>>) -> Seq<(Seq<char>, Seq<char>)> {
    (if opts.autoconnect { seq![("autoconnect"@, "true"@)] } else { Seq::empty() })
    + (if opts.view_only { seq![("view_only"@, "true"@)] } else { Seq::empty() })
    + (match opts.resize { Some(m) => seq![("resize"@, m@)], None => Seq::empty() })
    + (match password { Some(p) => if enable_auth { seq![("password"@, p)] } else { Seq::empty() }, None => Seq::empty() })
}

fn push_pair(v: &mut Vec<(String, String)>, k: &str, val: &str)
    ensures
        pairs_view(final(v)@) == pairs_view(old(v)@) + seq![(k@, val@)],
{
    v.push((String::from_str(k), String::from_str(val)));
    assert(pairs_view(v@) =~= pairs_view(old(v)@) + seq![(k@, val@)]);
}

/// The query pairs of the browser URL.
pub fn vnc_query(opts: &VncUrlOptions, enable_auth: bool, password: Option<&str>) -> (r: Vec<(String, String)>)
    ensures
        pairs_view(r@) == vnc_query_of(*opts, enable_auth, match password {
            Some(p) => Some(p@),
            None => None,
        }),
{
    let mut v: Vec<(String, String)> = Vec::new();
    assert(pairs_view(v@) =~= Seq::<(Seq<char>, Seq<char>)>::empty());
    if opts.autoconnect {
        push_pair(&mut v, "autoconnect", "true");
    }
    if opts.view_only {
        push_pair(&mut v, "view_only", "true");
    }
    match &opts.resize {
        Some(m) => push_pair(&mut v, "resize", m.as_str()),
        None => {},
    }
    if enable_auth {
        match password {
            Some(p) => push_pair(&mut v, "password", p),
            None => {},
        }
    }
    assert(pairs_view(v@) =~= vnc_query_of(*opts, enable_auth, match password {
        Some(p) => Some(p@),
        None => None,
    }));
    v
}

/// The browser URL of the stack.
pub fn vnc_url(novnc_port: u16, host: &str, opts: &VncUrlOptions, enable_auth: bool, password: Option<&str>) -> (r: Result<String, SandboxError>)
    ensures
        match r {
            Ok(u) => url_with_params_of(vnc_page_of(novnc_port, host@), vnc_query_of(*opts, enable_auth, match password {
                Some(p) => Some(p@),
                None => None,
            })) == Some(u@),
            Err(e) => url_with_params_of(vnc_page_of(novnc_port, host@), vnc_query_of(*opts, enable_auth, match password {
                Some(p) => Some(p@),
                None => None,
            })) is None && e.spec_kind() == ErrorKind::InvalidArgument,
        },
{
    let mut base = String::from_str("https://");
    push_decimal(&mut base, novnc_port as u64);
    push_text(&mut base, "-");
    push_text(&mut base, host);
    push_text(&mut base, "/vnc.html");
    let pairs = vnc_query(opts, enable_auth, password);
    match url_with_params(base.as_str(), &pairs) {
        Some(u) => Ok(u),
        None => Err(SandboxError::invalid_argument("Failed to parse VNC URL")),
    }
}

/// The host of a sandbox's public URLs: `<id>-<client id>.e2b.app`.
pub fn sandbox_host(sandbox_id: &str, client_id: &str) -> (r: String)
    ensures
        r@ == sandbox_id@ + "-"@ + client_id@ + ".e2b.app"@,
{
    let mut s = String::from_str(sandbox_id);
    push_text(&mut s, "-");
    push_text(&mut s, client_id);
    push_text(&mut s, ".e2b.app");
    s
}

// ---------------------------------------------------------------------
// Running state
// ---------------------------------------------------------------------

/// Whether the stack runs, its password and the last desktop-session pid.
pub struct VncState {
    running: bool,
    auth_password: Option<String>,
    last_xfce4_pid: Option<i32>,
}

impl VncState {
    pub closed spec fn spec_running(&self) -> bool {
        self.running
    }

    pub closed spec fn spec_password(&self) -> Option<String> {
        self.auth_password
    }

    pub closed spec fn spec_xfce4_pid(&self) -> Option<i32> {
        self.last_xfce4_pid
    }

    /// A stack that was never started.
    pub fn new() -> (r: Self)
        ensures
            !r.spec_running(),
            r.spec_password() is None,
            r.spec_xfce4_pid() is None,
    {
        VncState { running: false, auth_password: None, last_xfce4_pid: None }
    }

    /// Whether the stack runs.
    pub fn is_running(&self) -> (r: bool)
        ensures
            r == self.spec_running(),
    {
        self.running
    }

    /// The password, when authentication is on.
    pub fn get_password(&self) -> (r: Option<&str>)
        ensures
            match r {
                Some(p) => self.spec_password() matches Some(q) && p@ == q@,
                None => self.spec_password() is None,
            },
    {
        match &self.auth_password {
            Some(p) => Some(p.as_str()),
            None => None,
        }
    }

    /// The last desktop-session pid.
    pub fn xfce4_pid(&self) -> (r: Option<i32>)
        ensures
            r == self.spec_xfce4_pid(),
    {
        self.last_xfce4_pid
    }

    /// Prepares a start: false when the stack already runs (nothing to do);
    /// else the password is chosen and true returned.
    pub fn begin_start(&mut self, config: &VncConfig) -> (r: bool)
        ensures
            r == !old(self).spec_running(),
            final(self).spec_running() == old(self).spec_running(),
            final(self).spec_xfce4_pid() == old(self).spec_xfce4_pid(),
            !r ==> final(self).spec_password() == old(self).spec_password(),
            r && config.enable_auth ==> final(self).spec_password() is Some,
            r && config.enable_auth && config.password is Some ==> final(self).spec_password()
                == config.password,
            r && config.enable_auth && config.password is None && old(self).spec_password() is Some
                ==> final(self).spec_password() == old(self).spec_password(),
            r && config.enable_auth && config.password is None && old(self).spec_password() is None
                ==> (final(self).spec_password() matches Some(p) && is_generated_password(p@)),
            r && !config.enable_auth ==> final(self).spec_password() == old(self).spec_password(),
    {
        if self.running {
            return false;
        }
        let current = self.auth_password.take();
        self.auth_password = choose_password(config, current);
        true
    }

    /// Records the pid of the desktop session just started.
    pub fn set_xfce4_pid(&mut self, pid: i32)
        ensures
            final(self).spec_xfce4_pid() == Some(pid),
            final(self).spec_running() == old(self).spec_running(),
            final(self).spec_password() == old(self).spec_password(),
    {
        self.last_xfce4_pid = Some(pid);
    }

    /// Records that every component started.
    pub fn finish_start(&mut self)
        ensures
            final(self).spec_running(),
            final(self).spec_password() == old(self).spec_password(),
            final(self).spec_xfce4_pid() == old(self).spec_xfce4_pid(),
    {
        self.running = true;
    }

    /// Records a stop; returns whether the stack ran (and so had anything
    /// to stop).
    pub fn stop(&mut self) -> (r: bool)
        ensures
            r == old(self).spec_running(),
            !final(self).spec_running(),
            final(self).spec_password() == old(self).spec_password(),
            final(self).spec_xfce4_pid() == old(self).spec_xfce4_pid(),
    {
        let was = self.running;
        self.running = false;
        was
    }

    /// The browser URL of the running stack on the sandbox host `host`; an
    /// invalid-argument error when it does not run.
    pub fn url(&self, config: &VncConfig, host: &str, opts: &VncUrlOptions) -> (r: Result<String, SandboxError>)
        ensures
            !self.spec_running() ==> (r matches Err(e) && e.spec_kind() == ErrorKind::InvalidArgument
                && e.spec_message() == "VNC server is not running"@),
            self.spec_running() ==> match r {
                Ok(u) => url_with_params_of(vnc_page_of(config.novnc_port, host@), vnc_query_of(*opts, config.enable_auth, match self.spec_password() {
                    Some(p) => Some(p@),
                    None => None,
                })) == Some(u@),
                Err(e) => url_with_params_of(vnc_page_of(config.novnc_port, host@), vnc_query_of(*opts, config.enable_auth, match self.spec_password() {
                    Some(p) => Some(p@),
                    None => None,
                })) is None && e.spec_kind() == ErrorKind::InvalidArgument,
            },
    {
        if !self.running {
            return Err(SandboxError::invalid_argument("VNC server is not running"));
        }
        let pw: Option<&str> = match &self.auth_password {
            Some(p) => Some(p.as_str()),
            None => None,
        };
        vnc_url(config.novnc_port, host, opts, config.enable_auth, pw)
    }
}

} // verus!
