//! Decisions that turn the agent's event streams into results: collecting a
//! command's output, fanning it out to separate endpoints, the terminal
//! variant, and the translation of watch events.

use vstd::prelude::*;
use vstd::utf8::{decode_utf8, valid_utf8};
use crate::commands::CommandResult;
use crate::filesystem::{FilesystemEvent, FilesystemEventType};
use crate::json_types::{ProcessEvent, WatchDirResponse, WatchEvent};

verus! {

/// The text that `String::from_utf8_lossy` makes of some bytes.
pub uninterp spec fn utf8_lossy_of(b: Seq<u8>) -> Seq<char>;

/// Relies on `String::from_utf8_lossy`: decodes UTF-8, putting U+FFFD in
/// place of invalid sequences; valid input decodes exactly.
#[verifier::external_body]
fn decode_lossy(b: &[u8]) -> (r: String)
    ensures
        r@ == utf8_lossy_of(b@),
        valid_utf8(b@) ==> r@ == decode_utf8(b@),
{
    String::from_utf8_lossy(b).into_owned()
}

/// The standard-output text an event carries (empty when none).
pub open spec fn stdout_text(e: ProcessEvent) -> Seq<char> {
    match e.data {
        Some(d) => match d.stdout {
            Some(b) => utf8_lossy_of(b@),
            None => Seq::empty(),
        },
        None => Seq::empty(),
    }
}

/// The standard-error text an event carries (empty when none).
pub open spec fn stderr_text(e: ProcessEvent) -> Seq<char> {
    match e.data {
        Some(d) => match d.stderr {
            Some(b) => utf8_lossy_of(b@),
            None => Seq::empty(),
        },
        None => Seq::empty(),
    }
}

/// The lossy text of valid UTF-8 is its exact decoding.
pub open spec fn lossy_agrees(b: Seq<u8>) -> bool {
    valid_utf8(b) ==> utf8_lossy_of(b) == decode_utf8(b)
}

/// The event's standard-output text is the exact decoding of valid bytes.
pub open spec fn stdout_decodes(e: ProcessEvent) -> bool {
    match e.data {
        Some(d) => match d.stdout {
            Some(b) => lossy_agrees(b@),
            None => true,
        },
        None => true,
    }
}

/// The event's standard-error text is the exact decoding of valid bytes.
pub open spec fn stderr_decodes(e: ProcessEvent) -> bool {
    match e.data {
        Some(d) => match d.stderr {
            Some(b) => lossy_agrees(b@),
            None => true,
        },
        None => true,
    }
}

pub open spec fn has_stdout(e: ProcessEvent) -> bool {
    e.data matches Some(d) && d.stdout is Some
}

pub open spec fn has_stderr(e: ProcessEvent) -> bool {
    e.data matches Some(d) && d.stderr is Some
}

/// The message of the result of a stream that ended before its end event.
pub open spec fn stream_closed_message() -> Seq<char> {
    "stream closed"@
}

fn stdout_of(e: &ProcessEvent) -> (r: Option<String>)
    ensures
        r is Some == has_stdout(*e),
        r matches Some(s) ==> s@ == stdout_text(*e),
        stdout_decodes(*e),
{
    match &e.data {
        Some(d) => match &d.stdout {
            Some(b) => Some(decode_lossy(b.as_slice())),
            None => None,
        },
        None => None,
    }
}

fn stderr_of(e: &ProcessEvent) -> (r: Option<String>)
    ensures
        r is Some == has_stderr(*e),
        r matches Some(s) ==> s@ == stderr_text(*e),
        stderr_decodes(*e),
{
    match &e.data {
        Some(d) => match &d.stderr {
            Some(b) => Some(decode_lossy(b.as_slice())),
            None => None,
        },
        None => None,
    }
}

/// The pid that an event of a process stream names, when it is the start
/// event.
pub fn start_pid(e: &ProcessEvent) -> (r: Option<u32>)
    ensures
        r == match e.start {
            Some(s) => Some(s.pid),
            None => None::<u32>,
        },
{
    match &e.start {
        Some(s) => Some(s.pid),
        None => None,
    }
}

// ---------------------------------------------------------------------
// Collecting a command's output
// ---------------------------------------------------------------------

/// Accumulates the output of a command until its end event.
pub struct RunCollector {
    stdout: String,
    stderr: String,
    exit_code: i32,
    error: Option<String>,
    done: bool,
}

impl RunCollector {
    /// Standard output so far.
    pub closed spec fn out(&self) -> Seq<char> {
        self.stdout@
    }

    /// Standard error so far.
    pub closed spec fn err(&self) -> Seq<char> {
        self.stderr@
    }

    /// Whether the end event has arrived.
    pub closed spec fn is_done(&self) -> bool {
        self.done
    }

    /// Exit code reported by the end event.
    pub closed spec fn code(&self) -> i32 {
        self.exit_code
    }

    /// Error reported by the end event.
    pub closed spec fn error_text(&self) -> Option<Seq<char>> {
        match self.error {
            Some(e) => Some(e@),
            None => None,
        }
    }

    /// Whether the end event has arrived.
    pub fn finished(&self) -> (r: bool)
        ensures
            r == self.is_done(),
    {
        self.done
    }

    /// A collector that has seen nothing.
    pub fn new() -> (r: Self)
        ensures
            r.out() == Seq::<char>::empty(),
            r.err() == Seq::<char>::empty(),
            !r.is_done(),
    {
        RunCollector {
            stdout: String::new(),
            stderr: String::new(),
            exit_code: 0,
            error: None,
            done: false,
        }
    }

    /// Takes one event: its output is appended, and an end event records
    /// the exit code and error and ends the collection. Events after the
    /// end are ignored.
    pub fn on_event(&mut self, e: &ProcessEvent)
        ensures
            old(self).is_done() ==> *final(self) == *old(self),
            !old(self).is_done() ==> {
                &&& stdout_decodes(*e) && stderr_decodes(*e)
                &&& final(self).out() == old(self).out() + stdout_text(*e)
                &&& final(self).err() == old(self).err() + stderr_text(*e)
                &&& final(self).is_done() == e.end is Some
                &&& e.end matches Some(end) ==> final(self).code() == end.exit_code
                    && final(self).error_text() == match end.error {
                        Some(m) => Some(m@),
                        None => None::<Seq<char>>,
                    }
            },
    {
        if self.done {
            return;
        }
        match stdout_of(e) {
            Some(s) => self.stdout.append(s.as_str()),
            None => {
                assert(self.stdout@ + stdout_text(*e) =~= self.stdout@);
            },
        }
        match stderr_of(e) {
            Some(s) => self.stderr.append(s.as_str()),
            None => {
                assert(self.stderr@ + stderr_text(*e) =~= self.stderr@);
            },
        }
        match &e.end {
            Some(end) => {
                self.exit_code = end.exit_code;
                self.error = end.error.clone();
                self.done = true;
            },
            None => {},
        }
    }

    /// The result: what the end event reported or, when the stream closed
    /// before it, exit code 0 with the error "stream closed".
    pub fn finish(self) -> (r: CommandResult)
        ensures
            r.stdout@ == self.out(),
            r.stderr@ == self.err(),
            self.is_done() ==> r.exit_code == self.code() && match r.error {
                Some(m) => self.error_text() == Some(m@),
                None => self.error_text() is None,
            },
            !self.is_done() ==> r.exit_code == 0 && (r.error matches Some(m) && m@
                == stream_closed_message()),
    {
        if self.done {
            CommandResult {
                stdout: self.stdout,
                stderr: self.stderr,
                exit_code: self.exit_code,
                error: self.error,
            }
        } else {
            CommandResult {
                stdout: self.stdout,
                stderr: self.stderr,
                exit_code: 0,
                error: Some(String::from_str("stream closed")),
            }
        }
    }
}

// ---------------------------------------------------------------------
// Fan-out to three endpoints
// ---------------------------------------------------------------------

/// What the consumer of a command stream must do with its endpoints.
pub enum DemuxAction {
    /// Send a chunk on the standard-output channel.
    Stdout(String),
    /// Send a chunk on the standard-error channel.
    Stderr(String),
    /// Close both output channels.
    CloseOutputs,
    /// Fill the exit slot.
    Exit(CommandResult),
    /// Drop the exit slot unfilled: its waiter sees an error.
    FailExit,
}

/// The kinds of [`DemuxAction`], for stating their order.
#[derive(Debug, Clone, Copy, PartialEq, Eq, Structural)]
pub enum ActionKind {
    Send,
    Close,
    Exit,
}

pub open spec fn kind_of(a: DemuxAction) -> ActionKind {
    match a {
        DemuxAction::Stdout(_) => ActionKind::Send,
        DemuxAction::Stderr(_) => ActionKind::Send,
        DemuxAction::CloseOutputs => ActionKind::Close,
        _ => ActionKind::Exit,
    }
}

pub open spec fn kinds(acts: Seq<DemuxAction>) -> Seq<ActionKind> {
    acts.map_values(|a: DemuxAction| kind_of(a))
}

/// Only chunks were sent so far.
pub open spec fn all_sends(h: Seq<ActionKind>) -> bool {
    forall|i: int| 0 <= i < h.len() ==> #[trigger] h[i] == ActionKind::Send
}

/// Chunks, then the closing of the channels, then the exit slot settled.
pub open spec fn settled(h: Seq<ActionKind>) -> bool {
    &&& h.len() >= 2
    &&& h[h.len() - 1] == ActionKind::Exit
    &&& h[h.len() - 2] == ActionKind::Close
    &&& all_sends(h.subrange(0, h.len() - 2))
}

/// The order that the endpoints see: chunks only, or chunks followed by the
/// closing of both output channels and then, last of all, the settling of
/// the exit slot. So the exit slot is settled at most once, after every
/// send and after both channels are closed.
pub open spec fn exit_ordered(h: Seq<ActionKind>) -> bool {
    all_sends(h) || settled(h)
}

/// Splits a command's event stream onto a standard-output channel, a
/// standard-error channel and an exit slot.
pub struct OutputDemux {
    totals: RunCollector,
    closed: bool,
    history: Ghost<Seq<ActionKind>>,
}

impl OutputDemux {
    /// The kinds of every action handed out so far, in order.
    pub closed spec fn history(&self) -> Seq<ActionKind> {
        self.history@
    }

    /// Whether the endpoints are settled (closed, exit slot done).
    pub closed spec fn is_closed(&self) -> bool {
        self.closed
    }

    /// Standard output so far.
    pub closed spec fn out(&self) -> Seq<char> {
        self.totals.out()
    }

    /// Standard error so far.
    pub closed spec fn err(&self) -> Seq<char> {
        self.totals.err()
    }

    pub closed spec fn wf(&self) -> bool {
        &&& !self.closed ==> !self.totals.is_done() && all_sends(self.history@)
        &&& self.closed ==> settled(self.history@)
    }

    /// Whether the endpoints are settled.
    pub fn closed(&self) -> (r: bool)
        ensures
            r == self.is_closed(),
    {
        self.closed
    }

    /// A demultiplexer that has seen nothing.
    pub fn new() -> (r: Self)
        ensures
            r.wf(),
            !r.is_closed(),
            r.history() == Seq::<ActionKind>::empty(),
            r.out() == Seq::<char>::empty(),
            r.err() == Seq::<char>::empty(),
    {
        OutputDemux { totals: RunCollector::new(), closed: false, history: Ghost(Seq::empty()) }
    }

    /// Takes one event. Its standard-output chunk, then its standard-error
    /// chunk, are sent where present; an end event then closes both
    /// channels and fills the exit slot with the whole output, the exit code
    /// and the error. Nothing is done once the endpoints are settled.
    pub fn on_event(&mut self, e: &ProcessEvent) -> (r: Vec<DemuxAction>)
        requires
            old(self).wf(),
        ensures
            final(self).wf(),
            final(self).history() == old(self).history() + kinds(r@),
            exit_ordered(final(self).history()),
            final(self).is_closed() <==> settled(final(self).history()),
            old(self).is_closed() ==> r@.len() == 0 && final(self).out() == old(self).out()
                && final(self).err() == old(self).err(),
            !old(self).is_closed() ==> {
                &&& stdout_decodes(*e) && stderr_decodes(*e)
                &&& final(self).out() == old(self).out() + stdout_text(*e)
                &&& final(self).err() == old(self).err() + stderr_text(*e)
                &&& final(self).is_closed() == e.end is Some
                &&& sends_match(r@, *e)
                &&& e.end matches Some(end) ==> r@.len() == send_count(*e) + 2 && r@[r@.len() - 2] is CloseOutputs
                    && match r@.last() {
                    DemuxAction::Exit(res) => res.stdout@ == final(self).out() && res.stderr@
                        == final(self).err() && res.exit_code == end.exit_code && match res.error {
                        Some(m) => (end.error matches Some(x) && x@ == m@),
                        None => end.error is None,
                    },
                    _ => false,
                }
                &&& e.end is None ==> r@.len() == send_count(*e)
            },
    {
        let mut acts: Vec<DemuxAction> = Vec::new();
        if self.closed {
            assert(self.history@ + kinds(acts@) =~= self.history@);
            return acts;
        }
        let ghost h0 = self.history@;
        match stdout_of(e) {
            Some(s) => acts.push(DemuxAction::Stdout(s)),
            None => {},
        }
        match stderr_of(e) {
            Some(s) => acts.push(DemuxAction::Stderr(s)),
            None => {},
        }
        self.totals.on_event(e);
        match &e.end {
            Some(end) => {
                acts.push(DemuxAction::CloseOutputs);
                let result = CommandResult {
                    stdout: self.totals.stdout.clone(),
                    stderr: self.totals.stderr.clone(),
                    exit_code: self.totals.exit_code,
                    error: self.totals.error.clone(),
                };
                acts.push(DemuxAction::Exit(result));
                self.closed = true;
            },
            None => {},
        }
        self.history = Ghost(h0 + kinds(acts@));
        proof {
            let h = self.history@;
            let n = send_count(*e);
            assert forall|i: int| 0 <= i < n implies #[trigger] kinds(acts@)[i] == ActionKind::Send by {
                if i == 1 || !has_stdout(*e) {
                    assert(has_stderr(*e));
                }
            }
            if self.closed {
                assert(h.subrange(0, h.len() - 2) =~= h0 + kinds(acts@).subrange(0, n));
            } else {
                assert(kinds(acts@).len() == n);
            }
        }
        acts
    }

    /// The stream ended: where no end event came, the channels are closed
    /// and the exit slot is dropped unfilled.
    pub fn on_stream_end(&mut self) -> (r: Vec<DemuxAction>)
        requires
            old(self).wf(),
        ensures
            final(self).wf(),
            final(self).is_closed(),
            final(self).history() == old(self).history() + kinds(r@),
            exit_ordered(final(self).history()),
            old(self).is_closed() ==> r@.len() == 0,
            !old(self).is_closed() ==> r@.len() == 2 && r@[0] is CloseOutputs && r@[1] is FailExit,
    {
        let mut acts: Vec<DemuxAction> = Vec::new();
        if self.closed {
            assert(self.history@ + kinds(acts@) =~= self.history@);
            return acts;
        }
        let ghost h0 = self.history@;
        acts.push(DemuxAction::CloseOutputs);
        acts.push(DemuxAction::FailExit);
        self.closed = true;
        self.history = Ghost(h0 + kinds(acts@));
        proof {
            let h = self.history@;
            assert(h.subrange(0, h.len() - 2) =~= h0);
        }
        acts
    }
}

/// Demux exit ordering: whatever events, and in whatever interleaving of
/// data and end, a demultiplexer has taken, the exit slot is settled only
/// as its last action, after every chunk was sent and right after both
/// output channels were closed.
pub proof fn lemma_exit_after_outputs(d: &OutputDemux)
    requires
        d.wf(),
    ensures
        exit_ordered(d.history()),
        d.is_closed() ==> settled(d.history()),
{
}

/// How many chunks an event sends.
pub open spec fn send_count(e: ProcessEvent) -> int {
    (if has_stdout(e) { 1int } else { 0int }) + (if has_stderr(e) { 1int } else { 0int })
}

/// The first actions for an event are its chunks: standard output first,
/// then standard error, each with the event's text.
pub open spec fn sends_match(r: Seq<DemuxAction>, e: ProcessEvent) -> bool {
    &&& r.len() >= send_count(e)
    &&& has_stdout(e) ==> (r[0] matches DemuxAction::Stdout(s) && s@ == stdout_text(e))
    &&& has_stderr(e) ==> (r[if has_stdout(e) { 1int } else { 0int }] matches DemuxAction::Stderr(s)
        && s@ == stderr_text(e))
}

// ---------------------------------------------------------------------
// Terminal sessions
// ---------------------------------------------------------------------

/// What the consumer of a terminal stream must do with its endpoints.
pub enum PtyAction {
    /// Send bytes on the output channel.
    Output(Vec<u8>),
    /// Close the output channel.
    CloseOutput,
    /// Fill the exit slot with the exit code.
    Exit(i32),
    /// Drop the exit slot unfilled: its waiter sees an error.
    FailExit,
}

/// Splits a terminal's event stream onto one output channel and an exit
/// slot.
pub struct PtyDemux {
    closed: bool,
}

impl PtyDemux {
    pub closed spec fn is_closed(&self) -> bool {
        self.closed
    }

    /// Whether the endpoints are settled.
    pub fn closed(&self) -> (r: bool)
        ensures
            r == self.is_closed(),
    {
        self.closed
    }

    /// A demultiplexer that has seen nothing.
    pub fn new() -> (r: Self)
        ensures
            !r.is_closed(),
    {
        PtyDemux { closed: false }
    }

    /// Takes one event: its terminal bytes, then any standard-output bytes,
    /// go to the output channel; an end event then closes the channel and
    /// fills the exit slot with the exit code.
    pub fn on_event(&mut self, e: &ProcessEvent) -> (r: Vec<PtyAction>)
        ensures
            old(self).is_closed() ==> r@.len() == 0 && final(self).is_closed(),
            !old(self).is_closed() ==> {
                &&& final(self).is_closed() == e.end is Some
                &&& pty_outputs_match(r@, *e)
                &&& e.end matches Some(end) ==> r@.len() == pty_output_count(*e) + 2
                    && r@[r@.len() - 2] is CloseOutput && r@.last() == PtyAction::Exit(end.exit_code)
                &&& e.end is None ==> r@.len() == pty_output_count(*e)
            },
    {
        let mut acts: Vec<PtyAction> = Vec::new();
        if self.closed {
            return acts;
        }
        match &e.data {
            Some(d) => {
                match &d.pty {
                    Some(b) => acts.push(PtyAction::Output(b.clone())),
                    None => {},
                }
                match &d.stdout {
                    Some(b) => acts.push(PtyAction::Output(b.clone())),
                    None => {},
                }
            },
            None => {},
        }
        match &e.end {
            Some(end) => {
                acts.push(PtyAction::CloseOutput);
                acts.push(PtyAction::Exit(end.exit_code));
                self.closed = true;
            },
            None => {},
        }
        acts
    }

    /// The stream ended: where no end event came, the output channel is
    /// closed and the exit slot dropped unfilled.
    pub fn on_stream_end(&mut self) -> (r: Vec<PtyAction>)
        ensures
            final(self).is_closed(),
            old(self).is_closed() ==> r@.len() == 0,
            !old(self).is_closed() ==> r@.len() == 2 && r@[0] is CloseOutput && r@[1] is FailExit,
    {
        let mut acts: Vec<PtyAction> = Vec::new();
        if !self.closed {
            acts.push(PtyAction::CloseOutput);
            acts.push(PtyAction::FailExit);
            self.closed = true;
        }
        acts
    }
}

pub open spec fn has_pty(e: ProcessEvent) -> bool {
    e.data matches Some(d) && d.pty is Some
}

/// How many byte chunks a terminal event hands to the output channel.
pub open spec fn pty_output_count(e: ProcessEvent) -> int {
    (if has_pty(e) { 1int } else { 0int }) + (if has_stdout(e) { 1int } else { 0int })
}

/// The first actions for a terminal event are its byte chunks: terminal
/// bytes first, then standard-output bytes.
pub open spec fn pty_outputs_match(r: Seq<PtyAction>, e: ProcessEvent) -> bool {
    &&& r.len() >= pty_output_count(e)
    &&& e.data matches Some(d) ==> {
        &&& d.pty matches Some(b) ==> (r[0] matches PtyAction::Output(o) && o@ == b@)
        &&& d.stdout matches Some(b) ==> (r[if d.pty is Some { 1int } else { 0int }] matches PtyAction::Output(o)
            && o@ == b@)
    }
}

// ---------------------------------------------------------------------
// Watch streams
// ---------------------------------------------------------------------

/// The kind of change a wire code stands for; unknown codes read as a write.
pub open spec fn spec_event_type(code: i32) -> FilesystemEventType {
    if code == 1 {
        FilesystemEventType::Create
    } else if code == 3 {
        FilesystemEventType::Remove
    } else if code == 4 {
        FilesystemEventType::Rename
    } else if code == 5 {
        FilesystemEventType::Chmod
    } else {
        FilesystemEventType::Write
    }
}

/// The kind of change a wire code stands for; unknown codes read as a write.
pub fn event_type_from_code(code: i32) -> (r: FilesystemEventType)
    ensures
        r == spec_event_type(code),
{
    if code == 1 {
        FilesystemEventType::Create
    } else if code == 2 {
        FilesystemEventType::Write
    } else if code == 3 {
        FilesystemEventType::Remove
    } else if code == 4 {
        FilesystemEventType::Rename
    } else if code == 5 {
        FilesystemEventType::Chmod
    } else {
        FilesystemEventType::Write
    }
}

/// The event a watcher sees for one message of a watch stream: filesystem
/// changes are translated, start and keepalive messages (and empty ones)
/// are passed over.
pub fn translate_watch(resp: WatchDirResponse) -> (r: Option<FilesystemEvent>)
    ensures
        match resp.event {
            Some(WatchEvent::Filesystem { filesystem }) => (r matches Some(ev) && ev.name@
                == filesystem.name@ && ev.event_type == spec_event_type(filesystem.event_type)),
            _ => r is None,
        },
{
    match resp.event {
        Some(WatchEvent::Filesystem { filesystem }) => Some(
            FilesystemEvent {
                name: filesystem.name,
                event_type: event_type_from_code(filesystem.event_type),
            },
        ),
        _ => None,
    }
}

} // verus!
