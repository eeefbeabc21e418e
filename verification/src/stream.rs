//! Relaying the phone's audio socket into `pacat`: the connection attempts
//! with their growing pauses, and the decisions taken on each read.
use vstd::prelude::*;
use crate::pulse::{list_modules_args, pacat_args, pacat_format_spec, sink_listed, sink_property};
use crate::text::{concat, decimal, decimal_string, has_sub, views};

verus! {

broadcast use vstd::string::group_string_axioms;

/// A line of output, on standard output or on standard error.
pub enum Line {
    Out(String),
    Warn(String),
}

pub enum LineView {
    Out(Seq<char>),
    Warn(Seq<char>),
}

impl View for Line {
    type V = LineView;

    open spec fn view(&self) -> LineView {
        match self {
            Line::Out(s) => LineView::Out(s@),
            Line::Warn(s) => LineView::Warn(s@),
        }
    }
}

pub open spec fn line_views(ls: Seq<Line>) -> Seq<LineView> {
    ls.map_values(|l: Line| l@)
}

/// How many times the socket is tried.
pub const MAX_ATTEMPTS: u32 = 5;

/// The first pause between attempts, in microseconds.
pub const FIRST_BACKOFF_US: u64 = 500000;

/// The size of the read buffer at the start of a session.
pub const INITIAL_BUFFER: usize = 8192;

/// The buffer is doubled while a read fills it, up to this size.
pub const GROWN_BUFFER: usize = 16384;

/// Seconds between checks that the null sink is still loaded.
pub const SINK_CHECK_SECS: u64 = 5;

/// The pause before attempt `k` + 1: half a second, growing by half each time.
pub open spec fn backoff_at(k: nat) -> u64
    decreases k,
{
    if k == 0 {
        FIRST_BACKOFF_US
    } else {
        (backoff_at((k - 1) as nat) * 3 / 2) as u64
    }
}

/// Why a relay session ended in error.
pub enum SocatError {
    /// `pacat` could not be started.
    PacatSpawn,
}

impl SocatError {
    pub fn message(&self) -> (s: String)
        ensures
            s@ == "Error starting pacat"@,
    {
        "Error starting pacat".to_string()
    }
}

/// What the caller does next, reporting the outcome to the method named.
pub enum SocatAction {
    /// Connect to the abstract socket `"\0" + sock_name` and set a read
    /// timeout of three seconds; then `on_connect`.
    Connect,
    /// Start `pacat` with these arguments and its input piped; then `on_pacat`.
    SpawnPacat(Vec<String>),
    /// Go on streaming: call `loop_top` with the seconds since the last sink check.
    Poll,
    /// Run `pactl` with these arguments; then `on_sink_listing`.
    CheckSink(Vec<String>),
    /// Read up to `len` bytes from the socket (after restarting the sink-check
    /// clock when `reset_clock`); then `on_data`, `on_closed`, `on_timeout` or `on_read_error`.
    Read { len: usize, reset_clock: bool },
    /// Write these bytes (the chunk just read, as it came) to `pacat` and
    /// flush; then `on_write`.
    Write(Vec<u8>),
    /// Kill `pacat` and wait for it; then `on_pacat_stopped`.
    StopPacat,
    /// Wait this many microseconds; then `on_slept`.
    Sleep(u64),
    /// The session is over.
    Finish(Result<(), SocatError>),
}

/// A copy of `data`.
fn bytes_of(data: &[u8]) -> (out: Vec<u8>)
    ensures
        out@ == data@,
{
    let mut out: Vec<u8> = Vec::new();
    let mut i: usize = 0;
    while i < data.len()
        invariant
            i <= data@.len(),
            out@ == data@.take(i as int),
        decreases data.len() - i,
    {
        out.push(data[i]);
        assert(out@ =~= data@.take(i + 1));
        i = i + 1;
    }
    assert(data@.take(data@.len() as int) =~= data@);
    out
}

pub enum ActionView {
    Connect,
    SpawnPacat(Seq<Seq<char>>),
    Poll,
    CheckSink(Seq<Seq<char>>),
    Read(usize, bool),
    Write(Seq<u8>),
    StopPacat,
    Sleep(u64),
    FinishOk,
    FinishPacatError,
}

impl View for SocatAction {
    type V = ActionView;

    open spec fn view(&self) -> ActionView {
        match self {
            SocatAction::Connect => ActionView::Connect,
            SocatAction::SpawnPacat(a) => ActionView::SpawnPacat(views(a@)),
            SocatAction::Poll => ActionView::Poll,
            SocatAction::CheckSink(a) => ActionView::CheckSink(views(a@)),
            SocatAction::Read { len, reset_clock } => ActionView::Read(*len, *reset_clock),
            SocatAction::Write(b) => ActionView::Write(b@),
            SocatAction::StopPacat => ActionView::StopPacat,
            SocatAction::Sleep(us) => ActionView::Sleep(*us),
            SocatAction::Finish(r) => match r {
                Ok(_) => ActionView::FinishOk,
                Err(_) => ActionView::FinishPacatError,
            },
        }
    }
}

/// The lines to print and the next thing to do.
pub struct SocatStep {
    pub lines: Vec<Line>,
    pub next: SocatAction,
}

/// A relay session between the phone's socket and `pacat`.
pub struct Socat {
    /// The local abstract socket that `adb` forwards.
    pub sock_name: String,
    /// The device name; `pacat` plays into `<name>_sink`.
    pub name: String,
    /// The current attempt, counted from 0.
    pub attempt: u32,
    /// The next pause between attempts, in microseconds.
    pub backoff_us: u64,
    /// The read buffer's size.
    pub buf_len: usize,
    /// No audio has arrived yet in this connection.
    pub first_chunk: bool,
    /// Silent chunks in a row.
    pub silence_warnings: u64,
    /// The phone closed the socket at once, so the connection is tried again.
    pub retry_connection: bool,
}

/// The banner of attempt `k` (counted from 0).
pub open spec fn attempt_line(k: nat, sock_name: Seq<char>) -> Seq<char> {
    "[SOCAT] Attempt "@ + decimal(k + 1) + "/5 connecting to "@ + sock_name
}

/// All bytes of `data` are zero.
pub open spec fn all_zero(data: Seq<u8>) -> bool {
    forall|i: int| 0 <= i < data.len() ==> data[i] == 0
}

pub fn is_silence(data: &[u8]) -> (b: bool)
    ensures
        b == all_zero(data@),
{
    let mut i: usize = 0;
    while i < data.len()
        invariant
            i <= data@.len(),
            forall|j: int| 0 <= j < i ==> data@[j] == 0,
        decreases data.len() - i,
    {
        if data[i] != 0 {
            return false;
        }
        i = i + 1;
    }
    true
}

fn attempt_banner(attempt: u32, sock_name: &str) -> (s: String)
    requires
        attempt < MAX_ATTEMPTS,
    ensures
        s@ == attempt_line(attempt as nat, sock_name@),
{
    let n = decimal_string((attempt + 1) as u64);
    let mut s = "[SOCAT] Attempt ".to_string();
    s.append(n.as_str());
    s.append("/5 connecting to ");
    s.append(sock_name);
    s
}

fn one_line(l: Line) -> (out: Vec<Line>)
    ensures
        line_views(out@) == seq![l@],
{
    let ghost v = l@;
    let mut out: Vec<Line> = Vec::new();
    out.push(l);
    assert(line_views(out@) =~= seq![v]);
    out
}

fn no_lines() -> (out: Vec<Line>)
    ensures
        line_views(out@) == Seq::<LineView>::empty(),
{
    let out: Vec<Line> = Vec::new();
    assert(line_views(out@) =~= Seq::<LineView>::empty());
    out
}

pub proof fn lemma_backoff_values()
    ensures
        backoff_at(0) == 500000,
        backoff_at(1) == 750000,
        backoff_at(2) == 1125000,
        backoff_at(3) == 1687500,
        backoff_at(4) == 2531250,
{
    reveal_with_fuel(backoff_at, 5);
}

impl Socat {
    /// The session's invariant: the attempt is in range, the pause is the one
    /// that belongs to it, and the buffer has one of its two sizes.
    pub open spec fn wf(&self) -> bool {
        &&& self.attempt < MAX_ATTEMPTS
        &&& self.backoff_us == backoff_at(self.attempt as nat)
        &&& (self.buf_len == INITIAL_BUFFER || self.buf_len == GROWN_BUFFER)
    }

    /// Starts a session: the first attempt's banner, then a connection.
    pub fn new(sock_name: &str, name: &str) -> (out: (Socat, SocatStep))
        ensures
            out.0.wf(),
            out.0.sock_name@ == sock_name@,
            out.0.name@ == name@,
            out.0.attempt == 0,
            line_views(out.1.lines@) == seq![LineView::Out(attempt_line(0, sock_name@))],
            out.1.next@ == ActionView::Connect,
    {
        let s = Socat {
            sock_name: sock_name.to_string(),
            name: name.to_string(),
            attempt: 0,
            backoff_us: FIRST_BACKOFF_US,
            buf_len: INITIAL_BUFFER,
            first_chunk: true,
            silence_warnings: 0,
            retry_connection: false,
        };
        let banner = attempt_banner(0, sock_name);
        (s, SocatStep { lines: one_line(Line::Out(banner)), next: SocatAction::Connect })
    }

    /// After a connection attempt: on failure, complain and pause before the
    /// next attempt, or end (with success, as the relay does) after the last;
    /// on success, start `pacat` on a fresh buffer.
    pub fn on_connect(&mut self, error: Option<&str>) -> (step: SocatStep)
        requires
            old(self).wf(),
        ensures
            final(self).wf(),
            final(self).sock_name == old(self).sock_name,
            final(self).name == old(self).name,
            final(self).attempt == old(self).attempt,
            match error {
                Some(e) => {
                    &&& line_views(step.lines@) == seq![
                        LineView::Warn(
                            "Error connecting to socket (attempt "@ + decimal(
                                (old(self).attempt + 1) as nat,
                            ) + "/5): "@ + e@,
                        ),
                    ]
                    &&& step.next@ == if old(self).attempt + 1 < MAX_ATTEMPTS {
                        ActionView::Sleep(old(self).backoff_us)
                    } else {
                        ActionView::FinishOk
                    }
                    &&& *final(self) == *old(self)
                },
                None => {
                    &&& line_views(step.lines@) == Seq::<LineView>::empty()
                    &&& step.next@ == ActionView::SpawnPacat(
                        seq!["--playback"@, "--device"@, old(self).name@ + "_sink"@]
                            + pacat_format_spec(),
                    )
                    &&& final(self).buf_len == INITIAL_BUFFER
                    &&& final(self).first_chunk
                    &&& final(self).silence_warnings == 0
                    &&& !final(self).retry_connection
                    &&& final(self).backoff_us == old(self).backoff_us
                },
            },
    {
        match error {
            Some(e) => {
                let n = decimal_string((self.attempt + 1) as u64);
                let mut msg = "Error connecting to socket (attempt ".to_string();
                msg.append(n.as_str());
                msg.append("/5): ");
                msg.append(e);
                let next = if self.attempt + 1 < MAX_ATTEMPTS {
                    SocatAction::Sleep(self.backoff_us)
                } else {
                    SocatAction::Finish(Ok(()))
                };
                SocatStep { lines: one_line(Line::Warn(msg)), next }
            },
            None => {
                self.buf_len = INITIAL_BUFFER;
                self.first_chunk = true;
                self.silence_warnings = 0;
                self.retry_connection = false;
                let args = pacat_args(self.name.as_str());
                SocatStep { lines: no_lines(), next: SocatAction::SpawnPacat(args) }
            },
        }
    }

    /// After starting `pacat`: stream, or end with an error if it did not start.
    pub fn on_pacat(&self, started: bool) -> (step: SocatStep)
        ensures
            line_views(step.lines@) == Seq::<LineView>::empty(),
            step.next@ == if started {
                ActionView::Poll
            } else {
                ActionView::FinishPacatError
            },
    {
        if started {
            SocatStep { lines: no_lines(), next: SocatAction::Poll }
        } else {
            SocatStep { lines: no_lines(), next: SocatAction::Finish(Err(SocatError::PacatSpawn)) }
        }
    }

    /// The top of the streaming loop: check the sink when more than five
    /// seconds have passed since the last check, else read.
    pub fn loop_top(&self, since_check_secs: u64) -> (step: SocatStep)
        ensures
            line_views(step.lines@) == Seq::<LineView>::empty(),
            step.next@ == if since_check_secs > SINK_CHECK_SECS {
                ActionView::CheckSink(seq!["list"@, "modules"@, "short"@])
            } else {
                ActionView::Read(self.buf_len, false)
            },
    {
        if since_check_secs > SINK_CHECK_SECS {
            SocatStep { lines: no_lines(), next: SocatAction::CheckSink(list_modules_args()) }
        } else {
            SocatStep {
                lines: no_lines(),
                next: SocatAction::Read { len: self.buf_len, reset_clock: false },
            }
        }
    }

    /// After the sink check (`listing` is `None` when `pactl` could not be
    /// run): stop when the listing no longer shows our sink, else read on.
    pub fn on_sink_listing(&self, listing: Option<&str>) -> (step: SocatStep)
        ensures
            (listing matches Some(l) && !has_sub(l@, sink_property(self.name@))) ==> {
                &&& line_views(step.lines@) == seq![
                    LineView::Out("[PIPEWIRE] Sink disappeared, triggering restart"@),
                ]
                &&& step.next@ == ActionView::StopPacat
            },
            !(listing matches Some(l) && !has_sub(l@, sink_property(self.name@))) ==> {
                &&& line_views(step.lines@) == Seq::<LineView>::empty()
                &&& step.next@ == ActionView::Read(self.buf_len, true)
            },
    {
        let gone = match listing {
            Some(l) => !sink_listed(l, self.name.as_str()),
            None => false,
        };
        if gone {
            SocatStep {
                lines: one_line(
                    Line::Out("[PIPEWIRE] Sink disappeared, triggering restart".to_string()),
                ),
                next: SocatAction::StopPacat,
            }
        } else {
            SocatStep {
                lines: no_lines(),
                next: SocatAction::Read { len: self.buf_len, reset_clock: true },
            }
        }
    }

    /// The phone closed the socket `elapsed_ms` after the session began: a
    /// close within the first second asks for another connection.
    pub fn on_closed(&mut self, elapsed_ms: u64) -> (step: SocatStep)
        requires
            old(self).wf(),
        ensures
            final(self).wf(),
            final(self).attempt == old(self).attempt,
            final(self).retry_connection == (old(self).retry_connection || elapsed_ms < 1000),
            final(self).buf_len == old(self).buf_len,
            final(self).name == old(self).name,
            final(self).sock_name == old(self).sock_name,
            line_views(step.lines@) == if elapsed_ms < 1000 {
                seq![
                    LineView::Out(
                        "[SOCAT] Immediate disconnect, Android socket not ready, retrying..."@,
                    ),
                ]
            } else {
                Seq::<LineView>::empty()
            },
            step.next@ == ActionView::StopPacat,
    {
        if elapsed_ms < 1000 {
            self.retry_connection = true;
            SocatStep {
                lines: one_line(
                    Line::Out(
                        "[SOCAT] Immediate disconnect, Android socket not ready, retrying...".to_string(),
                    ),
                ),
                next: SocatAction::StopPacat,
            }
        } else {
            SocatStep { lines: no_lines(), next: SocatAction::StopPacat }
        }
    }

    /// A read timed out or would block: go on.
    pub fn on_timeout(&self) -> (step: SocatStep)
        ensures
            line_views(step.lines@) == Seq::<LineView>::empty(),
            step.next@ == ActionView::Poll,
    {
        SocatStep { lines: no_lines(), next: SocatAction::Poll }
    }

    /// A read failed: complain and stop.
    pub fn on_read_error(&self, error: &str) -> (step: SocatStep)
        ensures
            line_views(step.lines@) == seq![LineView::Warn("Socket error: "@ + error@)],
            step.next@ == ActionView::StopPacat,
    {
        SocatStep {
            lines: one_line(Line::Warn(concat("Socket error: ", error))),
            next: SocatAction::StopPacat,
        }
    }

    /// A chunk of audio arrived (`data`, at most the buffer's size): announce
    /// the first one, grow a buffer that the read filled, count silent chunks
    /// (warning on the 1st, 101st, ... in a row), announce the end of a
    /// silence, and pass the chunk on.
    pub fn on_data(&mut self, data: &[u8]) -> (step: SocatStep)
        requires
            old(self).wf(),
            0 < data@.len() <= old(self).buf_len,
        ensures
            final(self).wf(),
            final(self).attempt == old(self).attempt,
            final(self).backoff_us == old(self).backoff_us,
            final(self).retry_connection == old(self).retry_connection,
            final(self).name == old(self).name,
            final(self).sock_name == old(self).sock_name,
            !final(self).first_chunk,
            final(self).buf_len == if data@.len() == old(self).buf_len && old(self).buf_len
                < GROWN_BUFFER {
                2 * old(self).buf_len
            } else {
                old(self).buf_len as int
            },
            final(self).silence_warnings == if all_zero(data@) {
                if old(self).silence_warnings < u64::MAX {
                    (old(self).silence_warnings + 1) as u64
                } else {
                    old(self).silence_warnings
                }
            } else {
                0
            },
            line_views(step.lines@) == (if old(self).first_chunk {
                seq![LineView::Out("[SOCAT] Streaming started (Wi-Fi Optimized)"@)]
            } else {
                Seq::<LineView>::empty()
            }) + (if all_zero(data@) && final(self).silence_warnings % 100 == 1 {
                seq![LineView::Out("WARNING: Receiving pure silence (0s) from Android!"@)]
            } else if !all_zero(data@) && old(self).silence_warnings > 0 {
                seq![LineView::Out("Audio signal detected!"@)]
            } else {
                Seq::<LineView>::empty()
            }),
            step.next@ == ActionView::Write(data@),
    {
        let mut lines: Vec<Line> = Vec::new();
        let ghost first = if old(self).first_chunk {
            seq![LineView::Out("[SOCAT] Streaming started (Wi-Fi Optimized)"@)]
        } else {
            Seq::<LineView>::empty()
        };
        if self.first_chunk {
            lines.push(Line::Out("[SOCAT] Streaming started (Wi-Fi Optimized)".to_string()));
            self.first_chunk = false;
        }
        assert(line_views(lines@) =~= first);
        if data.len() == self.buf_len && self.buf_len < GROWN_BUFFER {
            self.buf_len = self.buf_len * 2;
        }
        let silent = is_silence(data);
        if silent {
            if self.silence_warnings < u64::MAX {
                self.silence_warnings = self.silence_warnings + 1;
            }
            if self.silence_warnings % 100 == 1 {
                lines.push(
                    Line::Out("WARNING: Receiving pure silence (0s) from Android!".to_string()),
                );
            }
        } else {
            if self.silence_warnings > 0 {
                lines.push(Line::Out("Audio signal detected!".to_string()));
                self.silence_warnings = 0;
            }
        }
        assert(line_views(lines@) =~= first + (if all_zero(data@) && self.silence_warnings % 100
            == 1 {
            seq![LineView::Out("WARNING: Receiving pure silence (0s) from Android!"@)]
        } else if !all_zero(data@) && old(self).silence_warnings > 0 {
            seq![LineView::Out("Audio signal detected!"@)]
        } else {
            Seq::<LineView>::empty()
        }));
        SocatStep { lines, next: SocatAction::Write(bytes_of(data)) }
    }

    /// After writing to `pacat`: on failure complain and stop, else go on.
    pub fn on_write(&self, error: Option<&str>) -> (step: SocatStep)
        ensures
            error matches Some(e) ==> line_views(step.lines@) == seq![
                LineView::Warn("Write error to pacat: "@ + e@),
            ] && step.next@ == ActionView::StopPacat,
            error is None ==> line_views(step.lines@) == Seq::<LineView>::empty() && step.next@
                == ActionView::Poll,
    {
        match error {
            Some(e) => SocatStep {
                lines: one_line(Line::Warn(concat("Write error to pacat: ", e))),
                next: SocatAction::StopPacat,
            },
            None => SocatStep { lines: no_lines(), next: SocatAction::Poll },
        }
    }

    /// After `pacat` is gone: pause before another attempt when the phone
    /// asked for one and attempts are left, else end with success.
    pub fn on_pacat_stopped(&self) -> (step: SocatStep)
        requires
            self.wf(),
        ensures
            line_views(step.lines@) == Seq::<LineView>::empty(),
            step.next@ == if self.retry_connection && self.attempt + 1 < MAX_ATTEMPTS {
                ActionView::Sleep(self.backoff_us)
            } else {
                ActionView::FinishOk
            },
    {
        if self.retry_connection && self.attempt + 1 < MAX_ATTEMPTS {
            SocatStep { lines: no_lines(), next: SocatAction::Sleep(self.backoff_us) }
        } else {
            SocatStep { lines: no_lines(), next: SocatAction::Finish(Ok(())) }
        }
    }

    /// After a pause: the next attempt, with its banner and a pause half as
    /// long again; with no attempt left, end with success.
    pub fn on_slept(&mut self) -> (step: SocatStep)
        requires
            old(self).wf(),
        ensures
            final(self).wf(),
            final(self).name == old(self).name,
            final(self).sock_name == old(self).sock_name,
            old(self).attempt + 1 < MAX_ATTEMPTS ==> {
                &&& final(self).attempt == old(self).attempt + 1
                &&& line_views(step.lines@) == seq![
                    LineView::Out(attempt_line(final(self).attempt as nat, old(self).sock_name@)),
                ]
                &&& step.next@ == ActionView::Connect
            },
            old(self).attempt + 1 >= MAX_ATTEMPTS ==> {
                &&& *final(self) == *old(self)
                &&& line_views(step.lines@) == Seq::<LineView>::empty()
                &&& step.next@ == ActionView::FinishOk
            },
    {
        if self.attempt + 1 < MAX_ATTEMPTS {
            proof {
                lemma_backoff_values();
            }
            self.backoff_us = self.backoff_us * 3 / 2;
            self.attempt = self.attempt + 1;
            let banner = attempt_banner(self.attempt, self.sock_name.as_str());
            SocatStep { lines: one_line(Line::Out(banner)), next: SocatAction::Connect }
        } else {
            SocatStep { lines: no_lines(), next: SocatAction::Finish(Ok(())) }
        }
    }
}

/// The pauses between attempts grow by exactly a half each time: none of the
/// divisions by two that compute them drops a remainder.
pub proof fn lemma_backoff_grows_by_half(k: nat)
    requires
        k + 1 < MAX_ATTEMPTS,
    ensures
        backoff_at(k + 1) * 2 == backoff_at(k) * 3,
{
    lemma_backoff_values();
    reveal_with_fuel(backoff_at, 5);
}

} // verus!
