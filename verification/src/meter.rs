//! The microphone level meter: the peak of a chunk of 16-bit samples, the
//! silence detector that logs its changes, and the bar that shows the level.
use vstd::prelude::*;
use crate::text::{concat, decimal, decimal_string, has_sub};

verus! {

broadcast use vstd::string::group_string_axioms;

/// A level of this value or more is shown as full scale.
pub const FULL_SCALE: u32 = 20000;

/// Levels below this are silence (one hundredth of full scale).
pub const SILENCE_BELOW: u32 = 200;

/// Seconds of quiet after which silence is announced.
pub const SILENCE_AFTER_SECS: u64 = 3;

/// The `k`-th little-endian signed 16-bit sample of `data`.
pub open spec fn sample_at(data: Seq<u8>, k: int) -> int {
    let u = data[2 * k] as int + 256 * (data[2 * k + 1] as int);
    if u >= 32768 {
        u - 65536
    } else {
        u
    }
}

/// The magnitude of a sample: its distance from zero, so the most negative
/// sample (-32768) counts as 32768, a full-scale peak.
pub open spec fn magnitude(s: int) -> int {
    if s < 0 {
        -s
    } else {
        s
    }
}

/// The largest magnitude (at least 0) among the first `k` samples.
pub open spec fn peak_of(data: Seq<u8>, k: nat) -> int
    decreases k,
{
    if k == 0 {
        0
    } else {
        let p = peak_of(data, (k - 1) as nat);
        let m = magnitude(sample_at(data, k - 1));
        if m > p {
            m
        } else {
            p
        }
    }
}

/// The peak of a chunk: whole samples only, a trailing odd byte is ignored.
pub open spec fn chunk_peak(data: Seq<u8>) -> int {
    peak_of(data, data.len() / 2)
}

pub proof fn lemma_peak_range(data: Seq<u8>, k: nat)
    requires
        2 * k <= data.len(),
    ensures
        0 <= peak_of(data, k) <= 32768,
    decreases k,
{
    if k > 0 {
        lemma_peak_range(data, (k - 1) as nat);
    }
}

/// The peak sample magnitude of a chunk of 16-bit little-endian audio.
pub fn peak(data: &[u8]) -> (p: u16)
    ensures
        p as int == chunk_peak(data@),
{
    let len = data.len();
    let n = len / 2;
    let mut best: i32 = 0;
    let mut k: usize = 0;
    while k < n
        invariant
            len == data@.len(),
            n == len / 2,
            k <= n,
            best as int == peak_of(data@, k as nat),
            0 <= best <= 32768,
        decreases n - k,
    {
        assert(2 * k + 1 < len);
        let u: i32 = data[2 * k] as i32 + 256 * (data[2 * k + 1] as i32);
        let s: i32 = if u >= 32768 { u - 65536 } else { u };
        let m: i32 = if s < 0 {
            -s
        } else {
            s
        };
        if m > best {
            best = m;
        }
        k = k + 1;
    }
    best as u16
}

/// The level shown for a peak: the peak, capped at full scale.
pub open spec fn level_of(p: int) -> int {
    if p > FULL_SCALE {
        FULL_SCALE as int
    } else {
        p
    }
}

/// What the meter makes of a chunk.
pub struct MeterUpdate {
    /// The level to show, 0 for silence, at most `FULL_SCALE`.
    pub level: u32,
    /// A line for the log, when silence begins or ends.
    pub log: Option<String>,
    /// Restart the quiet-time clock (sound was heard).
    pub restart_clock: bool,
}

/// The silence detector: silent at first, announcing silence only after three
/// seconds of quiet, and sound at once.
pub struct Meter {
    pub is_silent: bool,
}

impl Meter {
    pub fn new() -> (m: Meter)
        ensures
            m.is_silent,
    {
        Meter { is_silent: true }
    }

    /// Takes in a chunk of audio, `quiet_secs` whole seconds after sound was
    /// last heard.
    pub fn on_chunk(&mut self, data: &[u8], quiet_secs: u64) -> (u: MeterUpdate)
        ensures
            u.level <= FULL_SCALE,
            chunk_peak(data@) < SILENCE_BELOW ==> {
                &&& u.level == 0
                &&& !u.restart_clock
                &&& final(self).is_silent == (old(self).is_silent || quiet_secs
                    > SILENCE_AFTER_SECS)
                &&& match u.log {
                    Some(l) => !old(self).is_silent && quiet_secs > SILENCE_AFTER_SECS && l@
                        == "[TUI] Silence detected"@,
                    None => old(self).is_silent || quiet_secs <= SILENCE_AFTER_SECS,
                }
            },
            chunk_peak(data@) >= SILENCE_BELOW ==> {
                &&& u.level == level_of(chunk_peak(data@))
                &&& u.restart_clock
                &&& !final(self).is_silent
                &&& match u.log {
                    Some(l) => old(self).is_silent && l@ == "[TUI] Audio signal restored"@,
                    None => !old(self).is_silent,
                }
            },
    {
        let p = peak(data) as u32;
        if p < SILENCE_BELOW {
            let mut log: Option<String> = None;
            if !self.is_silent && quiet_secs > SILENCE_AFTER_SECS {
                self.is_silent = true;
                log = Some("[TUI] Silence detected".to_string());
            }
            MeterUpdate { level: 0, log, restart_clock: false }
        } else {
            let mut log: Option<String> = None;
            if self.is_silent {
                self.is_silent = false;
                log = Some("[TUI] Audio signal restored".to_string());
            }
            let level = if p > FULL_SCALE { FULL_SCALE } else { p };
            MeterUpdate { level, log, restart_clock: true }
        }
    }
}

/// What the level poll does next.
#[derive(PartialEq, Eq, Structural, Clone, Copy, Debug)]
pub enum PollStep {
    /// Record the source and feed the chunks to the meter.
    Record,
    /// Show level 0 and look again after this many milliseconds.
    Idle(u64),
}

/// Decides the level poll on a `pactl list short sources` listing (`None`
/// when `pactl` could not be run): a listing without the source means nothing
/// is received yet; otherwise recording is tried.
pub fn poll_step(listing: Option<&str>, source: &str) -> (step: PollStep)
    ensures
        (listing matches Some(l) && !has_sub(l@, source@)) ==> step == PollStep::Idle(1000),
        !(listing matches Some(l) && !has_sub(l@, source@)) ==> step == PollStep::Record,
{
    match listing {
        Some(l) => if crate::pulse::source_listed(l, source) {
            PollStep::Record
        } else {
            PollStep::Idle(1000)
        },
        None => PollStep::Record,
    }
}

/// The pause after recording failed to start or ended, before looking again.
pub const RETRY_PAUSE_MS: u64 = 1000;

/// Recording could not be started, or its stream ended or failed: the level
/// drops to 0 and the poll looks again after `RETRY_PAUSE_MS`.
pub fn after_recording() -> (step: PollStep)
    ensures
        step == PollStep::Idle(RETRY_PAUSE_MS),
{
    PollStep::Idle(RETRY_PAUSE_MS)
}

/// The level a chunk gives is always within 0 to `FULL_SCALE` (every other
/// poll step shows 0).
pub proof fn lemma_level_in_range(data: Seq<u8>)
    ensures
        0 <= level_of(chunk_peak(data)) <= FULL_SCALE,
{
    lemma_peak_range(data, data.len() / 2);
}

/// The colour of the level bar.
#[derive(PartialEq, Eq, Structural, Clone, Copy, Debug)]
pub enum BarColor {
    Green,
    Yellow,
    Red,
}

/// Red above 80 %, yellow above 50 %, green otherwise.
pub open spec fn bar_color_of(level: int) -> BarColor {
    if level > 16000 {
        BarColor::Red
    } else if level > 10000 {
        BarColor::Yellow
    } else {
        BarColor::Green
    }
}

/// The level bar as drawn in a space `width` cells wide.
pub struct VolumeBar {
    /// "Vol: ║" and one cell per unit of bar width, filled ones first.
    pub bar: String,
    pub color: BarColor,
    /// " <percent>%".
    pub percent: String,
}

/// The filled cells of a bar `bar_width` wide at `level`.
pub open spec fn filled_cells(level: int, bar_width: int) -> int {
    level * bar_width / (FULL_SCALE as int)
}

pub open spec fn bar_cells(filled: int, bar_width: int) -> Seq<char> {
    Seq::new(bar_width as nat, |i: int| if i < filled { '\u{2588}' } else { '\u{2591}' })
}

/// The filled part of the bar never exceeds the bar, and a full-scale level
/// fills it completely.
pub proof fn lemma_bar_fits(level: int, bar_width: int)
    requires
        0 <= level <= FULL_SCALE,
        0 <= bar_width,
    ensures
        0 <= filled_cells(level, bar_width) <= bar_width,
        filled_cells(FULL_SCALE as int, bar_width) == bar_width,
{
    assert(level * bar_width <= 20000 * bar_width) by (nonlinear_arith)
        requires
            level <= 20000,
            0 <= bar_width,
    ;
    assert(0 <= level * bar_width) by (nonlinear_arith)
        requires
            0 <= level,
            0 <= bar_width,
    ;
    assert((20000 * bar_width) / 20000 == bar_width) by (nonlinear_arith);
    assert(level * bar_width / 20000 <= (20000 * bar_width) / 20000) by (nonlinear_arith)
        requires
            level * bar_width <= 20000 * bar_width,
    ;
}

/// What the level area shows.
pub enum VolumeDisplay {
    /// Nothing is being received: this text stands in place of the bar.
    Waiting(String),
    /// The level bar.
    Bar(VolumeBar),
}

/// Draws the level area for `level` (out of `FULL_SCALE`) in `width` cells:
/// "[Waiting for connection...]" while nothing is received (level 0);
/// otherwise nothing when fewer than eleven cells are free, else a bar ten
/// cells narrower than the space.
pub fn volume_bar(level: u32, width: u16) -> (out: Option<VolumeDisplay>)
    requires
        level <= FULL_SCALE,
    ensures
        level == 0 ==> (out matches Some(VolumeDisplay::Waiting(t)) && t@
            == "[Waiting for connection...]"@),
        level > 0 ==> (width <= 10 <==> out is None),
        level > 0 ==> !(out matches Some(VolumeDisplay::Waiting(_))),
        out matches Some(VolumeDisplay::Bar(b)) ==> {
            let bw = width - 10;
            &&& b.bar@ == "Vol: \u{2551}"@ + bar_cells(filled_cells(level as int, bw), bw)
            &&& b.color == bar_color_of(level as int)
            &&& b.percent@ == " "@ + decimal((level / 200) as nat) + "%"@
        },
{
    if level == 0 {
        return Some(VolumeDisplay::Waiting("[Waiting for connection...]".to_string()));
    }
    if width <= 10 {
        return None;
    }
    let bw: u16 = width - 10;
    assert((level as u64) * (bw as u64) <= 20000 * 65535) by (nonlinear_arith)
        requires
            level <= 20000,
            bw <= 65535,
    ;
    let filled: u64 = (level as u64) * (bw as u64) / (FULL_SCALE as u64);
    let mut bar = "Vol: \u{2551}".to_string();
    let ghost head = bar@;
    let mut i: u16 = 0;
    while i < bw
        invariant
            i <= bw,
            bar@ == head + bar_cells(filled as int, bw as int).take(i as int),
        decreases bw - i,
    {
        if (i as u64) < filled {
            bar.push('\u{2588}');
        } else {
            bar.push('\u{2591}');
        }
        assert(bar_cells(filled as int, bw as int).take(i + 1) =~= bar_cells(
            filled as int,
            bw as int,
        ).take(i as int).push(bar_cells(filled as int, bw as int)[i as int]));
        i = i + 1;
    }
    assert(bar_cells(filled as int, bw as int).take(bw as int) =~= bar_cells(
        filled as int,
        bw as int,
    ));
    let color = if level > 16000 {
        BarColor::Red
    } else if level > 10000 {
        BarColor::Yellow
    } else {
        BarColor::Green
    };
    let pct = decimal_string((level / 200) as u64);
    let mut percent = concat(" ", pct.as_str());
    percent.append("%");
    Some(VolumeDisplay::Bar(VolumeBar { bar, color, percent }))
}

} // verus!
