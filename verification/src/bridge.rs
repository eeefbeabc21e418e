//! The bridge's main procedure: check the tools, then (again and again when
//! asked to restart) clear and load the PulseAudio modules, wait for the
//! phone, check its permissions, start forwarding and relay the audio; and
//! clear the modules once more at the end.
use vstd::prelude::*;
use crate::pulse::{null_sink_args, null_sink_args_spec, virtual_source_args, virtual_source_args_spec};
use crate::stream::{Line, LineView, line_views};
use crate::text::{concat, concat3, views};

verus! {

broadcast use vstd::string::group_string_axioms;

/// Why the bridge stopped with an error.
pub enum BridgeError {
    /// A required program could not be run (`adb` or `pactl`).
    ToolMissing(String),
    /// The null sink could not be loaded.
    NullSink,
    /// The virtual source could not be loaded.
    VirtualSource,
}

pub open spec fn bridge_error_message(e: BridgeError) -> Seq<char> {
    match e {
        BridgeError::ToolMissing(t) => "Error: "@ + t@ + " not found"@,
        BridgeError::NullSink => "Failed to load null sink"@,
        BridgeError::VirtualSource => "Failed to load virtual source"@,
    }
}

impl BridgeError {
    /// The error's text.
    pub fn message(&self) -> (s: String)
        ensures
            s@ == bridge_error_message(*self),
    {
        match self {
            BridgeError::ToolMissing(t) => concat3("Error: ", t.as_str(), " not found"),
            BridgeError::NullSink => "Failed to load null sink".to_string(),
            BridgeError::VirtualSource => "Failed to load virtual source".to_string(),
        }
    }
}

/// Where the procedure stands.
#[derive(PartialEq, Eq, Structural, Clone, Copy)]
pub enum BridgePhase {
    /// Checking that `adb` can be run.
    CheckAdb,
    /// Checking that `pactl` can be run.
    CheckPactl,
    /// Clearing leftover modules at the top of a round.
    Clearing,
    /// Loading the null sink.
    LoadSink,
    /// Loading the virtual source.
    LoadSource,
    /// Waiting for the phone.
    Waiting,
    /// Checking the app's permissions.
    Permissions,
    /// Starting the app and the forwarding.
    Forwarding,
    /// Relaying audio.
    Relaying,
    /// Pausing before the next round.
    Pausing,
    /// Clearing the modules before the end.
    FinalClearing,
    /// Over.
    Done,
}

/// What the caller does next, reporting the outcome to the method named.
pub enum BridgeAction {
    /// Run `which <tool>`; then `on_tool` with whether it could be run.
    CheckTool(String),
    /// Remove the modules of this device name (see `pulse::unload_round`);
    /// then `on_cleared`.
    Clear(String),
    /// Run `pactl` with these arguments; then `on_pactl` with whether it could be run.
    Pactl(Vec<String>),
    /// Wait for the phone (see `adb::wait_poll`); then `on_device`.
    WaitForDevice,
    /// Check permissions (see `adb::check_permissions`); then `on_permissions`.
    CheckPermissions,
    /// Start the app and forward its socket under this device name (see
    /// `adb::start_forwarding`); then `on_forwarding`.
    StartForwarding(String),
    /// Relay audio from the socket of this device name into the sink of the
    /// same name (see `stream::Socat`); then `on_relay`.
    Relay(String),
    /// Wait this many milliseconds; then `on_paused`.
    Pause(u64),
    /// The bridge is over.
    Finish(Result<(), BridgeError>),
}

pub enum BridgeActionView {
    CheckTool(Seq<char>),
    Clear(Seq<char>),
    Pactl(Seq<Seq<char>>),
    WaitForDevice,
    CheckPermissions,
    StartForwarding(Seq<char>),
    Relay(Seq<char>),
    Pause(u64),
    FinishOk,
    FinishErr(Seq<char>),
}

impl View for BridgeAction {
    type V = BridgeActionView;

    open spec fn view(&self) -> BridgeActionView {
        match self {
            BridgeAction::CheckTool(t) => BridgeActionView::CheckTool(t@),
            BridgeAction::Clear(n) => BridgeActionView::Clear(n@),
            BridgeAction::Pactl(a) => BridgeActionView::Pactl(views(a@)),
            BridgeAction::WaitForDevice => BridgeActionView::WaitForDevice,
            BridgeAction::CheckPermissions => BridgeActionView::CheckPermissions,
            BridgeAction::StartForwarding(n) => BridgeActionView::StartForwarding(n@),
            BridgeAction::Relay(n) => BridgeActionView::Relay(n@),
            BridgeAction::Pause(ms) => BridgeActionView::Pause(*ms),
            BridgeAction::Finish(r) => match r {
                Ok(_) => BridgeActionView::FinishOk,
                Err(e) => BridgeActionView::FinishErr(bridge_error_message(*e)),
            },
        }
    }
}

/// The lines to print and the next thing to do.
pub struct BridgeStep {
    pub lines: Vec<Line>,
    pub next: BridgeAction,
}

/// The state of the bridge procedure.
pub struct Bridge {
    /// The device name the modules are named after.
    pub name: String,
    /// Start over after each session.
    pub auto_restart: bool,
    pub phase: BridgePhase,
}

/// What a report to the bridge says.
pub enum BridgeEvent {
    /// `on_tool`: whether the tool could be run.
    Tool(bool),
    /// `on_cleared`.
    Cleared,
    /// `on_pactl`: whether `pactl` could be run.
    Pactl(bool),
    /// `on_device`: whether a phone was found.
    Device(bool),
    /// `on_permissions`: whether the check passed.
    Permissions(bool),
    /// `on_forwarding`: whether forwarding was set up.
    Forwarding(bool),
    /// `on_relay`.
    Relayed,
    /// `on_paused`.
    Paused,
}

/// Where a round ends: pausing before the next one when restarting, else
/// the final clearing.
pub open spec fn round_end_phase(auto_restart: bool) -> BridgePhase {
    if auto_restart {
        BridgePhase::Pausing
    } else {
        BridgePhase::FinalClearing
    }
}

/// The phase after a report; a report that does not belong to the phase
/// leaves it as it is.
pub open spec fn bridge_next(p: BridgePhase, auto_restart: bool, e: BridgeEvent) -> BridgePhase {
    match (p, e) {
        (BridgePhase::CheckAdb, BridgeEvent::Tool(found)) => if found {
            BridgePhase::CheckPactl
        } else {
            BridgePhase::Done
        },
        (BridgePhase::CheckPactl, BridgeEvent::Tool(found)) => if found {
            BridgePhase::Clearing
        } else {
            BridgePhase::Done
        },
        (BridgePhase::Clearing, BridgeEvent::Cleared) => BridgePhase::LoadSink,
        (BridgePhase::FinalClearing, BridgeEvent::Cleared) => BridgePhase::Done,
        (BridgePhase::LoadSink, BridgeEvent::Pactl(ran)) => if ran {
            BridgePhase::LoadSource
        } else {
            BridgePhase::Done
        },
        (BridgePhase::LoadSource, BridgeEvent::Pactl(ran)) => if ran {
            BridgePhase::Waiting
        } else {
            BridgePhase::Done
        },
        (BridgePhase::Waiting, BridgeEvent::Device(found)) => if found {
            BridgePhase::Permissions
        } else {
            BridgePhase::FinalClearing
        },
        (BridgePhase::Permissions, BridgeEvent::Permissions(granted)) => if granted {
            BridgePhase::Forwarding
        } else {
            BridgePhase::FinalClearing
        },
        (BridgePhase::Forwarding, BridgeEvent::Forwarding(ok)) => if ok {
            BridgePhase::Relaying
        } else {
            round_end_phase(auto_restart)
        },
        (BridgePhase::Relaying, BridgeEvent::Relayed) => round_end_phase(auto_restart),
        (BridgePhase::Pausing, BridgeEvent::Paused) => BridgePhase::Clearing,
        _ => p,
    }
}

/// The phases a run goes through from `p`, one report after another.
pub open spec fn bridge_run(p: BridgePhase, auto_restart: bool, es: Seq<BridgeEvent>) -> Seq<
    BridgePhase,
>
    decreases es.len(),
{
    if es.len() == 0 {
        seq![p]
    } else {
        seq![p] + bridge_run(bridge_next(p, auto_restart, es[0]), auto_restart, es.drop_first())
    }
}

/// The order in which a run without restarts passes the phases.
pub open spec fn phase_rank(p: BridgePhase) -> int {
    match p {
        BridgePhase::CheckAdb => 0,
        BridgePhase::CheckPactl => 1,
        BridgePhase::Clearing => 2,
        BridgePhase::LoadSink => 3,
        BridgePhase::LoadSource => 4,
        BridgePhase::Waiting => 5,
        BridgePhase::Permissions => 6,
        BridgePhase::Forwarding => 7,
        BridgePhase::Relaying => 8,
        BridgePhase::Pausing => 9,
        BridgePhase::FinalClearing => 10,
        BridgePhase::Done => 11,
    }
}

pub proof fn lemma_run_steps(p: BridgePhase, a: bool, es: Seq<BridgeEvent>)
    ensures
        bridge_run(p, a, es).len() == es.len() + 1,
        bridge_run(p, a, es)[0] == p,
        forall|i: int|
            0 <= i < es.len() ==> #[trigger] bridge_run(p, a, es)[i + 1] == bridge_next(
                bridge_run(p, a, es)[i],
                a,
                es[i],
            ),
    decreases es.len(),
{
    if es.len() > 0 {
        let q = bridge_next(p, a, es[0]);
        lemma_run_steps(q, a, es.drop_first());
        let r = bridge_run(p, a, es);
        let rest = bridge_run(q, a, es.drop_first());
        assert forall|i: int| 0 <= i < es.len() implies #[trigger] r[i + 1] == bridge_next(
            r[i],
            a,
            es[i],
        ) by {
            if i > 0 {
                assert(r[i + 1] == rest[i]);
                assert(r[i] == rest[i - 1]);
                assert(es.drop_first()[i - 1] == es[i]);
            }
        }
    }
}

/// Modules are loaded only right after a clearing: in every run, a step into
/// loading the null sink comes from clearing the leftover modules.
pub proof fn lemma_clear_before_load(p: BridgePhase, a: bool, es: Seq<BridgeEvent>, i: int)
    requires
        0 <= i < es.len(),
        bridge_run(p, a, es)[i + 1] == BridgePhase::LoadSink,
        bridge_run(p, a, es)[i] != BridgePhase::LoadSink,
    ensures
        bridge_run(p, a, es)[i] == BridgePhase::Clearing,
{
    lemma_run_steps(p, a, es);
}

/// Without restarts the bridge only moves forward through its phases: it
/// never pauses, and once it has left a phase it does not come back to it,
/// so the modules are cleared and loaded in one round only.
pub proof fn lemma_single_round(es: Seq<BridgeEvent>, i: int, j: int)
    requires
        0 <= i <= j <= es.len(),
    ensures
        bridge_run(BridgePhase::CheckAdb, false, es)[j] != BridgePhase::Pausing,
        phase_rank(bridge_run(BridgePhase::CheckAdb, false, es)[i]) <= phase_rank(
            bridge_run(BridgePhase::CheckAdb, false, es)[j],
        ),
    decreases j,
{
    lemma_run_steps(BridgePhase::CheckAdb, false, es);
    let r = bridge_run(BridgePhase::CheckAdb, false, es);
    if j > 0 {
        lemma_single_round(es, if i < j { i } else { j - 1 }, j - 1);
        let k = j - 1;
        assert(r[k + 1] == bridge_next(r[k], false, es[k]));
    }
}

/// A report that ends the bridge well: the final clearing is over.
pub open spec fn finishes_ok(p: BridgePhase, e: BridgeEvent) -> bool {
    p == BridgePhase::FinalClearing && e is Cleared
}

/// Once over, a run stays over.
proof fn lemma_done_stays(p: BridgePhase, a: bool, es: Seq<BridgeEvent>, i: int, j: int)
    requires
        0 <= i <= j <= es.len(),
        bridge_run(p, a, es)[i] == BridgePhase::Done,
    ensures
        bridge_run(p, a, es)[j] == BridgePhase::Done,
    decreases j - i,
{
    lemma_run_steps(p, a, es);
    if i < j {
        let r = bridge_run(p, a, es);
        assert(r[i + 1] == bridge_next(r[i], a, es[i]));
        lemma_done_stays(p, a, es, i + 1, j);
    }
}

/// Every phase from loading the null sink on (short of the end) comes after
/// a step from clearing into loading.
proof fn lemma_loaded_after_clearing(a: bool, es: Seq<BridgeEvent>, l: int)
    requires
        0 <= l <= es.len(),
        phase_rank(bridge_run(BridgePhase::CheckAdb, a, es)[l]) >= 3,
        bridge_run(BridgePhase::CheckAdb, a, es)[l] != BridgePhase::Done,
    ensures
        exists|i: int|
            0 <= i < l && bridge_run(BridgePhase::CheckAdb, a, es)[i] == BridgePhase::Clearing
                && #[trigger] bridge_run(BridgePhase::CheckAdb, a, es)[i + 1]
                == BridgePhase::LoadSink,
    decreases l,
{
    lemma_run_steps(BridgePhase::CheckAdb, a, es);
    let r = bridge_run(BridgePhase::CheckAdb, a, es);
    if l > 0 {
        assert(r[l] == bridge_next(r[l - 1], a, es[l - 1]));
        if phase_rank(r[l - 1]) >= 3 && r[l - 1] != BridgePhase::Done {
            lemma_loaded_after_clearing(a, es, l - 1);
            let i = choose|i: int|
                0 <= i < l - 1 && r[i] == BridgePhase::Clearing && #[trigger] r[i + 1]
                    == BridgePhase::LoadSink;
            assert(r[i + 1] == BridgePhase::LoadSink);
        } else {
            assert(r[l - 1] == BridgePhase::Clearing && r[l] == BridgePhase::LoadSink);
            assert(r[(l - 1) + 1] == BridgePhase::LoadSink);
        }
    }
}

/// The step at which the final clearing began, counted back from `k`.
proof fn final_clearing_entry(a: bool, es: Seq<BridgeEvent>, k: int) -> (m: int)
    requires
        0 <= k <= es.len(),
        bridge_run(BridgePhase::CheckAdb, a, es)[k] == BridgePhase::FinalClearing,
    ensures
        0 < m <= k,
        bridge_run(BridgePhase::CheckAdb, a, es)[m - 1] != BridgePhase::FinalClearing,
        forall|j: int|
            m <= j <= k ==> #[trigger] bridge_run(BridgePhase::CheckAdb, a, es)[j]
                == BridgePhase::FinalClearing,
    decreases k,
{
    lemma_run_steps(BridgePhase::CheckAdb, a, es);
    let r = bridge_run(BridgePhase::CheckAdb, a, es);
    if r[k - 1] != BridgePhase::FinalClearing {
        k
    } else {
        final_clearing_entry(a, es, k - 1)
    }
}

/// The whole course of a run of the bridge that ends well, at step `k`
/// (the report that the final clearing is over). The result `m` is the step
/// at which the final clearing began.
///
/// - The run ends at `k` and not before: it is over right after `k`, at no
///   earlier step.
/// - At least one round ran: some step went from clearing the leftover
///   modules into loading the null sink.
/// - Modules are loaded only straight after clearing, so at most one null
///   sink and one virtual source of the name are loaded at a time.
/// - From step `m` to `k` the bridge clears the modules one last time, and
///   nothing else happens.
/// - With restarts, the rounds end only when no phone was found or the
///   permission check failed: that is the step into the final clearing.
/// - Without restarts, exactly one round ran: only one step went from
///   clearing into loading.
pub proof fn lemma_successful_run(a: bool, es: Seq<BridgeEvent>, k: int) -> (m: int)
    requires
        0 <= k < es.len(),
        finishes_ok(bridge_run(BridgePhase::CheckAdb, a, es)[k], es[k]),
    ensures
        ({
            let r = bridge_run(BridgePhase::CheckAdb, a, es);
            &&& r[k + 1] == BridgePhase::Done
            &&& forall|j: int| 0 <= j <= k ==> #[trigger] r[j] != BridgePhase::Done
            &&& exists|i: int|
                0 <= i < k && r[i] == BridgePhase::Clearing && #[trigger] r[i + 1]
                    == BridgePhase::LoadSink
            &&& forall|j: int|
                0 <= j < k && #[trigger] r[j + 1] == BridgePhase::LoadSink && r[j]
                    != BridgePhase::LoadSink ==> r[j] == BridgePhase::Clearing
            &&& 0 < m <= k
            &&& forall|j: int| m <= j <= k ==> #[trigger] r[j] == BridgePhase::FinalClearing
            &&& r[m - 1] != BridgePhase::FinalClearing
            &&& a ==> (r[m - 1] == BridgePhase::Waiting && es[m - 1] == BridgeEvent::Device(false))
                || (r[m - 1] == BridgePhase::Permissions && es[m - 1]
                == BridgeEvent::Permissions(false))
            &&& !a ==> forall|i: int, j: int|
                0 <= i < k && 0 <= j < k && r[i] == BridgePhase::Clearing && #[trigger] r[i + 1]
                    == BridgePhase::LoadSink && r[j] == BridgePhase::Clearing && #[trigger] r[j
                    + 1] == BridgePhase::LoadSink ==> i == j
        }),
{
    lemma_run_steps(BridgePhase::CheckAdb, a, es);
    let r = bridge_run(BridgePhase::CheckAdb, a, es);
    assert(r[k + 1] == bridge_next(r[k], a, es[k]));
    assert forall|j: int| 0 <= j <= k implies #[trigger] r[j] != BridgePhase::Done by {
        if r[j] == BridgePhase::Done {
            lemma_done_stays(BridgePhase::CheckAdb, a, es, j, k);
        }
    }
    lemma_loaded_after_clearing(a, es, k);
    assert forall|j: int|
        0 <= j < k && #[trigger] r[j + 1] == BridgePhase::LoadSink && r[j]
            != BridgePhase::LoadSink implies r[j] == BridgePhase::Clearing by {
        lemma_clear_before_load(BridgePhase::CheckAdb, a, es, j);
    }
    let m = final_clearing_entry(a, es, k);
    assert(r[m] == BridgePhase::FinalClearing);
    assert(r[(m - 1) + 1] == bridge_next(r[m - 1], a, es[m - 1]));
    if !a {
        assert forall|i: int, j: int|
            0 <= i < k && 0 <= j < k && r[i] == BridgePhase::Clearing && #[trigger] r[i + 1]
                == BridgePhase::LoadSink && r[j] == BridgePhase::Clearing && #[trigger] r[j + 1]
                == BridgePhase::LoadSink implies i == j by {
            if i < j {
                lemma_single_round(es, i + 1, j);
            } else if j < i {
                lemma_single_round(es, j + 1, i);
            }
        }
    }
    m
}

/// The end of a round: another round after a pause of a second when
/// restarting, else the final clearing of the modules of `name`.
pub open spec fn round_end(auto_restart: bool, name: Seq<char>) -> (BridgePhase, Seq<LineView>, BridgeActionView) {
    if auto_restart {
        (
            BridgePhase::Pausing,
            seq![LineView::Out("Restarting in 1 second..."@)],
            BridgeActionView::Pause(1000),
        )
    } else {
        (BridgePhase::FinalClearing, Seq::<LineView>::empty(), BridgeActionView::Clear(name))
    }
}

fn lines0() -> (out: Vec<Line>)
    ensures
        line_views(out@) == Seq::<LineView>::empty(),
{
    let out: Vec<Line> = Vec::new();
    assert(line_views(out@) =~= Seq::<LineView>::empty());
    out
}

fn lines1(l: Line) -> (out: Vec<Line>)
    ensures
        line_views(out@) == seq![l@],
{
    let ghost v = l@;
    let mut out: Vec<Line> = Vec::new();
    out.push(l);
    assert(line_views(out@) =~= seq![v]);
    out
}

impl Bridge {
    /// Starts the procedure: `adb` is checked first.
    pub fn new(name: &str, auto_restart: bool) -> (out: (Bridge, BridgeStep))
        ensures
            out.0.name@ == name@,
            out.0.auto_restart == auto_restart,
            out.0.phase == BridgePhase::CheckAdb,
            line_views(out.1.lines@) == Seq::<LineView>::empty(),
            out.1.next@ == BridgeActionView::CheckTool("adb"@),
    {
        (
            Bridge { name: name.to_string(), auto_restart, phase: BridgePhase::CheckAdb },
            BridgeStep { lines: lines0(), next: BridgeAction::CheckTool("adb".to_string()) },
        )
    }

    fn end_round(&mut self) -> (step: BridgeStep)
        ensures
            final(self).name == old(self).name,
            final(self).auto_restart == old(self).auto_restart,
            (final(self).phase, line_views(step.lines@), step.next@) == round_end(
                old(self).auto_restart,
                old(self).name@,
            ),
    {
        if self.auto_restart {
            self.phase = BridgePhase::Pausing;
            BridgeStep {
                lines: lines1(Line::Out("Restarting in 1 second...".to_string())),
                next: BridgeAction::Pause(1000),
            }
        } else {
            self.phase = BridgePhase::FinalClearing;
            BridgeStep { lines: lines0(), next: BridgeAction::Clear(self.name.as_str().to_string()) }
        }
    }

    /// A tool check came back: a missing tool ends the bridge with an error;
    /// after `adb` comes `pactl`, after `pactl` the first round.
    pub fn on_tool(&mut self, found: bool) -> (step: BridgeStep)
        requires
            old(self).phase == BridgePhase::CheckAdb || old(self).phase == BridgePhase::CheckPactl,
        ensures
            final(self).phase == bridge_next(old(self).phase, old(self).auto_restart, BridgeEvent::Tool(found)),
            step.next@ == BridgeActionView::FinishOk <==> finishes_ok(old(self).phase, BridgeEvent::Tool(found)),
            final(self).name == old(self).name,
            final(self).auto_restart == old(self).auto_restart,
            line_views(step.lines@) == Seq::<LineView>::empty(),
            !found ==> final(self).phase == BridgePhase::Done && step.next@
                == BridgeActionView::FinishErr(
                "Error: "@ + (if old(self).phase == BridgePhase::CheckAdb {
                    "adb"@
                } else {
                    "pactl"@
                }) + " not found"@,
            ),
            found && old(self).phase == BridgePhase::CheckAdb ==> final(self).phase
                == BridgePhase::CheckPactl && step.next@ == BridgeActionView::CheckTool("pactl"@),
            found && old(self).phase == BridgePhase::CheckPactl ==> final(self).phase
                == BridgePhase::Clearing && step.next@ == BridgeActionView::Clear(old(self).name@),
    {
        let is_adb = self.phase == BridgePhase::CheckAdb;
        if !found {
            self.phase = BridgePhase::Done;
            let tool = if is_adb {
                "adb".to_string()
            } else {
                "pactl".to_string()
            };
            return BridgeStep {
                lines: lines0(),
                next: BridgeAction::Finish(Err(BridgeError::ToolMissing(tool))),
            };
        }
        if is_adb {
            self.phase = BridgePhase::CheckPactl;
            BridgeStep { lines: lines0(), next: BridgeAction::CheckTool("pactl".to_string()) }
        } else {
            self.phase = BridgePhase::Clearing;
            BridgeStep { lines: lines0(), next: BridgeAction::Clear(self.name.as_str().to_string()) }
        }
    }

    /// The modules were cleared: at the top of a round, load the null sink;
    /// at the end, finish.
    pub fn on_cleared(&mut self) -> (step: BridgeStep)
        requires
            old(self).phase == BridgePhase::Clearing || old(self).phase
                == BridgePhase::FinalClearing,
        ensures
            final(self).phase == bridge_next(old(self).phase, old(self).auto_restart, BridgeEvent::Cleared),
            step.next@ == BridgeActionView::FinishOk <==> finishes_ok(old(self).phase, BridgeEvent::Cleared),
            final(self).name == old(self).name,
            final(self).auto_restart == old(self).auto_restart,
            old(self).phase == BridgePhase::Clearing ==> {
                &&& final(self).phase == BridgePhase::LoadSink
                &&& line_views(step.lines@) == seq![
                    LineView::Out("[+] Loading PulseAudio modules (Wi-Fi Stable Mode)"@),
                ]
                &&& step.next@ == BridgeActionView::Pactl(null_sink_args_spec(old(self).name@))
            },
            old(self).phase == BridgePhase::FinalClearing ==> {
                &&& final(self).phase == BridgePhase::Done
                &&& line_views(step.lines@) == Seq::<LineView>::empty()
                &&& step.next@ == BridgeActionView::FinishOk
            },
    {
        if self.phase == BridgePhase::Clearing {
            self.phase = BridgePhase::LoadSink;
            BridgeStep {
                lines: lines1(
                    Line::Out("[+] Loading PulseAudio modules (Wi-Fi Stable Mode)".to_string()),
                ),
                next: BridgeAction::Pactl(null_sink_args(self.name.as_str())),
            }
        } else {
            self.phase = BridgePhase::Done;
            BridgeStep { lines: lines0(), next: BridgeAction::Finish(Ok(())) }
        }
    }

    /// A module load came back: if `pactl` could not be run the bridge ends
    /// with that load's error; else the source follows the sink, and the
    /// wait for the phone follows the source.
    pub fn on_pactl(&mut self, ran: bool) -> (step: BridgeStep)
        requires
            old(self).phase == BridgePhase::LoadSink || old(self).phase == BridgePhase::LoadSource,
        ensures
            final(self).phase == bridge_next(old(self).phase, old(self).auto_restart, BridgeEvent::Pactl(ran)),
            step.next@ == BridgeActionView::FinishOk <==> finishes_ok(old(self).phase, BridgeEvent::Pactl(ran)),
            final(self).name == old(self).name,
            final(self).auto_restart == old(self).auto_restart,
            line_views(step.lines@) == Seq::<LineView>::empty(),
            !ran ==> final(self).phase == BridgePhase::Done && step.next@
                == BridgeActionView::FinishErr(
                if old(self).phase == BridgePhase::LoadSink {
                    "Failed to load null sink"@
                } else {
                    "Failed to load virtual source"@
                },
            ),
            ran && old(self).phase == BridgePhase::LoadSink ==> final(self).phase
                == BridgePhase::LoadSource && step.next@ == BridgeActionView::Pactl(
                virtual_source_args_spec(old(self).name@),
            ),
            ran && old(self).phase == BridgePhase::LoadSource ==> final(self).phase
                == BridgePhase::Waiting && step.next@ == BridgeActionView::WaitForDevice,
    {
        let sink = self.phase == BridgePhase::LoadSink;
        if !ran {
            self.phase = BridgePhase::Done;
            let e = if sink {
                BridgeError::NullSink
            } else {
                BridgeError::VirtualSource
            };
            return BridgeStep { lines: lines0(), next: BridgeAction::Finish(Err(e)) };
        }
        if sink {
            self.phase = BridgePhase::LoadSource;
            BridgeStep {
                lines: lines0(),
                next: BridgeAction::Pactl(virtual_source_args(self.name.as_str())),
            }
        } else {
            self.phase = BridgePhase::Waiting;
            BridgeStep { lines: lines0(), next: BridgeAction::WaitForDevice }
        }
    }

    /// The wait for the phone ended: without a phone the rounds stop.
    pub fn on_device(&mut self, connected: bool) -> (step: BridgeStep)
        requires
            old(self).phase == BridgePhase::Waiting,
        ensures
            final(self).phase == bridge_next(old(self).phase, old(self).auto_restart, BridgeEvent::Device(connected)),
            step.next@ == BridgeActionView::FinishOk <==> finishes_ok(old(self).phase, BridgeEvent::Device(connected)),
            final(self).name == old(self).name,
            final(self).auto_restart == old(self).auto_restart,
            line_views(step.lines@) == Seq::<LineView>::empty(),
            connected ==> final(self).phase == BridgePhase::Permissions && step.next@
                == BridgeActionView::CheckPermissions,
            !connected ==> final(self).phase == BridgePhase::FinalClearing && step.next@
                == BridgeActionView::Clear(old(self).name@),
    {
        if connected {
            self.phase = BridgePhase::Permissions;
            BridgeStep { lines: lines0(), next: BridgeAction::CheckPermissions }
        } else {
            self.phase = BridgePhase::FinalClearing;
            BridgeStep { lines: lines0(), next: BridgeAction::Clear(self.name.as_str().to_string()) }
        }
    }

    /// The permission check ended: when it failed the rounds stop.
    pub fn on_permissions(&mut self, granted: bool) -> (step: BridgeStep)
        requires
            old(self).phase == BridgePhase::Permissions,
        ensures
            final(self).phase == bridge_next(old(self).phase, old(self).auto_restart, BridgeEvent::Permissions(granted)),
            step.next@ == BridgeActionView::FinishOk <==> finishes_ok(old(self).phase, BridgeEvent::Permissions(granted)),
            final(self).name == old(self).name,
            final(self).auto_restart == old(self).auto_restart,
            line_views(step.lines@) == Seq::<LineView>::empty(),
            granted ==> final(self).phase == BridgePhase::Forwarding && step.next@
                == BridgeActionView::StartForwarding(old(self).name@),
            !granted ==> final(self).phase == BridgePhase::FinalClearing && step.next@
                == BridgeActionView::Clear(old(self).name@),
    {
        if granted {
            self.phase = BridgePhase::Forwarding;
            BridgeStep { lines: lines0(), next: BridgeAction::StartForwarding(self.name.as_str().to_string()) }
        } else {
            self.phase = BridgePhase::FinalClearing;
            BridgeStep { lines: lines0(), next: BridgeAction::Clear(self.name.as_str().to_string()) }
        }
    }

    /// Forwarding was set up, or failed with `error`: relay on success;
    /// on failure report it and end the round.
    pub fn on_forwarding(&mut self, error: Option<&str>) -> (step: BridgeStep)
        requires
            old(self).phase == BridgePhase::Forwarding,
        ensures
            final(self).phase == bridge_next(old(self).phase, old(self).auto_restart, BridgeEvent::Forwarding(error is None)),
            step.next@ == BridgeActionView::FinishOk <==> finishes_ok(old(self).phase, BridgeEvent::Forwarding(error is None)),
            final(self).name == old(self).name,
            final(self).auto_restart == old(self).auto_restart,
            error is None ==> final(self).phase == BridgePhase::Relaying && line_views(
                step.lines@,
            ) == Seq::<LineView>::empty() && step.next@ == BridgeActionView::Relay(old(self).name@),
            error matches Some(e) ==> {
                let (p, ls, a) = round_end(old(self).auto_restart, old(self).name@);
                &&& final(self).phase == p
                &&& line_views(step.lines@) == seq![
                    LineView::Warn("Failed to start forwarding: "@ + e@),
                ] + ls
                &&& step.next@ == a
            },
    {
        match error {
            None => {
                self.phase = BridgePhase::Relaying;
                BridgeStep { lines: lines0(), next: BridgeAction::Relay(self.name.as_str().to_string()) }
            },
            Some(e) => {
                let mut lines = lines1(Line::Warn(concat("Failed to start forwarding: ", e)));
                let rest = self.end_round();
                let ghost first = line_views(lines@);
                let ghost tail = line_views(rest.lines@);
                let mut more = rest.lines;
                lines.append(&mut more);
                assert(line_views(lines@) =~= first + tail);
                BridgeStep { lines, next: rest.next }
            },
        }
    }

    /// The relay ended, perhaps with `error`: report it and end the round.
    pub fn on_relay(&mut self, error: Option<&str>) -> (step: BridgeStep)
        requires
            old(self).phase == BridgePhase::Relaying,
        ensures
            final(self).phase == bridge_next(old(self).phase, old(self).auto_restart, BridgeEvent::Relayed),
            step.next@ == BridgeActionView::FinishOk <==> finishes_ok(old(self).phase, BridgeEvent::Relayed),
            final(self).name == old(self).name,
            final(self).auto_restart == old(self).auto_restart,
            ({
                let (p, ls, a) = round_end(old(self).auto_restart, old(self).name@);
                &&& final(self).phase == p
                &&& line_views(step.lines@) == (match error {
                    Some(e) => seq![LineView::Warn("Socat error: "@ + e@)],
                    None => Seq::<LineView>::empty(),
                }) + ls
                &&& step.next@ == a
            }),
    {
        let mut lines = match error {
            Some(e) => lines1(Line::Warn(concat("Socat error: ", e))),
            None => lines0(),
        };
        let rest = self.end_round();
        let ghost first = line_views(lines@);
        let ghost tail = line_views(rest.lines@);
        let mut more = rest.lines;
        lines.append(&mut more);
        assert(line_views(lines@) =~= first + tail);
        BridgeStep { lines, next: rest.next }
    }

    /// The pause between rounds is over: the next round begins by clearing.
    pub fn on_paused(&mut self) -> (step: BridgeStep)
        requires
            old(self).phase == BridgePhase::Pausing,
        ensures
            final(self).phase == bridge_next(old(self).phase, old(self).auto_restart, BridgeEvent::Paused),
            step.next@ == BridgeActionView::FinishOk <==> finishes_ok(old(self).phase, BridgeEvent::Paused),
            final(self).name == old(self).name,
            final(self).auto_restart == old(self).auto_restart,
            final(self).phase == BridgePhase::Clearing,
            line_views(step.lines@) == Seq::<LineView>::empty(),
            step.next@ == BridgeActionView::Clear(old(self).name@),
    {
        self.phase = BridgePhase::Clearing;
        BridgeStep { lines: lines0(), next: BridgeAction::Clear(self.name.as_str().to_string()) }
    }
}

} // verus!
