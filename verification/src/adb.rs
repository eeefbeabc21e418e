//! The `adb` side: command lines, and the decisions taken on what `adb`
//! answers while the phone is prepared.
use vstd::prelude::*;
use crate::text::{
    chars_of, concat, concat3, decimal, decimal_string, ends_with, ends_with_vec, has_sub, lines,
    lines_of, prefix_of, push_str, str_contains, string_of, view_all, views,
};

verus! {

broadcast use vstd::string::group_string_axioms;

/// The Android package of the Audio Source app.
pub open spec fn package() -> Seq<char> {
    "fr.dzx.audiosource"@
}

pub open spec fn post_notifications() -> Seq<char> {
    "android.permission.POST_NOTIFICATIONS"@
}

pub open spec fn record_audio() -> Seq<char> {
    "android.permission.RECORD_AUDIO"@
}

/// A step of a fixed procedure that the caller carries out in order.
pub enum Step {
    /// Print a line on standard output.
    Say(String),
    /// Print a line on standard error.
    Complain(String),
    /// Run `adb` with these arguments; whatever happens, go on.
    Adb(Vec<String>),
    /// Run `adb` with these arguments; if it cannot be run, stop with `context` as the error.
    AdbOrFail { args: Vec<String>, context: String },
    /// Wait this many milliseconds.
    Pause(u64),
}

/// The plain-value picture of a [`Step`].
pub enum StepView {
    Say(Seq<char>),
    Complain(Seq<char>),
    Adb(Seq<Seq<char>>),
    AdbOrFail(Seq<Seq<char>>, Seq<char>),
    Pause(u64),
}

impl View for Step {
    type V = StepView;

    open spec fn view(&self) -> StepView {
        match self {
            Step::Say(s) => StepView::Say(s@),
            Step::Complain(s) => StepView::Complain(s@),
            Step::Adb(a) => StepView::Adb(views(a@)),
            Step::AdbOrFail { args, context } => StepView::AdbOrFail(views(args@), context@),
            Step::Pause(ms) => StepView::Pause(*ms),
        }
    }
}

pub open spec fn step_views(steps: Seq<Step>) -> Seq<StepView> {
    steps.map_values(|s: Step| s@)
}

fn push_step(steps: &mut Vec<Step>, s: Step)
    ensures
        step_views(final(steps)@) == step_views(old(steps)@).push(s@),
{
    let ghost before = step_views(steps@);
    let ghost v = s@;
    steps.push(s);
    assert(step_views(steps@) =~= before.push(v));
}

// ------------------------------------------------------------------
// Command lines.

/// `adb get-state`.
pub fn get_state_args() -> (out: Vec<String>)
    ensures
        views(out@) == seq!["get-state"@],
{
    let mut out: Vec<String> = Vec::new();
    push_str(&mut out, "get-state");
    assert(views(out@) =~= seq!["get-state"@]);
    out
}

pub open spec fn dumpsys_args_spec() -> Seq<Seq<char>> {
    seq!["exec-out"@, "dumpsys"@, "package"@, package()]
}

/// `adb exec-out dumpsys package fr.dzx.audiosource`.
pub fn dumpsys_args() -> (out: Vec<String>)
    ensures
        views(out@) == dumpsys_args_spec(),
{
    let mut out: Vec<String> = Vec::new();
    push_str(&mut out, "exec-out");
    push_str(&mut out, "dumpsys");
    push_str(&mut out, "package");
    push_str(&mut out, "fr.dzx.audiosource");
    assert(views(out@) =~= dumpsys_args_spec());
    out
}

pub open spec fn grant_args_spec(perm: Seq<char>) -> Seq<Seq<char>> {
    seq!["exec-out"@, "pm"@, "grant"@, package(), perm]
}

/// `adb exec-out pm grant fr.dzx.audiosource <perm>`.
pub fn grant_args(perm: &str) -> (out: Vec<String>)
    ensures
        views(out@) == grant_args_spec(perm@),
{
    let mut out: Vec<String> = Vec::new();
    push_str(&mut out, "exec-out");
    push_str(&mut out, "pm");
    push_str(&mut out, "grant");
    push_str(&mut out, "fr.dzx.audiosource");
    push_str(&mut out, perm);
    assert(views(out@) =~= grant_args_spec(perm@));
    out
}

pub open spec fn appops_args_spec() -> Seq<Seq<char>> {
    seq!["shell"@, "appops"@, "set"@, package(), "RECORD_AUDIO"@, "allow"@]
}

/// `adb shell appops set fr.dzx.audiosource RECORD_AUDIO allow`.
pub fn appops_args() -> (out: Vec<String>)
    ensures
        views(out@) == appops_args_spec(),
{
    let mut out: Vec<String> = Vec::new();
    push_str(&mut out, "shell");
    push_str(&mut out, "appops");
    push_str(&mut out, "set");
    push_str(&mut out, "fr.dzx.audiosource");
    push_str(&mut out, "RECORD_AUDIO");
    push_str(&mut out, "allow");
    assert(views(out@) =~= appops_args_spec());
    out
}

pub open spec fn force_stop_args_spec() -> Seq<Seq<char>> {
    seq!["shell"@, "am"@, "force-stop"@, package()]
}

pub open spec fn start_activity_args_spec() -> Seq<Seq<char>> {
    seq!["shell"@, "am"@, "start"@, package() + "/.MainActivity"@]
}

pub open spec fn forward_args_spec(name: Seq<char>) -> Seq<Seq<char>> {
    seq!["forward"@, "localabstract:"@ + name, "localabstract:audiosource"@]
}

/// `adb shell getprop ro.product.model`.
pub fn model_args() -> (out: Vec<String>)
    ensures
        views(out@) == seq!["shell"@, "getprop"@, "ro.product.model"@],
{
    let mut out: Vec<String> = Vec::new();
    push_str(&mut out, "shell");
    push_str(&mut out, "getprop");
    push_str(&mut out, "ro.product.model");
    assert(views(out@) =~= seq!["shell"@, "getprop"@, "ro.product.model"@]);
    out
}

// ------------------------------------------------------------------
// Waiting for the phone.

/// How long the phone is waited for, in seconds.
pub const WAIT_LIMIT_SECS: u64 = 30;

/// The pause after a poll that found no phone, before the next, in
/// milliseconds.
pub const POLL_PAUSE_MS: u64 = 1000;

/// The line printed while waiting, `elapsed` seconds in.
pub open spec fn waiting_line(elapsed: nat) -> Seq<char> {
    "[ADB] Waiting... "@ + decimal(elapsed) + "s / 30s"@
}

/// What a poll of the phone begins with: while the waiting time is below the
/// limit, `Ok(line to print)` and a poll; once it is over, `Err(line to print
/// on standard error)` and the wait fails.
pub fn wait_poll(elapsed_secs: u64) -> (out: Result<String, String>)
    ensures
        elapsed_secs < WAIT_LIMIT_SECS <==> out is Ok,
        out matches Ok(l) ==> l@ == waiting_line(elapsed_secs as nat),
        out matches Err(l) ==> l@ == "[ADB] Timeout reached, no device found after 30s"@,
{
    if elapsed_secs < WAIT_LIMIT_SECS {
        let d = decimal_string(elapsed_secs);
        Ok(concat3("[ADB] Waiting... ", d.as_str(), "s / 30s"))
    } else {
        Err("[ADB] Timeout reached, no device found after 30s".to_string())
    }
}

/// The line printed before the wait begins.
pub fn wait_start_line() -> (s: String)
    ensures
        s@ == "[+] Waiting for device"@,
{
    "[+] Waiting for device".to_string()
}

/// `adb devices`, asked when no serial is given.
pub fn devices_args() -> (out: Vec<String>)
    ensures
        views(out@) == seq!["devices"@],
{
    let mut out: Vec<String> = Vec::new();
    push_str(&mut out, "devices");
    assert(views(out@) =~= seq!["devices"@]);
    out
}

/// What a poll asks `adb`: the state of the given phone, or, without a
/// serial, the list of attached phones.
pub fn poll_args(serial: Option<&str>) -> (out: Vec<String>)
    ensures
        serial is Some ==> views(out@) == seq!["get-state"@],
        serial is None ==> views(out@) == seq!["devices"@],
{
    match serial {
        Some(_) => get_state_args(),
        None => devices_args(),
    }
}

/// The serial on a line of `adb devices` that lists a phone ready for use
/// (`<serial>\tdevice`).
pub open spec fn ready_serial(line: Seq<char>) -> Option<Seq<char>> {
    let suffix = "\tdevice"@;
    if suffix.len() < line.len() && ends_with(line, suffix) {
        Some(line.take(line.len() - suffix.len()))
    } else {
        None
    }
}

/// The first phone ready for use in a list of lines.
pub open spec fn first_ready(ls: Seq<Seq<char>>) -> Option<Seq<char>>
    decreases ls.len(),
{
    if ls.len() == 0 {
        None
    } else {
        match ready_serial(ls[0]) {
            Some(s) => Some(s),
            None => first_ready(ls.drop_first()),
        }
    }
}

/// The phone a poll finds: with a serial, that phone once `adb get-state`
/// mentions "device"; without one, the first phone ready for use in the
/// output of `adb devices`. `None` when the command could not be run.
pub open spec fn found_device(serial: Option<Seq<char>>, output: Option<Seq<char>>) -> Option<
    Seq<char>,
> {
    match output {
        None => None,
        Some(o) => match serial {
            Some(s) => if has_sub(o, "device"@) {
                Some(s)
            } else {
                None
            },
            None => first_ready(lines(o)),
        },
    }
}

/// The serial of the first phone ready for use in an `adb devices` listing.
pub fn first_device(listing: &str) -> (out: Option<String>)
    ensures
        match out {
            Some(d) => first_ready(lines(listing@)) == Some(d@),
            None => first_ready(lines(listing@)) is None,
        },
{
    let text = chars_of(listing);
    let ls = lines_of(&text);
    let suffix = chars_of("\tdevice");
    let ghost all = lines(listing@);
    let mut i: usize = 0;
    assert(all.skip(0) =~= all);
    while i < ls.len()
        invariant
            i <= ls@.len(),
            all == lines(listing@),
            view_all(ls@) == all,
            suffix@ == "\tdevice"@,
            first_ready(all) == first_ready(all.skip(i as int)),
        decreases ls.len() - i,
    {
        let line = &ls[i];
        assert(all.skip(i as int)[0] == line@);
        assert(all.skip(i as int).drop_first() =~= all.skip(i + 1));
        if suffix.len() < line.len() && ends_with_vec(line, &suffix) {
            let serial = prefix_of(line, line.len() - suffix.len());
            return Some(string_of(&serial));
        }
        i = i + 1;
    }
    assert(all.skip(ls@.len() as int).len() == 0);
    None
}

/// The result of a poll: `output` is what `adb` printed for the poll's
/// command (`None` when it could not be run). When a phone is found, the line
/// to print and the environment that makes later `adb` commands address that
/// phone.
pub fn wait_check(serial: Option<&str>, output: Option<&str>) -> (out: Option<(String, Vec<(String, String)>)>)
    ensures
        match found_device(
            match serial {
                Some(s) => Some(s@),
                None => None,
            },
            match output {
                Some(o) => Some(o@),
                None => None,
            },
        ) {
            Some(d) => out matches Some((line, envs)) && line@ == "[ADB] Device connected: "@ + d
                && envs@.len() == 1 && envs@[0].0@ == "ANDROID_SERIAL"@ && envs@[0].1@ == d,
            None => out is None,
        },
{
    let o = match output {
        Some(o) => o,
        None => return None,
    };
    let found: Option<String> = match serial {
        Some(s) => if str_contains(o, "device") {
            Some(s.to_string())
        } else {
            None
        },
        None => first_device(o),
    };
    match found {
        Some(d) => {
            let line = concat("[ADB] Device connected: ", d.as_str());
            let envs = crate::naming::get_adb_env(Some(d.as_str()));
            Some((line, envs))
        },
        None => None,
    }
}

// ------------------------------------------------------------------
// Permissions.

/// Whether the package dump shows `perm` granted.
pub open spec fn shows_granted(dumpsys: Seq<char>, perm: Seq<char>) -> bool {
    has_sub(dumpsys, perm + ": granted=true"@)
}

/// The steps for one permission: grant it if the dump does not show it
/// granted, open the audio app-op for the microphone permission, and report
/// it as granted (a grant is always taken to have worked).
pub open spec fn permission_steps(dumpsys: Seq<char>, perm: Seq<char>) -> Seq<StepView> {
    let grant = if shows_granted(dumpsys, perm) {
        Seq::<StepView>::empty()
    } else {
        seq![StepView::Adb(grant_args_spec(perm))]
    };
    let appops = if perm == record_audio() {
        seq![StepView::Adb(appops_args_spec())]
    } else {
        Seq::<StepView>::empty()
    };
    grant + appops + seq![StepView::Say(perm + ": granted=true"@)]
}

fn push_permission_steps(steps: &mut Vec<Step>, dumpsys: &str, perm: &str, is_record: bool)
    requires
        is_record == (perm@ == record_audio()),
    ensures
        step_views(final(steps)@) == step_views(old(steps)@) + permission_steps(dumpsys@, perm@),
{
    let ghost before = step_views(steps@);
    let needle = concat(perm, ": granted=true");
    let granted = str_contains(dumpsys, needle.as_str());
    if !granted {
        push_step(steps, Step::Adb(grant_args(perm)));
    }
    if is_record {
        push_step(steps, Step::Adb(appops_args()));
    }
    push_step(steps, Step::Say(concat(perm, ": granted=true")));
    assert(step_views(steps@) =~= before + permission_steps(dumpsys@, perm@));
}

/// The line printed before the package dump is asked for.
pub fn permissions_start_line() -> (s: String)
    ensures
        s@ == "[+] Checking permissions"@,
{
    "[+] Checking permissions".to_string()
}

/// The permission check, from the package dump (`None` when it could not be
/// had) to the steps to carry out and whether the check passed.
pub open spec fn check_permissions_spec(dumpsys: Option<Seq<char>>) -> (Seq<StepView>, bool) {
    match dumpsys {
        None => (
            seq![StepView::Complain("Error: Failed to get package dumpsys via adb."@)],
            false,
        ),
        Some(d) => (
            permission_steps(d, post_notifications()) + permission_steps(d, record_audio()),
            true,
        ),
    }
}

/// Once the package dump is there the check passes, whatever it shows: a
/// permission not shown granted is granted on the spot.
pub proof fn lemma_permissions_pass_with_dump(d: Seq<char>)
    ensures
        check_permissions_spec(Some(d)).1,
        !check_permissions_spec(None).1,
{
}

/// One permission's steps ask for a grant of `q` exactly when `q` is that
/// permission and the dump lacks `<q>: granted=true`.
proof fn lemma_grant_in_permission_steps(d: Seq<char>, perm: Seq<char>, q: Seq<char>)
    ensures
        permission_steps(d, perm).contains(
            StepView::Adb(seq!["exec-out"@, "pm"@, "grant"@, "fr.dzx.audiosource"@, q]),
        ) <==> (q == perm && !has_sub(d, q + ": granted=true"@)),
{
    reveal_strlit("fr.dzx.audiosource");
    let g = StepView::Adb(seq!["exec-out"@, "pm"@, "grant"@, "fr.dzx.audiosource"@, q]);
    let ps = permission_steps(d, perm);
    let mine = StepView::Adb(grant_args_spec(perm));
    let ops = StepView::Adb(appops_args_spec());
    let say = StepView::Say(perm + ": granted=true"@);
    assert(appops_args_spec().len() == 6);
    assert(ops != g) by {
        if ops == g {
            assert(appops_args_spec().len() == 5);
        }
    }
    assert(mine == g <==> q == perm) by {
        if mine == g {
            assert(grant_args_spec(perm)[4] == perm);
            assert(seq!["exec-out"@, "pm"@, "grant"@, "fr.dzx.audiosource"@, q][4] == q);
        }
        if q == perm {
            assert(grant_args_spec(perm) =~= seq!["exec-out"@, "pm"@, "grant"@, "fr.dzx.audiosource"@, q]);
        }
    }
    let shown = has_sub(d, perm + ": granted=true"@);
    let grant = if shown { Seq::<StepView>::empty() } else { seq![mine] };
    let appops = if perm == record_audio() { seq![ops] } else { Seq::<StepView>::empty() };
    assert(ps == grant + appops + seq![say]);
    if ps.contains(g) {
        let i = choose|i: int| 0 <= i < ps.len() && ps[i] == g;
        if i < grant.len() {
            assert(ps[i] == mine);
        } else if i < grant.len() + appops.len() {
            assert(ps[i] == ops);
        } else {
            assert(ps[i] == say);
        }
    }
    if q == perm && !has_sub(d, q + ": granted=true"@) {
        assert(ps[0] == mine);
    }
}

/// Each of the two permissions gets a `pm grant` step exactly when the
/// package dump does not show `<permission>: granted=true`, whatever else the
/// dump shows granted, and no other permission is ever granted.
pub proof fn lemma_grant_exactly_when_not_shown(d: Seq<char>, q: Seq<char>)
    ensures
        check_permissions_spec(Some(d)).0.contains(
            StepView::Adb(seq!["exec-out"@, "pm"@, "grant"@, "fr.dzx.audiosource"@, q]),
        ) <==> ((q == "android.permission.POST_NOTIFICATIONS"@ || q
            == "android.permission.RECORD_AUDIO"@) && !has_sub(d, q + ": granted=true"@)),
{
    let g = StepView::Adb(seq!["exec-out"@, "pm"@, "grant"@, "fr.dzx.audiosource"@, q]);
    let a = permission_steps(d, post_notifications());
    let b = permission_steps(d, record_audio());
    lemma_grant_in_permission_steps(d, post_notifications(), q);
    lemma_grant_in_permission_steps(d, record_audio(), q);
    let all = check_permissions_spec(Some(d)).0;
    assert(all == a + b);
    if all.contains(g) {
        let i = choose|i: int| 0 <= i < all.len() && all[i] == g;
        if i < a.len() {
            assert(a[i] == g);
        } else {
            assert(b[i - a.len()] == g);
        }
    }
    if a.contains(g) {
        let i = choose|i: int| 0 <= i < a.len() && a[i] == g;
        assert(all[i] == g);
    }
    if b.contains(g) {
        let i = choose|i: int| 0 <= i < b.len() && b[i] == g;
        assert(all[i + a.len()] == g);
    }
}

/// Decides the permission check on the package dump (`dumpsys`, `None` when
/// `adb` could not be run) and lists what to do.
pub fn check_permissions(dumpsys: Option<&str>) -> (out: (Vec<Step>, bool))
    ensures
        (step_views(out.0@), out.1) == check_permissions_spec(match dumpsys {
            Some(d) => Some(d@),
            None => None,
        }),
{
    let mut steps: Vec<Step> = Vec::new();
    assert(step_views(steps@) =~= Seq::<StepView>::empty());
    match dumpsys {
        None => {
            push_step(
                &mut steps,
                Step::Complain("Error: Failed to get package dumpsys via adb.".to_string()),
            );
            assert(step_views(steps@) =~= seq![
                StepView::Complain("Error: Failed to get package dumpsys via adb."@),
            ]);
            (steps, false)
        },
        Some(d) => {
            proof {
                reveal_strlit("android.permission.POST_NOTIFICATIONS");
                reveal_strlit("android.permission.RECORD_AUDIO");
                assert("android.permission.POST_NOTIFICATIONS"@.len() != "android.permission.RECORD_AUDIO"@.len());
            }
            push_permission_steps(&mut steps, d, "android.permission.POST_NOTIFICATIONS", false);
            push_permission_steps(&mut steps, d, "android.permission.RECORD_AUDIO", true);
            assert(step_views(steps@) =~= permission_steps(d@, post_notifications())
                + permission_steps(d@, record_audio()));
            (steps, true)
        },
    }
}

// ------------------------------------------------------------------
// Starting the app and forwarding its socket.

pub open spec fn start_forwarding_spec(name: Seq<char>) -> Seq<StepView> {
    seq![
        StepView::Say("[+] Starting Audio Source"@),
        StepView::Adb(force_stop_args_spec()),
        StepView::AdbOrFail(start_activity_args_spec(), "Failed to start MainActivity"@),
        StepView::Pause(2000),
        StepView::AdbOrFail(forward_args_spec(name), "Failed to forward adb port"@),
        StepView::Say("[+] Forwarding audio to "@ + name),
        StepView::Say(
            "[!] ACTION REQUIRED: Tap the microphone icon on your Android device to start recording."@,
        ),
        StepView::Pause(1000),
    ]
}

/// The steps that start the app on the phone and forward its audio socket
/// to the local abstract socket `name`.
pub fn start_forwarding(name: &str) -> (steps: Vec<Step>)
    ensures
        step_views(steps@) == start_forwarding_spec(name@),
{
    let mut steps: Vec<Step> = Vec::new();
    push_step(&mut steps, Step::Say("[+] Starting Audio Source".to_string()));
    let mut stop: Vec<String> = Vec::new();
    push_str(&mut stop, "shell");
    push_str(&mut stop, "am");
    push_str(&mut stop, "force-stop");
    push_str(&mut stop, "fr.dzx.audiosource");
    assert(views(stop@) =~= force_stop_args_spec());
    push_step(&mut steps, Step::Adb(stop));
    let mut start: Vec<String> = Vec::new();
    push_str(&mut start, "shell");
    push_str(&mut start, "am");
    push_str(&mut start, "start");
    let activity = concat("fr.dzx.audiosource", "/.MainActivity");
    push_str(&mut start, activity.as_str());
    assert(views(start@) =~= start_activity_args_spec());
    push_step(
        &mut steps,
        Step::AdbOrFail { args: start, context: "Failed to start MainActivity".to_string() },
    );
    push_step(&mut steps, Step::Pause(2000));
    let mut fwd: Vec<String> = Vec::new();
    push_str(&mut fwd, "forward");
    let local = concat("localabstract:", name);
    push_str(&mut fwd, local.as_str());
    push_str(&mut fwd, "localabstract:audiosource");
    assert(views(fwd@) =~= forward_args_spec(name@));
    push_step(
        &mut steps,
        Step::AdbOrFail { args: fwd, context: "Failed to forward adb port".to_string() },
    );
    push_step(&mut steps, Step::Say(concat("[+] Forwarding audio to ", name)));
    push_step(
        &mut steps,
        Step::Say(
            "[!] ACTION REQUIRED: Tap the microphone icon on your Android device to start recording.".to_string(),
        ),
    );
    push_step(&mut steps, Step::Pause(1000));
    assert(step_views(steps@) =~= start_forwarding_spec(name@));
    steps
}

} // verus!
