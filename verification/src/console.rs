//! The terminal console: its state, what each key does, and the choices
//! made when the screen is drawn.
use vstd::prelude::*;
use crate::settings::{
    config_text, config_to_text, lemma_config_roundtrip, parse_config, text_view, AudioState,
};
use crate::text::{
    chars_of, concat, decimal, decimal_string, has_sub, lines, lines_of, parse_i32, parse_i32_str, push_string, str_contains,
    string_of, trim_end, trim_end_of, view_all, views,
};

verus! {

broadcast use vstd::string::group_string_axioms;

/// How the phone's audio reaches the computer.
#[derive(PartialEq, Eq, Structural, Clone, Copy, Debug)]
pub enum AppMode {
    Idle,
    Web,
    AdbUsb,
    AdbWifi,
}

/// Something the console asks its caller to do.
pub enum TuiAction {
    /// Append a line to the log file.
    Log(String),
    /// Set the microphone's volume (a `pactl` level such as "+10%").
    SetVolume(String),
    /// Stop the tray icon process named in the pid file.
    KillTray,
    /// Build the QR code of the web address; then `on_qr`.
    GenerateQr,
    /// Start the web server in the background.
    StartWebServer,
    /// Write this text to the saved-state file (`config.json`).
    SaveState(String),
}

pub enum TuiActionView {
    Log(Seq<char>),
    SetVolume(Seq<char>),
    KillTray,
    GenerateQr,
    StartWebServer,
    SaveState(Seq<char>),
}

impl View for TuiAction {
    type V = TuiActionView;

    open spec fn view(&self) -> TuiActionView {
        match self {
            TuiAction::Log(s) => TuiActionView::Log(s@),
            TuiAction::SetVolume(s) => TuiActionView::SetVolume(s@),
            TuiAction::KillTray => TuiActionView::KillTray,
            TuiAction::GenerateQr => TuiActionView::GenerateQr,
            TuiAction::StartWebServer => TuiActionView::StartWebServer,
            TuiAction::SaveState(s) => TuiActionView::SaveState(s@),
        }
    }
}

pub open spec fn action_views(a: Seq<TuiAction>) -> Seq<TuiActionView> {
    a.map_values(|x: TuiAction| x@)
}

/// The console's state.
pub struct Tui {
    /// The console keeps drawing and reading keys.
    pub running: bool,
    pub mode: AppMode,
    /// Shown as streaming.
    pub streaming: bool,
    /// The web server has been started (it is started at most once).
    pub web_server_started: bool,
    /// The QR code of the web address, line by line.
    pub qr_lines: Vec<String>,
    /// The microphone is muted.
    pub muted: bool,
    /// The volume percentage the microphone has when it is not muted.
    pub volume: u32,
    /// The custom art read from the saved-state file, written back with it.
    pub art: Option<String>,
}

/// The plain-value picture of the console's state.
pub struct TuiView {
    pub running: bool,
    pub mode: AppMode,
    pub streaming: bool,
    pub web_server_started: bool,
    pub qr_lines: Seq<Seq<char>>,
    pub muted: bool,
    pub volume: u32,
    pub art: Option<Seq<char>>,
}

impl View for Tui {
    type V = TuiView;

    open spec fn view(&self) -> TuiView {
        TuiView {
            running: self.running,
            mode: self.mode,
            streaming: self.streaming,
            web_server_started: self.web_server_started,
            qr_lines: views(self.qr_lines@),
            muted: self.muted,
            volume: self.volume,
            art: text_view(self.art),
        }
    }
}

/// The volume after a step down: ten points lower, not below 0.
pub open spec fn volume_down(v: u32) -> u32 {
    if v >= 10 {
        (v - 10) as u32
    } else {
        0
    }
}

/// The volume after a step up: ten points higher (kept when that overflows).
pub open spec fn volume_up(v: u32) -> u32 {
    if v <= u32::MAX - 10 {
        (v + 10) as u32
    } else {
        v
    }
}

/// `<v>%`, a `pactl` volume level.
pub open spec fn percent_text(v: u32) -> Seq<char> {
    decimal(v as nat) + "%"@
}

/// The saved text for the console's audio state, with its custom art.
pub open spec fn saved_text(t: TuiView) -> Seq<char> {
    config_text(AudioState { muted: t.muted, volume: t.volume }, t.art)
}

/// The state after a volume key: `up` for 'x', else 'z'. The console follows
/// the microphone's real level: a step down from a muted microphone (at 0 %)
/// leaves it muted, a step up from it brings it to 10 % and unmutes it;
/// otherwise the volume moves ten points.
pub open spec fn volume_key_state(s: TuiView, up: bool) -> TuiView {
    if up {
        if s.muted {
            TuiView { muted: false, volume: 10, ..s }
        } else {
            TuiView { volume: volume_up(s.volume), ..s }
        }
    } else {
        if s.muted {
            s
        } else {
            TuiView { volume: volume_down(s.volume), ..s }
        }
    }
}

/// What a volume key does once the state became `t`: step the microphone's
/// volume by `step` (whether or not it is muted) and save the state. Volume
/// changes are not logged.
pub open spec fn volume_actions(t: TuiView, step: Seq<char>) -> Seq<TuiActionView> {
    seq![TuiActionView::SetVolume(step), TuiActionView::SaveState(saved_text(t))]
}

/// What a key does: the next state and the actions, in order.
pub open spec fn key_effect(s: TuiView, key: char) -> (TuiView, Seq<TuiActionView>) {
    if key == 'q' || key == 'Q' {
        (TuiView { running: false, ..s }, seq![TuiActionView::KillTray])
    } else if key == 't' || key == 'T' {
        (TuiView { running: false, ..s }, Seq::<TuiActionView>::empty())
    } else if key == 'c' || key == 'C' {
        (TuiView { streaming: false, ..s }, seq![TuiActionView::Log("Stopped streaming."@)])
    } else if key == 'z' || key == 'Z' {
        let t = volume_key_state(s, false);
        (t, volume_actions(t, "-10%"@))
    } else if key == 'x' || key == 'X' {
        let t = volume_key_state(s, true);
        (t, volume_actions(t, "+10%"@))
    } else if key == 'w' || key == 'W' {
        (
            TuiView { mode: AppMode::Web, streaming: s.web_server_started, ..s },
            seq![TuiActionView::Log("Web Mode selected. Press [S] to start server."@)],
        )
    } else if key == 'a' || key == 'A' {
        if s.mode == AppMode::AdbUsb {
            (
                TuiView { mode: AppMode::AdbWifi, ..s },
                seq![TuiActionView::Log("ADB Wi-Fi Mode selected. Press [S] to connect."@)],
            )
        } else {
            (
                TuiView { mode: AppMode::AdbUsb, ..s },
                seq![TuiActionView::Log("ADB USB Mode selected. Press [S] to connect."@)],
            )
        }
    } else if key == 's' || key == 'S' {
        if s.mode == AppMode::Web {
            if !s.web_server_started {
                (
                    TuiView { streaming: true, web_server_started: true, ..s },
                    seq![
                        TuiActionView::Log("Starting Web Server..."@),
                        TuiActionView::GenerateQr,
                    ],
                )
            } else {
                (TuiView { streaming: true, ..s }, Seq::<TuiActionView>::empty())
            }
        } else if s.mode == AppMode::AdbUsb || s.mode == AppMode::AdbWifi {
            (
                TuiView { streaming: true, ..s },
                seq![TuiActionView::Log("ADB connection starting... (Not implemented yet)"@)],
            )
        } else {
            (TuiView { streaming: true, ..s }, Seq::<TuiActionView>::empty())
        }
    } else if key == 'm' || key == 'M' {
        let t = TuiView { muted: true, ..s };
        (
            t,
            seq![
                TuiActionView::SetVolume("0%"@),
                TuiActionView::Log("Microphone muted."@),
                TuiActionView::SaveState(saved_text(t)),
            ],
        )
    } else {
        (s, Seq::<TuiActionView>::empty())
    }
}

fn act1(a: TuiAction) -> (out: Vec<TuiAction>)
    ensures
        action_views(out@) == seq![a@],
{
    let ghost v = a@;
    let mut out: Vec<TuiAction> = Vec::new();
    out.push(a);
    assert(action_views(out@) =~= seq![v]);
    out
}

fn act2(a: TuiAction, b: TuiAction) -> (out: Vec<TuiAction>)
    ensures
        action_views(out@) == seq![a@, b@],
{
    let ghost va = a@;
    let ghost vb = b@;
    let mut out: Vec<TuiAction> = Vec::new();
    out.push(a);
    out.push(b);
    assert(action_views(out@) =~= seq![va, vb]);
    out
}

fn act3(a: TuiAction, b: TuiAction, c: TuiAction) -> (out: Vec<TuiAction>)
    ensures
        action_views(out@) == seq![a@, b@, c@],
{
    let ghost va = a@;
    let ghost vb = b@;
    let ghost vc = c@;
    let mut out: Vec<TuiAction> = Vec::new();
    out.push(a);
    out.push(b);
    out.push(c);
    assert(action_views(out@) =~= seq![va, vb, vc]);
    out
}

fn act0() -> (out: Vec<TuiAction>)
    ensures
        action_views(out@) == Seq::<TuiActionView>::empty(),
{
    let out: Vec<TuiAction> = Vec::new();
    assert(action_views(out@) =~= Seq::<TuiActionView>::empty());
    out
}

fn log(s: &str) -> (a: TuiAction)
    ensures
        a@ == TuiActionView::Log(s@),
{
    TuiAction::Log(s.to_string())
}

fn volume(s: &str) -> (a: TuiAction)
    ensures
        a@ == TuiActionView::SetVolume(s@),
{
    TuiAction::SetVolume(s.to_string())
}

impl Tui {
    /// The console as it starts with nothing saved: running, idle, not
    /// streaming, the microphone active at 100 %.
    pub fn new() -> (t: Tui)
        ensures
            t@ == (TuiView {
                running: true,
                mode: AppMode::Idle,
                streaming: false,
                web_server_started: false,
                qr_lines: Seq::<Seq<char>>::empty(),
                muted: false,
                volume: 100,
                art: None,
            }),
    {
        let t = Tui {
            running: true,
            mode: AppMode::Idle,
            streaming: false,
            web_server_started: false,
            qr_lines: Vec::new(),
            muted: false,
            volume: 100,
            art: None,
        };
        assert(t@.qr_lines =~= Seq::<Seq<char>>::empty());
        t
    }

    /// The console as it starts from what the saved-state file holds: the
    /// audio state (`None` when none could be read) and the custom art. It
    /// takes the saved mute state and volume over and re-applies them to the
    /// microphone (0 % when muted, else the saved volume), and keeps the art
    /// so that saving writes it back.
    pub fn restored(saved: Option<AudioState>, art: Option<String>) -> (out: (Tui, Vec<TuiAction>))
        ensures
            out.0@.running && out.0@.mode == AppMode::Idle && !out.0@.streaming
                && !out.0@.web_server_started && out.0@.qr_lines.len() == 0,
            out.0@.art == text_view(art),
            match saved {
                None => {
                    &&& !out.0@.muted
                    &&& out.0@.volume == 100
                    &&& action_views(out.1@) == Seq::<TuiActionView>::empty()
                },
                Some(st) => {
                    &&& out.0@.muted == st.muted
                    &&& out.0@.volume == st.volume
                    &&& action_views(out.1@) == if st.muted {
                        seq![TuiActionView::SetVolume("0%"@)]
                    } else {
                        seq![TuiActionView::SetVolume(percent_text(st.volume))]
                    }
                },
            },
    {
        let mut t = Tui::new();
        t.art = art;
        match saved {
            None => (t, act0()),
            Some(st) => {
                t.muted = st.muted;
                t.volume = st.volume;
                if st.muted {
                    (t, act1(volume("0%")))
                } else {
                    (t, act1(TuiAction::SetVolume(percent_string(st.volume))))
                }
            },
        }
    }

    fn save_action(&self) -> (a: TuiAction)
        ensures
            a@ == TuiActionView::SaveState(saved_text(self@)),
    {
        TuiAction::SaveState(config_to_text(AudioState { muted: self.muted, volume: self.volume }, &self.art))
    }

    fn volume_step(&self, step: &str) -> (out: Vec<TuiAction>)
        ensures
            action_views(out@) == volume_actions(self@, step@),
    {
        act2(volume(step), self.save_action())
    }

    /// Handles a key press.
    pub fn handle_key(&mut self, key: char) -> (actions: Vec<TuiAction>)
        ensures
            (final(self)@, action_views(actions@)) == key_effect(old(self)@, key),
    {
        let mode = self.mode;
        if key == 'q' || key == 'Q' {
            self.running = false;
            act1(TuiAction::KillTray)
        } else if key == 't' || key == 'T' {
            self.running = false;
            act0()
        } else if key == 'c' || key == 'C' {
            self.streaming = false;
            act1(log("Stopped streaming."))
        } else if key == 'z' || key == 'Z' {
            if !self.muted {
                self.volume = if self.volume >= 10 { self.volume - 10 } else { 0 };
            }
            self.volume_step("-10%")
        } else if key == 'x' || key == 'X' {
            if self.muted {
                self.muted = false;
                self.volume = 10;
            } else if self.volume <= u32::MAX - 10 {
                self.volume = self.volume + 10;
            }
            self.volume_step("+10%")
        } else if key == 'w' || key == 'W' {
            self.mode = AppMode::Web;
            self.streaming = self.web_server_started;
            act1(log("Web Mode selected. Press [S] to start server."))
        } else if key == 'a' || key == 'A' {
            if mode == AppMode::AdbUsb {
                self.mode = AppMode::AdbWifi;
                act1(log("ADB Wi-Fi Mode selected. Press [S] to connect."))
            } else {
                self.mode = AppMode::AdbUsb;
                act1(log("ADB USB Mode selected. Press [S] to connect."))
            }
        } else if key == 's' || key == 'S' {
            self.streaming = true;
            if mode == AppMode::Web {
                if !self.web_server_started {
                    self.web_server_started = true;
                    act2(log("Starting Web Server..."), TuiAction::GenerateQr)
                } else {
                    act0()
                }
            } else if mode == AppMode::AdbUsb || mode == AppMode::AdbWifi {
                act1(log("ADB connection starting... (Not implemented yet)"))
            } else {
                act0()
            }
        } else if key == 'm' || key == 'M' {
            self.muted = true;
            act3(volume("0%"), log("Microphone muted."), self.save_action())
        } else {
            act0()
        }
    }

    /// The QR code came back: on success keep its lines, log the address and
    /// start the server; on failure log the error.
    pub fn on_qr(&mut self, result: Result<(String, String), String>) -> (actions: Vec<TuiAction>)
        ensures
            final(self).running == old(self).running,
            final(self).mode == old(self).mode,
            final(self).streaming == old(self).streaming,
            final(self).web_server_started == old(self).web_server_started,
            final(self).muted == old(self).muted,
            final(self).volume == old(self).volume,
            final(self)@.art == old(self)@.art,
            match result {
                Ok((qr, url)) => {
                    &&& final(self)@.qr_lines == lines(qr@)
                    &&& action_views(actions@) == seq![
                        TuiActionView::Log("Web Server running at "@ + url@),
                        TuiActionView::StartWebServer,
                    ]
                },
                Err(e) => {
                    &&& final(self)@.qr_lines == old(self)@.qr_lines
                    &&& action_views(actions@) == seq![
                        TuiActionView::Log("Failed to generate QR: "@ + e@),
                    ]
                },
            },
    {
        match result {
            Ok((qr, url)) => {
                let cs = chars_of(qr.as_str());
                let ls = lines_of(&cs);
                let mut out: Vec<String> = Vec::new();
                let mut i: usize = 0;
                while i < ls.len()
                    invariant
                        i <= ls@.len(),
                        view_all(ls@) == lines(qr@),
                        views(out@) == view_all(ls@).take(i as int),
                    decreases ls.len() - i,
                {
                    push_string(&mut out, string_of(&ls[i]));
                    assert(views(out@) =~= view_all(ls@).take(i + 1));
                    i = i + 1;
                }
                assert(view_all(ls@).take(ls@.len() as int) =~= view_all(ls@));
                self.qr_lines = out;
                let msg = concat("Web Server running at ", url.as_str());
                act2(TuiAction::Log(msg), TuiAction::StartWebServer)
            },
            Err(e) => act1(TuiAction::Log(concat("Failed to generate QR: ", e.as_str()))),
        }
    }

    /// The microphone capsule at the top left: active or muted.
    pub fn mic_capsule(&self) -> (out: (String, StatusColor))
        ensures
            (out.0@, out.1) == mic_capsule_of(self.muted),
    {
        if self.muted {
            (" MICROPHONE MUTED ".to_string(), StatusColor::Red)
        } else {
            (" MICROPHONE ACTIVE ".to_string(), StatusColor::Green)
        }
    }

    /// The frame title for the current mode.
    pub fn title(&self) -> (s: String)
        ensures
            s@ == title_of(self.mode),
    {
        match self.mode {
            AppMode::Idle => " AudioSource TUI ".to_string(),
            AppMode::Web => " AudioSource TUI (Web Mode) ".to_string(),
            AppMode::AdbUsb => " AudioSource TUI (ADB: USB) ".to_string(),
            AppMode::AdbWifi => " AudioSource TUI (ADB: Wi-Fi) ".to_string(),
        }
    }

    /// The status capsule: streaming, waiting (a mode is chosen) or idle.
    pub fn status(&self) -> (out: (String, StatusColor))
        ensures
            (out.0@, out.1) == status_of(self.mode, self.streaming),
    {
        if self.streaming {
            (" Status: Streaming ".to_string(), StatusColor::Green)
        } else if self.mode != AppMode::Idle {
            (" Status: Waiting ".to_string(), StatusColor::Yellow)
        } else {
            (" Status: Idle ".to_string(), StatusColor::Cyan)
        }
    }

    /// The QR code replaces the logo while the web mode is streaming and a
    /// code is there.
    pub fn shows_qr(&self) -> (b: bool)
        ensures
            b == (self.mode == AppMode::Web && self.streaming && self.qr_lines@.len() > 0),
    {
        self.mode == AppMode::Web && self.streaming && self.qr_lines.len() > 0
    }
}

/// `<v>%`.
pub fn percent_string(v: u32) -> (s: String)
    ensures
        s@ == percent_text(v),
{
    let mut s = decimal_string(v as u64);
    s.append("%");
    s
}

pub open spec fn mic_capsule_of(muted: bool) -> (Seq<char>, StatusColor) {
    if muted {
        (" MICROPHONE MUTED "@, StatusColor::Red)
    } else {
        (" MICROPHONE ACTIVE "@, StatusColor::Green)
    }
}

/// The version capsule at the top right.
pub fn version_capsule() -> (s: String)
    ensures
        s@ == " v1.1.0 "@,
{
    " v1.1.0 ".to_string()
}

pub open spec fn title_of(mode: AppMode) -> Seq<char> {
    match mode {
        AppMode::Idle => " AudioSource TUI "@,
        AppMode::Web => " AudioSource TUI (Web Mode) "@,
        AppMode::AdbUsb => " AudioSource TUI (ADB: USB) "@,
        AppMode::AdbWifi => " AudioSource TUI (ADB: Wi-Fi) "@,
    }
}

/// Colours of the status capsule.
#[derive(PartialEq, Eq, Structural, Clone, Copy, Debug)]
pub enum StatusColor {
    Green,
    Yellow,
    Cyan,
    Red,
}

pub open spec fn status_of(mode: AppMode, streaming: bool) -> (Seq<char>, StatusColor) {
    if streaming {
        (" Status: Streaming "@, StatusColor::Green)
    } else if mode != AppMode::Idle {
        (" Status: Waiting "@, StatusColor::Yellow)
    } else {
        (" Status: Idle "@, StatusColor::Cyan)
    }
}

/// Colours of log lines.
#[derive(PartialEq, Eq, Structural, Clone, Copy, Debug)]
pub enum LogColor {
    Red,
    Yellow,
    Green,
    Plain,
}

/// Errors and stops in red, waiting in yellow, starts and connections in
/// green, the rest plain.
pub open spec fn log_color_of(line: Seq<char>) -> LogColor {
    if has_sub(line, "Error"@) || has_sub(line, "Failed"@) || has_sub(line, "exited"@) || has_sub(
        line,
        "Stop"@,
    ) {
        LogColor::Red
    } else if has_sub(line, "Waiting"@) || has_sub(line, "background"@) {
        LogColor::Yellow
    } else if has_sub(line, "Start"@) || has_sub(line, "Connected"@) {
        LogColor::Green
    } else {
        LogColor::Plain
    }
}

/// The colour a log line is shown in.
pub fn log_color(line: &str) -> (c: LogColor)
    ensures
        c == log_color_of(line@),
{
    if str_contains(line, "Error") || str_contains(line, "Failed") || str_contains(line, "exited")
        || str_contains(line, "Stop") {
        LogColor::Red
    } else if str_contains(line, "Waiting") || str_contains(line, "background") {
        LogColor::Yellow
    } else if str_contains(line, "Start") || str_contains(line, "Connected") {
        LogColor::Green
    } else {
        LogColor::Plain
    }
}

/// How many log lines the console shows.
pub const SHOWN_LOGS: usize = 6;

/// The last six log lines (all of them when there are fewer), oldest first.
pub fn visible_logs(logs: &Vec<String>) -> (out: Vec<String>)
    ensures
        views(out@) == views(logs@).skip(
            logs@.len() - (if logs@.len() < SHOWN_LOGS {
                logs@.len() as int
            } else {
                SHOWN_LOGS as int
            }),
        ),
{
    let n = logs.len();
    let start = if n < SHOWN_LOGS { 0 } else { n - SHOWN_LOGS };
    let mut out: Vec<String> = Vec::new();
    let mut i = start;
    while i < n
        invariant
            start <= i <= n,
            n == logs@.len(),
            views(out@) == views(logs@).subrange(start as int, i as int),
        decreases n - i,
    {
        push_string(&mut out, logs[i].clone());
        assert(views(out@) =~= views(logs@).subrange(start as int, i + 1));
        i = i + 1;
    }
    assert(views(logs@).subrange(start as int, n as int) =~= views(logs@).skip(start as int));
    out
}

/// A line read from the log file as the console keeps it: without the
/// trailing whitespace (its line ending).
pub fn log_entry(line: &str) -> (out: String)
    ensures
        out@ == trim_end(line@),
{
    let cs = chars_of(line);
    let t = trim_end_of(&cs);
    string_of(&t)
}

/// The process id in the tray's pid file, if its whole text is a number.
pub fn tray_pid(contents: &str) -> (pid: Option<i32>)
    ensures
        pid == parse_i32(contents@),
{
    parse_i32_str(contents)
}

/// The log line when the tray icon is not running and is started.
pub fn tray_start_line(running: bool) -> (out: Option<String>)
    ensures
        running <==> out is None,
        out matches Some(l) ==> l@ == "Starting Tray Icon in background..."@,
{
    if running {
        None
    } else {
        Some("Starting Tray Icon in background...".to_string())
    }
}

/// The row of key hints at the bottom of the console.
pub fn controls_row() -> (s: String)
    ensures
        s@ == "[S] Start  [C] Stop  [M] Mute  [W] Web  [A] ADB  [Z/X] Vol  [T] Hide  [Q] Quit"@,
{
    "[S] Start  [C] Stop  [M] Mute  [W] Web  [A] ADB  [Z/X] Vol  [T] Hide  [Q] Quit".to_string()
}

/// Whether the tray icon is running: its pid file holds a process id (`pid`)
/// and probing that process with signal 0 gave `probe` = 0. `probe` is the
/// probe's result, `None` when there was nothing to probe.
pub fn tray_running(pid: Option<i32>, probe: Option<i32>) -> (b: bool)
    ensures
        b == (pid is Some && probe == Some(0i32)),
{
    match (pid, probe) {
        (Some(_), Some(r)) => r == 0,
        _ => false,
    }
}

/// The pause while the log file does not exist yet, in milliseconds.
pub const LOG_WAIT_MS: u64 = 500;

/// The pause after reading found nothing new, or failed, in milliseconds.
pub const LOG_IDLE_MS: u64 = 100;

/// What following the log file does next.
pub enum TailStep {
    /// Sleep this many milliseconds, then decide again.
    Pause(u64),
    /// Open the file and go to its end; then read.
    Open,
    /// Read the next line.
    Read,
    /// Add this line to the log panel; then read.
    Push(String),
    /// Stop following.
    Stop,
}

/// What reading a line of the log file gave.
pub enum TailRead {
    /// Nothing new yet.
    Eof,
    /// A line, with its line ending.
    Line(String),
    /// The read was interrupted.
    Interrupted,
    /// The read failed.
    Failed,
}

/// Before the file is open: wait for it while the console runs, stop once it
/// does not, else open it.
pub fn tail_before_open(running: bool, exists: bool) -> (out: TailStep)
    ensures
        !running ==> out is Stop,
        running && !exists ==> (out matches TailStep::Pause(ms) && ms == LOG_WAIT_MS),
        running && exists ==> out is Open,
{
    if !running {
        TailStep::Stop
    } else if !exists {
        TailStep::Pause(LOG_WAIT_MS)
    } else {
        TailStep::Open
    }
}

/// After a read (made while the console runs): a line goes to the panel
/// without its trailing whitespace; an interrupted read is tried again at
/// once; nothing new, or a failure, waits a little.
pub fn tail_after_read(read: TailRead) -> (out: TailStep)
    ensures
        match read {
            TailRead::Eof => out matches TailStep::Pause(ms) && ms == LOG_IDLE_MS,
            TailRead::Line(l) => out matches TailStep::Push(e) && e@ == trim_end(l@),
            TailRead::Interrupted => out is Read,
            TailRead::Failed => out matches TailStep::Pause(ms) && ms == LOG_IDLE_MS,
        },
{
    match read {
        TailRead::Eof => TailStep::Pause(LOG_IDLE_MS),
        TailRead::Line(l) => TailStep::Push(log_entry(l.as_str())),
        TailRead::Interrupted => TailStep::Read,
        TailRead::Failed => TailStep::Pause(LOG_IDLE_MS),
    }
}

/// 'q' and 'Q' both quit: the console stops, the tray icon is stopped with
/// it, and nothing else happens.
pub proof fn lemma_quit_stops_the_tray(s: TuiView)
    ensures
        key_effect(s, 'q') == key_effect(s, 'Q'),
        key_effect(s, 'q').0 == (TuiView { running: false, ..s }),
        key_effect(s, 'q').1 == seq![TuiActionView::KillTray],
{
}

/// From any mode but ADB over USB, 'a' or 'A' chooses ADB over USB and says
/// so; from ADB over USB it chooses ADB over Wi-Fi. Nothing else changes.
pub proof fn lemma_adb_key_chooses_a_mode(s: TuiView)
    ensures
        key_effect(s, 'a') == key_effect(s, 'A'),
        s.mode != AppMode::AdbUsb ==> key_effect(s, 'a') == (
            TuiView { mode: AppMode::AdbUsb, ..s },
            seq![TuiActionView::Log("ADB USB Mode selected. Press [S] to connect."@)],
        ),
        s.mode == AppMode::AdbUsb ==> key_effect(s, 'a') == (
            TuiView { mode: AppMode::AdbWifi, ..s },
            seq![TuiActionView::Log("ADB Wi-Fi Mode selected. Press [S] to connect."@)],
        ),
{
}

/// On an active microphone, 'x' or 'X' raises the volume by ten points with
/// no cap (110 % and beyond included): the microphone is stepped up by
/// "+10%", and the console's volume and the volume saved in `config.json`
/// are both ten higher, so a restart restores exactly that level.
pub proof fn lemma_volume_up_raises_by_ten(s: TuiView)
    requires
        !s.muted,
        s.volume <= u32::MAX - 10,
    ensures
        key_effect(s, 'x') == key_effect(s, 'X'),
        ({
            let v = (s.volume + 10) as u32;
            let saved = config_text(AudioState { muted: false, volume: v }, s.art);
            &&& key_effect(s, 'x').0 == (TuiView { volume: v, ..s })
            &&& key_effect(s, 'x').1 == seq![
                TuiActionView::SetVolume("+10%"@),
                TuiActionView::SaveState(saved),
            ]
            &&& parse_config(saved) == (Some(AudioState { muted: false, volume: v }), s.art)
        }),
{
    let v = (s.volume + 10) as u32;
    lemma_config_roundtrip(AudioState { muted: false, volume: v }, s.art);
}

/// Pressing 'a' twice comes back to the mode it started from, once a USB or
/// Wi-Fi mode is chosen.
pub proof fn lemma_adb_toggle_returns(s: TuiView)
    requires
        s.mode == AppMode::AdbUsb || s.mode == AppMode::AdbWifi,
    ensures
        key_effect(key_effect(s, 'a').0, 'a').0 == s,
{
}

/// The web server is asked for at most once: once it has been started no key
/// asks for it again, and no key forgets that it was started.
pub proof fn lemma_web_server_once(s: TuiView, key: char)
    requires
        s.web_server_started,
    ensures
        key_effect(s, key).0.web_server_started,
        !key_effect(s, key).1.contains(TuiActionView::GenerateQr),
{
    let acts = key_effect(s, key).1;
    if acts.contains(TuiActionView::GenerateQr) {
        let i = choose|i: int| 0 <= i < acts.len() && acts[i] == TuiActionView::GenerateQr;
        assert(acts[i] == TuiActionView::GenerateQr);
    }
}

/// Only 'q' and 't' stop the console.
pub proof fn lemma_only_quit_keys_stop(s: TuiView, key: char)
    requires
        s.running,
        !(key == 'q' || key == 'Q' || key == 't' || key == 'T'),
    ensures
        key_effect(s, key).0.running,
{
}

/// The mute key always mutes: after it the microphone is muted, and pressing
/// it again changes nothing more.
pub proof fn lemma_mute_is_idempotent(s: TuiView)
    ensures
        key_effect(s, 'm').0.muted,
        key_effect(key_effect(s, 'm').0, 'm').0 == key_effect(s, 'm').0,
{
}

/// Whatever a key saves, reading the saved text back gives the console's new
/// mute state and volume and its custom art, so a console restored from it
/// starts where this one stopped.
pub proof fn lemma_saved_state_restores(s: TuiView, key: char)
    ensures
        ({
            let (t, acts) = key_effect(s, key);
            forall|i: int|
                0 <= i < acts.len() ==> (#[trigger] acts[i] matches TuiActionView::SaveState(text)
                    ==> parse_config(text) == (
                    Some(AudioState { muted: t.muted, volume: t.volume }),
                    t.art,
                ))
        }),
{
    let t = key_effect(s, key).0;
    lemma_config_roundtrip(AudioState { muted: t.muted, volume: t.volume }, t.art);
}

} // verus!
