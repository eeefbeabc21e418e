use audiosource::console::{tail_after_read, tail_before_open, TailRead, TailStep};
use audiosource::console::tray_running;
use audiosource::console::{
    log_color, log_entry, tray_pid, tray_start_line, version_capsule, visible_logs, AppMode,
    LogColor, StatusColor, Tui, TuiAction,
};
use audiosource::settings::{parse_config_text, AudioState};

fn describe(actions: &[TuiAction]) -> Vec<String> {
    actions
        .iter()
        .map(|a| match a {
            TuiAction::Log(s) => format!("log {}", s),
            TuiAction::SetVolume(s) => format!("volume {}", s),
            TuiAction::KillTray => "kill tray".to_string(),
            TuiAction::GenerateQr => "qr".to_string(),
            TuiAction::StartWebServer => "web server".to_string(),
            TuiAction::SaveState(s) => format!("save {}", s),
        })
        .collect()
}

#[test]
fn starts_idle() {
    let t = Tui::new();
    assert!(t.running);
    assert_eq!(t.mode, AppMode::Idle);
    assert_eq!(t.title(), " AudioSource TUI ");
    assert_eq!(t.status(), (" Status: Idle ".to_string(), StatusColor::Cyan));
}

#[test]
fn quit_and_hide() {
    let mut t = Tui::new();
    assert_eq!(describe(&t.handle_key('Q')), vec!["kill tray"]);
    assert!(!t.running);
    let mut t = Tui::new();
    assert!(t.handle_key('t').is_empty());
    assert!(!t.running);
}

#[test]
fn volume_keys() {
    let mut t = Tui::new();
    assert_eq!(
        describe(&t.handle_key('z')),
        vec!["volume -10%", "save {\"muted\": false, \"volume\": 90}"]
    );
    assert_eq!(
        describe(&t.handle_key('X')),
        vec!["volume +10%", "save {\"muted\": false, \"volume\": 100}"]
    );
    assert!(t.handle_key('?').is_empty());
    assert!(t.handle_key('+').is_empty());
    assert!(t.handle_key('-').is_empty());
}

#[test]
fn mute_is_saved_and_volume_keys_still_step() {
    let mut t = Tui::new();
    assert_eq!(t.mic_capsule(), (" MICROPHONE ACTIVE ".to_string(), StatusColor::Green));
    assert_eq!(
        describe(&t.handle_key('m')),
        vec!["volume 0%", "log Microphone muted.", "save {\"muted\": true, \"volume\": 100}"]
    );
    assert!(t.muted);
    assert_eq!(t.mic_capsule(), (" MICROPHONE MUTED ".to_string(), StatusColor::Red));
    // the mute key mutes again, it does not toggle
    assert_eq!(
        describe(&t.handle_key('M')),
        vec!["volume 0%", "log Microphone muted.", "save {\"muted\": true, \"volume\": 100}"]
    );
    assert!(t.muted);
    // a step down keeps a muted microphone at 0 %, still muted
    assert_eq!(
        describe(&t.handle_key('z')),
        vec!["volume -10%", "save {\"muted\": true, \"volume\": 100}"]
    );
    assert!(t.muted);
    // a step up brings it to 10 % and active
    assert_eq!(
        describe(&t.handle_key('x')),
        vec!["volume +10%", "save {\"muted\": false, \"volume\": 10}"]
    );
    assert!(!t.muted);
    assert_eq!(t.volume, 10);
}

#[test]
fn qr_keeps_the_audio_state() {
    let mut t = Tui::new();
    t.handle_key('m');
    t.on_qr(Ok(("q".to_string(), "u".to_string())));
    assert!(t.muted);
    assert_eq!(t.volume, 100);
    t.on_qr(Err("e".to_string()));
    assert!(t.muted);
    assert_eq!(t.volume, 100);
}

#[test]
fn volume_stays_at_or_above_zero() {
    let mut t = Tui::new();
    for _ in 0..12 {
        t.handle_key('z');
    }
    assert_eq!(t.volume, 0);
}

#[test]
fn restored_state() {
    let (t, acts) = Tui::restored(None, None);
    assert!(!t.muted);
    assert_eq!(t.volume, 100);
    assert!(acts.is_empty());
    let (t, acts) = Tui::restored(Some(AudioState { muted: false, volume: 70 }), None);
    assert_eq!(t.volume, 70);
    assert_eq!(describe(&acts), vec!["volume 70%"]);
    let (t, acts) = Tui::restored(Some(AudioState { muted: true, volume: 70 }), None);
    assert!(t.muted);
    assert_eq!(describe(&acts), vec!["volume 0%"]);
    assert_eq!(version_capsule(), " v1.1.0 ");
}

#[test]
fn saving_keeps_the_custom_art() {
    let (mut t, _) = Tui::restored(
        Some(AudioState { muted: false, volume: 50 }),
        Some("a\"b\nc".to_string()),
    );
    let acts = t.handle_key('z');
    let saved = match &acts[1] {
        TuiAction::SaveState(s) => s.clone(),
        _ => panic!("expected a save"),
    };
    assert_eq!(
        saved,
        "{\"muted\": false, \"volume\": 40, \"ascii_art\": \"a\\\"b\\nc\"}"
    );
    assert_eq!(
        parse_config_text(&saved),
        (Some(AudioState { muted: false, volume: 40 }), Some("a\"b\nc".to_string()))
    );
}

#[test]
fn adb_modes_toggle() {
    let mut t = Tui::new();
    assert_eq!(
        describe(&t.handle_key('a')),
        vec!["log ADB USB Mode selected. Press [S] to connect."]
    );
    assert_eq!(t.mode, AppMode::AdbUsb);
    assert_eq!(
        describe(&t.handle_key('A')),
        vec!["log ADB Wi-Fi Mode selected. Press [S] to connect."]
    );
    assert_eq!(t.mode, AppMode::AdbWifi);
    assert_eq!(t.title(), " AudioSource TUI (ADB: Wi-Fi) ");
    t.handle_key('a');
    assert_eq!(t.mode, AppMode::AdbUsb);
    assert_eq!(t.status(), (" Status: Waiting ".to_string(), StatusColor::Yellow));
    assert_eq!(
        describe(&t.handle_key('s')),
        vec!["log ADB connection starting... (Not implemented yet)"]
    );
    assert!(t.streaming);
    assert_eq!(t.status(), (" Status: Streaming ".to_string(), StatusColor::Green));
    assert_eq!(describe(&t.handle_key('c')), vec!["log Stopped streaming."]);
    assert!(!t.streaming);
}

#[test]
fn web_server_starts_once() {
    let mut t = Tui::new();
    assert_eq!(
        describe(&t.handle_key('w')),
        vec!["log Web Mode selected. Press [S] to start server."]
    );
    assert!(!t.streaming);
    assert_eq!(describe(&t.handle_key('s')), vec!["log Starting Web Server...", "qr"]);
    assert!(t.web_server_started);
    let after = t.on_qr(Ok(("ab\ncd".to_string(), "https://10.0.0.2:8443".to_string())));
    assert_eq!(
        describe(&after),
        vec!["log Web Server running at https://10.0.0.2:8443", "web server"]
    );
    assert_eq!(t.qr_lines, vec!["ab", "cd"]);
    assert!(t.shows_qr());
    t.handle_key('c');
    assert!(!t.shows_qr());
    assert!(t.handle_key('s').is_empty());
    t.handle_key('a');
    t.handle_key('w');
    assert!(t.streaming);
}

#[test]
fn qr_failure_is_logged() {
    let mut t = Tui::new();
    let after = t.on_qr(Err("data too long".to_string()));
    assert_eq!(describe(&after), vec!["log Failed to generate QR: data too long"]);
    assert!(t.qr_lines.is_empty());
}

#[test]
fn log_colours() {
    assert_eq!(log_color("Socat Error here"), LogColor::Red);
    assert_eq!(log_color("Stopped streaming."), LogColor::Red);
    assert_eq!(log_color("App running in background..."), LogColor::Yellow);
    assert_eq!(log_color("Starting Web Server..."), LogColor::Green);
    assert_eq!(log_color("TUI Connected to Daemon."), LogColor::Green);
    assert_eq!(log_color("Microphone muted."), LogColor::Plain);
}

#[test]
fn last_six_logs() {
    let logs: Vec<String> = (0..9).map(|i| format!("line {}", i)).collect();
    assert_eq!(visible_logs(&logs), logs[3..].to_vec());
    let few: Vec<String> = vec!["a".to_string(), "b".to_string()];
    assert_eq!(visible_logs(&few), few);
}

#[test]
fn log_lines_lose_their_ending() {
    assert_eq!(log_entry("Stopped streaming.\n"), "Stopped streaming.");
    assert_eq!(log_entry("x \r\n"), "x");
}

#[test]
fn tray_pid_file() {
    assert_eq!(tray_pid("4242"), Some(4242));
    assert_eq!(tray_pid("4242\n"), None);
    assert_eq!(tray_pid("abc"), None);
    assert_eq!(tray_start_line(true), None);
    assert_eq!(
        tray_start_line(false),
        Some("Starting Tray Icon in background...".to_string())
    );
}

#[test]
fn controls_row_text() {
    assert_eq!(
        audiosource::console::controls_row(),
        "[S] Start  [C] Stop  [M] Mute  [W] Web  [A] ADB  [Z/X] Vol  [T] Hide  [Q] Quit"
    );
}

#[test]
fn tray_running_needs_a_live_pid() {
    assert!(tray_running(Some(42), Some(0)));
    assert!(!tray_running(Some(42), Some(-1)));
    assert!(!tray_running(None, None));
}

#[test]
fn following_the_log_file() {
    assert!(matches!(tail_before_open(false, true), TailStep::Stop));
    assert!(matches!(tail_before_open(true, false), TailStep::Pause(500)));
    assert!(matches!(tail_before_open(true, true), TailStep::Open));
    assert!(matches!(tail_after_read(TailRead::Eof), TailStep::Pause(100)));
    assert!(matches!(tail_after_read(TailRead::Failed), TailStep::Pause(100)));
    assert!(matches!(tail_after_read(TailRead::Interrupted), TailStep::Read));
    assert!(matches!(
        tail_after_read(TailRead::Line("Stopped streaming.\n".to_string())),
        TailStep::Push(ref l) if l == "Stopped streaming."
    ));
}
