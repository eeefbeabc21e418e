use audiosource::tray::{console_exe, launch_step, LaunchStep, DEVICE_REFRESH_SECS};
use audiosource::tray::{terminal_args, terminals, AudioSourceTray, MenuAction, MenuEntry, TrayEffect};

fn labels(t: &AudioSourceTray) -> Vec<String> {
    t.menu()
        .into_iter()
        .map(|e| match e {
            MenuEntry::Label(s) => format!("[{}]", s),
            MenuEntry::Separator => "---".to_string(),
            MenuEntry::Item { label, .. } => label,
        })
        .collect()
}

#[test]
fn identity() {
    let t = AudioSourceTray::new();
    assert_eq!(t.id(), "audiosource");
    assert_eq!(t.icon_name(), "audio-input-microphone");
    assert_eq!(t.title(), "AudioSource");
    assert!(!t.muted);
    assert_eq!(t.device_name, "No device connected");
}

#[test]
fn menu_layout() {
    let t = AudioSourceTray::new();
    assert_eq!(
        labels(&t),
        vec![
            "[No device connected]",
            "---",
            "Open Console (TUI)",
            "---",
            "Restart App",
            "Stop Audio",
            "Mute Mic",
            "---",
            "Quit"
        ]
    );
}

#[test]
fn mute_toggles() {
    let mut t = AudioSourceTray::new();
    match t.activate(MenuAction::ToggleMute).as_slice() {
        [TrayEffect::SetVolume(v)] => assert_eq!(v, "0%"),
        _ => panic!("expected a volume change"),
    }
    assert!(t.muted);
    assert_eq!(labels(&t)[6], "Unmute Mic");
    assert_eq!(t.toggle_mute(), "100%");
    assert!(!t.muted);
}

#[test]
fn other_items() {
    let mut t = AudioSourceTray::new();
    match t.activate(MenuAction::OpenConsole).as_slice() {
        [TrayEffect::Say(s), TrayEffect::OpenConsole] => assert_eq!(s, "Opening TUI..."),
        _ => panic!("expected the console"),
    }
    assert!(matches!(t.activate(MenuAction::Quit).as_slice(), [TrayEffect::Exit]));
    match t.activate(MenuAction::StopAudio).as_slice() {
        [TrayEffect::Say(s)] => assert_eq!(s, "Stopping audio..."),
        _ => panic!("expected a line"),
    }
    match t.activate(MenuAction::RestartApp).as_slice() {
        [TrayEffect::Say(s)] => assert_eq!(s, "Restarting app..."),
        _ => panic!("expected a line"),
    }
    assert!(!t.muted);
}

#[test]
fn device_name_updates() {
    let mut t = AudioSourceTray::new();
    t.update_device_name("  \n");
    assert_eq!(t.device_name, "No device connected");
    t.update_device_name("Pixel 7\n");
    assert_eq!(t.device_name, "Pixel 7");
}

#[test]
fn terminal_candidates() {
    let ts = terminals();
    assert_eq!(ts.len(), 8);
    assert_eq!(ts[0], ("foot".to_string(), "-e".to_string()));
    assert_eq!(ts[2], ("kitty".to_string(), "--".to_string()));
    assert_eq!(ts[7], ("alacritty".to_string(), "-e".to_string()));
    assert_eq!(terminal_args("-e", "/usr/bin/audiosource"), vec!["-e", "/usr/bin/audiosource", "tui"]);
}

#[test]
fn console_terminal_is_the_first_that_starts() {
    assert_eq!(console_exe(None), "audiosource");
    assert_eq!(console_exe(Some("/bin/a".to_string())), "/bin/a");
    match launch_step("/bin/a", 0, false) {
        LaunchStep::Spawn { program, args } => {
            assert_eq!(program, "foot");
            assert_eq!(args, vec!["-e", "/bin/a", "tui"]);
        }
        _ => panic!("expected a terminal"),
    }
    match launch_step("/bin/a", 2, false) {
        LaunchStep::Spawn { program, args } => {
            assert_eq!(program, "kitty");
            assert_eq!(args, vec!["--", "/bin/a", "tui"]);
        }
        _ => panic!("expected a terminal"),
    }
    assert!(matches!(launch_step("/bin/a", 1, true), LaunchStep::Started));
    match launch_step("/bin/a", 8, false) {
        LaunchStep::GiveUp(l) => {
            assert_eq!(l, "Could not find a suitable terminal emulator to open TUI.")
        }
        _ => panic!("expected to give up"),
    }
    assert_eq!(DEVICE_REFRESH_SECS, 10);
}
