use audiosource::adb::{
    appops_args, check_permissions, dumpsys_args, get_state_args, grant_args, model_args,
    devices_args, first_device, permissions_start_line, poll_args, start_forwarding, wait_check,
    wait_poll,
    wait_start_line, Step,
};

fn describe(steps: &[Step]) -> Vec<String> {
    steps
        .iter()
        .map(|s| match s {
            Step::Say(t) => format!("say {}", t),
            Step::Complain(t) => format!("complain {}", t),
            Step::Adb(a) => format!("adb {}", a.join(" ")),
            Step::AdbOrFail { args, context } => format!("adb! {} ({})", args.join(" "), context),
            Step::Pause(ms) => format!("pause {}", ms),
        })
        .collect()
}

#[test]
fn command_lines() {
    assert_eq!(get_state_args(), vec!["get-state"]);
    assert_eq!(dumpsys_args(), vec!["exec-out", "dumpsys", "package", "fr.dzx.audiosource"]);
    assert_eq!(
        grant_args("android.permission.RECORD_AUDIO"),
        vec!["exec-out", "pm", "grant", "fr.dzx.audiosource", "android.permission.RECORD_AUDIO"]
    );
    assert_eq!(
        appops_args(),
        vec!["shell", "appops", "set", "fr.dzx.audiosource", "RECORD_AUDIO", "allow"]
    );
    assert_eq!(model_args(), vec!["shell", "getprop", "ro.product.model"]);
}

#[test]
fn first_ready_device_is_chosen() {
    let listing = "List of devices attached\nemulator-5554\toffline\nR58M123\tdevice\nZX1\tdevice\n\n";
    assert_eq!(first_device(listing), Some("R58M123".to_string()));
    assert_eq!(first_device("List of devices attached\n\n"), None);
    assert_eq!(first_device("List of devices attached\nabc\tunauthorized\n"), None);
    assert_eq!(first_device(""), None);
}

#[test]
fn poll_commands() {
    assert_eq!(poll_args(Some("R58M")), vec!["get-state"]);
    assert_eq!(poll_args(None), vec!["devices"]);
    assert_eq!(devices_args(), vec!["devices"]);
}

#[test]
fn waiting_for_the_phone() {
    assert_eq!(wait_start_line(), "[+] Waiting for device");
    assert_eq!(wait_poll(0), Ok("[ADB] Waiting... 0s / 30s".to_string()));
    assert_eq!(wait_poll(29), Ok("[ADB] Waiting... 29s / 30s".to_string()));
    assert_eq!(
        wait_poll(30),
        Err("[ADB] Timeout reached, no device found after 30s".to_string())
    );
    let serial_env = vec![("ANDROID_SERIAL".to_string(), "R58M".to_string())];
    assert_eq!(
        wait_check(Some("R58M"), Some("device\n")),
        Some(("[ADB] Device connected: R58M".to_string(), serial_env.clone()))
    );
    assert_eq!(wait_check(Some("R58M"), Some("unknown\n")), None);
    assert_eq!(wait_check(Some("R58M"), None), None);
    let listing = "List of devices attached\nR58M\tdevice\nother\tdevice\n";
    assert_eq!(
        wait_check(None, Some(listing)),
        Some(("[ADB] Device connected: R58M".to_string(), serial_env))
    );
    assert_eq!(wait_check(None, Some("List of devices attached\n\n")), None);
    assert_eq!(wait_check(None, None), None);
}

#[test]
fn permissions_without_dump_fail() {
    assert_eq!(permissions_start_line(), "[+] Checking permissions");
    let (steps, ok) = check_permissions(None);
    assert!(!ok);
    assert_eq!(describe(&steps), vec!["complain Error: Failed to get package dumpsys via adb."]);
}

#[test]
fn permissions_already_granted() {
    let dump = "  android.permission.POST_NOTIFICATIONS: granted=true\n  android.permission.RECORD_AUDIO: granted=true\n";
    let (steps, ok) = check_permissions(Some(dump));
    assert!(ok);
    assert_eq!(
        describe(&steps),
        vec![
            "say android.permission.POST_NOTIFICATIONS: granted=true",
            "adb shell appops set fr.dzx.audiosource RECORD_AUDIO allow",
            "say android.permission.RECORD_AUDIO: granted=true",
        ]
    );
}

#[test]
fn permissions_missing_are_granted() {
    let dump = "android.permission.RECORD_AUDIO: granted=false\n";
    let (steps, ok) = check_permissions(Some(dump));
    assert!(ok);
    assert_eq!(
        describe(&steps),
        vec![
            "adb exec-out pm grant fr.dzx.audiosource android.permission.POST_NOTIFICATIONS",
            "say android.permission.POST_NOTIFICATIONS: granted=true",
            "adb exec-out pm grant fr.dzx.audiosource android.permission.RECORD_AUDIO",
            "adb shell appops set fr.dzx.audiosource RECORD_AUDIO allow",
            "say android.permission.RECORD_AUDIO: granted=true",
        ]
    );
}

#[test]
fn forwarding_steps() {
    assert_eq!(
        describe(&start_forwarding("android-abc1234")),
        vec![
            "say [+] Starting Audio Source",
            "adb shell am force-stop fr.dzx.audiosource",
            "adb! shell am start fr.dzx.audiosource/.MainActivity (Failed to start MainActivity)",
            "pause 2000",
            "adb! forward localabstract:android-abc1234 localabstract:audiosource (Failed to forward adb port)",
            "say [+] Forwarding audio to android-abc1234",
            "say [!] ACTION REQUIRED: Tap the microphone icon on your Android device to start recording.",
            "pause 1000",
        ]
    );
}

#[test]
fn wait_pauses_a_second_between_polls() {
    assert_eq!(audiosource::adb::POLL_PAUSE_MS, 1000);
    assert_eq!(audiosource::adb::WAIT_LIMIT_SECS, 30);
}
