use audiosource::bridge::{Bridge, BridgeAction, BridgePhase, BridgeStep};
use audiosource::stream::Line;

fn texts(step: &BridgeStep) -> Vec<String> {
    step.lines
        .iter()
        .map(|l| match l {
            Line::Out(s) => format!("out {}", s),
            Line::Warn(s) => format!("err {}", s),
        })
        .collect()
}

fn to_first_round(restart: bool) -> Bridge {
    let (mut b, step) = Bridge::new("dev", restart);
    assert!(matches!(step.next, BridgeAction::CheckTool(ref t) if t == "adb"));
    let step = b.on_tool(true);
    assert!(matches!(step.next, BridgeAction::CheckTool(ref t) if t == "pactl"));
    let step = b.on_tool(true);
    assert!(matches!(step.next, BridgeAction::Clear(ref n) if n == "dev"));
    b
}

#[test]
fn missing_tool_is_an_error() {
    let (mut b, _) = Bridge::new("dev", false);
    match b.on_tool(false).next {
        BridgeAction::Finish(Err(e)) => assert_eq!(e.message(), "Error: adb not found"),
        _ => panic!("expected an error"),
    }
    let (mut b, _) = Bridge::new("dev", false);
    b.on_tool(true);
    match b.on_tool(false).next {
        BridgeAction::Finish(Err(e)) => assert_eq!(e.message(), "Error: pactl not found"),
        _ => panic!("expected an error"),
    }
}

#[test]
fn a_round_without_restart() {
    let mut b = to_first_round(false);
    let step = b.on_cleared();
    assert_eq!(texts(&step), vec!["out [+] Loading PulseAudio modules (Wi-Fi Stable Mode)"]);
    match step.next {
        BridgeAction::Pactl(args) => assert_eq!(args[2], "sink_name=dev_sink"),
        _ => panic!("expected the null sink"),
    }
    match b.on_pactl(true).next {
        BridgeAction::Pactl(args) => assert_eq!(args[1], "module-virtual-source"),
        _ => panic!("expected the virtual source"),
    }
    assert!(matches!(b.on_pactl(true).next, BridgeAction::WaitForDevice));
    assert!(matches!(b.on_device(true).next, BridgeAction::CheckPermissions));
    assert!(matches!(b.on_permissions(true).next, BridgeAction::StartForwarding(ref n) if n == "dev"));
    assert!(matches!(b.on_forwarding(None).next, BridgeAction::Relay(ref n) if n == "dev"));
    let end = b.on_relay(Some("boom"));
    assert_eq!(texts(&end), vec!["err Socat error: boom"]);
    assert!(matches!(end.next, BridgeAction::Clear(ref n) if n == "dev"));
    assert!(b.phase == BridgePhase::FinalClearing);
    assert!(matches!(b.on_cleared().next, BridgeAction::Finish(Ok(()))));
    assert!(b.phase == BridgePhase::Done);
}

#[test]
fn restarting_rounds() {
    let mut b = to_first_round(true);
    b.on_cleared();
    b.on_pactl(true);
    b.on_pactl(true);
    b.on_device(true);
    b.on_permissions(true);
    let step = b.on_forwarding(Some("Failed to start MainActivity"));
    assert_eq!(
        texts(&step),
        vec![
            "err Failed to start forwarding: Failed to start MainActivity",
            "out Restarting in 1 second..."
        ]
    );
    assert!(matches!(step.next, BridgeAction::Pause(1000)));
    assert!(matches!(b.on_paused().next, BridgeAction::Clear(ref n) if n == "dev"));
    assert!(b.phase == BridgePhase::Clearing);
}

#[test]
fn no_phone_ends_the_rounds() {
    let mut b = to_first_round(true);
    b.on_cleared();
    b.on_pactl(true);
    b.on_pactl(true);
    assert!(matches!(b.on_device(false).next, BridgeAction::Clear(ref n) if n == "dev"));
    assert!(b.phase == BridgePhase::FinalClearing);
}

#[test]
fn failed_loads_are_errors() {
    let mut b = to_first_round(false);
    b.on_cleared();
    match b.on_pactl(false).next {
        BridgeAction::Finish(Err(e)) => assert_eq!(e.message(), "Failed to load null sink"),
        _ => panic!("expected an error"),
    }
    let mut b = to_first_round(false);
    b.on_cleared();
    b.on_pactl(true);
    match b.on_pactl(false).next {
        BridgeAction::Finish(Err(e)) => assert_eq!(e.message(), "Failed to load virtual source"),
        _ => panic!("expected an error"),
    }
}

#[test]
fn refused_permissions_end_the_rounds() {
    let mut b = to_first_round(true);
    b.on_cleared();
    b.on_pactl(true);
    b.on_pactl(true);
    b.on_device(true);
    assert!(matches!(b.on_permissions(false).next, BridgeAction::Clear(ref n) if n == "dev"));
}

#[test]
fn restarted_rounds_each_clear_before_loading_and_end_well() {
    let mut b = to_first_round(true);
    let mut loads = 0;
    for _ in 0..2 {
        // every round starts with a clearing, then loads the sink
        assert!(b.phase == BridgePhase::Clearing);
        assert!(matches!(b.on_cleared().next, BridgeAction::Pactl(_)));
        loads += 1;
        b.on_pactl(true);
        b.on_pactl(true);
        b.on_device(true);
        b.on_permissions(true);
        b.on_forwarding(None);
        assert!(matches!(b.on_relay(None).next, BridgeAction::Pause(1000)));
        assert!(matches!(b.on_paused().next, BridgeAction::Clear(ref n) if n == "dev"));
    }
    b.on_cleared();
    b.on_pactl(true);
    b.on_pactl(true);
    loads += 1;
    assert_eq!(loads, 3);
    // no phone: the last clearing, then the bridge ends well
    assert!(matches!(b.on_device(false).next, BridgeAction::Clear(ref n) if n == "dev"));
    assert!(b.phase == BridgePhase::FinalClearing);
    assert!(matches!(b.on_cleared().next, BridgeAction::Finish(Ok(()))));
    assert!(b.phase == BridgePhase::Done);
}
