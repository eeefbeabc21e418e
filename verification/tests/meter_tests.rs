use audiosource::meter::{poll_step, PollStep, peak, volume_bar, BarColor, Meter, VolumeBar, VolumeDisplay};

fn bar(level: u32, width: u16) -> VolumeBar {
    match volume_bar(level, width) {
        Some(VolumeDisplay::Bar(b)) => b,
        _ => panic!("expected a bar"),
    }
}

fn samples(values: &[i16]) -> Vec<u8> {
    values.iter().flat_map(|v| v.to_le_bytes()).collect()
}

#[test]
fn peak_of_samples() {
    assert_eq!(peak(&[]), 0);
    assert_eq!(peak(&samples(&[10, -300, 250])), 300);
    assert_eq!(peak(&samples(&[32767, -32767])), 32767);
    // a trailing odd byte is ignored
    let mut odd = samples(&[5]);
    odd.push(0xff);
    assert_eq!(peak(&odd), 5);
}

#[test]
fn most_negative_sample_counts_as_full_scale() {
    assert_eq!(peak(&samples(&[i16::MIN, 12])), 32768);
}

#[test]
fn silence_is_announced_after_three_seconds() {
    let mut m = Meter::new();
    let loud = samples(&[5000]);
    let quiet = samples(&[100]);
    let u = m.on_chunk(&loud, 0);
    assert_eq!(u.level, 5000);
    assert_eq!(u.log.as_deref(), Some("[TUI] Audio signal restored"));
    assert!(u.restart_clock);
    let u = m.on_chunk(&quiet, 2);
    assert_eq!(u.level, 0);
    assert_eq!(u.log, None);
    assert!(!m.is_silent);
    let u = m.on_chunk(&quiet, 4);
    assert_eq!(u.log.as_deref(), Some("[TUI] Silence detected"));
    assert!(m.is_silent);
    let u = m.on_chunk(&quiet, 9);
    assert_eq!(u.log, None);
}

#[test]
fn silence_threshold_is_one_hundredth() {
    let mut m = Meter::new();
    assert_eq!(m.on_chunk(&samples(&[199]), 0).level, 0);
    assert_eq!(m.on_chunk(&samples(&[200]), 0).level, 200);
    assert_eq!(m.on_chunk(&samples(&[30000]), 0).level, 20000);
}

#[test]
fn volume_bar_drawing() {
    assert!(volume_bar(10000, 10).is_none());
    let bar = self::bar(10000, 20);
    assert_eq!(bar.bar, "Vol: ║█████░░░░░");
    assert_eq!(bar.percent, " 50%");
    assert_eq!(bar.color, BarColor::Green);
    let bar = self::bar(20000, 14);
    assert_eq!(bar.bar, "Vol: ║████");
    assert_eq!(bar.percent, " 100%");
    assert_eq!(bar.color, BarColor::Red);
    assert_eq!(self::bar(10001, 30).color, BarColor::Yellow);
    assert_eq!(self::bar(16000, 30).color, BarColor::Yellow);
    assert_eq!(self::bar(1, 11).bar, "Vol: ║░");
}

#[test]
fn waiting_for_connection_at_level_zero() {
    for width in [0u16, 10, 40] {
        match volume_bar(0, width) {
            Some(VolumeDisplay::Waiting(t)) => assert_eq!(t, "[Waiting for connection...]"),
            _ => panic!("expected the waiting text"),
        }
    }
}

#[test]
fn polling_the_source() {
    assert_eq!(poll_step(Some("1\taudiosource_web\n"), "audiosource_web"), PollStep::Record);
    assert_eq!(poll_step(Some("1\tother\n"), "audiosource_web"), PollStep::Idle(1000));
    assert_eq!(poll_step(None, "audiosource_web"), PollStep::Record);
}

#[test]
fn recording_over_drops_the_level_and_waits() {
    assert_eq!(audiosource::meter::after_recording(), audiosource::meter::PollStep::Idle(1000));
    let mut m = Meter::new();
    let u = m.on_chunk(&samples(&[i16::MIN]), 0);
    assert_eq!(u.level, 20000);
}
