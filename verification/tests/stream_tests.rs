use audiosource::stream::{is_silence, Line, Socat, SocatAction, SocatStep};

fn texts(step: &SocatStep) -> Vec<String> {
    step.lines
        .iter()
        .map(|l| match l {
            Line::Out(s) => format!("out {}", s),
            Line::Warn(s) => format!("err {}", s),
        })
        .collect()
}

fn start() -> (Socat, SocatStep) {
    Socat::new("android-abc1234", "android-abc1234")
}

#[test]
fn first_attempt() {
    let (s, step) = start();
    assert_eq!(s.attempt, 0);
    assert_eq!(s.backoff_us, 500000);
    assert_eq!(texts(&step), vec!["out [SOCAT] Attempt 1/5 connecting to android-abc1234"]);
    assert!(matches!(step.next, SocatAction::Connect));
}

#[test]
fn five_failed_attempts_with_growing_pauses() {
    let (mut s, _) = start();
    let mut pauses = Vec::new();
    let mut banners = Vec::new();
    loop {
        let step = s.on_connect(Some("refused"));
        assert_eq!(
            texts(&step),
            vec![format!(
                "err Error connecting to socket (attempt {}/5): refused",
                s.attempt + 1
            )]
        );
        match step.next {
            SocatAction::Sleep(us) => {
                pauses.push(us);
                let next = s.on_slept();
                banners.extend(texts(&next));
                assert!(matches!(next.next, SocatAction::Connect));
            }
            SocatAction::Finish(Ok(())) => break,
            _ => panic!("unexpected action"),
        }
    }
    assert_eq!(pauses, vec![500000, 750000, 1125000, 1687500]);
    assert_eq!(banners.len(), 4);
    assert_eq!(banners[3], "out [SOCAT] Attempt 5/5 connecting to android-abc1234");
    assert_eq!(s.attempt, 4);
}

#[test]
fn connection_starts_pacat() {
    let (mut s, _) = start();
    let step = s.on_connect(None);
    match step.next {
        SocatAction::SpawnPacat(args) => assert_eq!(
            args,
            vec![
                "--playback",
                "--device",
                "android-abc1234_sink",
                "--format=s16le",
                "--channels=1",
                "--rate=44100",
                "--latency-msec=300"
            ]
        ),
        _ => panic!("expected pacat"),
    }
    assert!(matches!(s.on_pacat(true).next, SocatAction::Poll));
    match s.on_pacat(false).next {
        SocatAction::Finish(Err(e)) => assert_eq!(e.message(), "Error starting pacat"),
        _ => panic!("expected an error"),
    }
}

#[test]
fn sink_checks_every_five_seconds() {
    let (s, _) = start();
    assert!(matches!(s.loop_top(5).next, SocatAction::Read { len: 8192, reset_clock: false }));
    match s.loop_top(6).next {
        SocatAction::CheckSink(args) => assert_eq!(args, vec!["list", "modules", "short"]),
        _ => panic!("expected a sink check"),
    }
    let present = "17\tmodule-null-sink\tsink_name=android-abc1234_sink\n";
    assert!(matches!(
        s.on_sink_listing(Some(present)).next,
        SocatAction::Read { len: 8192, reset_clock: true }
    ));
    assert!(matches!(
        s.on_sink_listing(None).next,
        SocatAction::Read { len: 8192, reset_clock: true }
    ));
    let gone = s.on_sink_listing(Some("1\tmodule-x\n"));
    assert_eq!(texts(&gone), vec!["out [PIPEWIRE] Sink disappeared, triggering restart"]);
    assert!(matches!(gone.next, SocatAction::StopPacat));
}

#[test]
fn data_flow_and_buffer_growth() {
    let (mut s, _) = start();
    s.on_connect(None);
    let chunk = vec![1u8; 8192];
    let step = s.on_data(&chunk);
    assert_eq!(texts(&step), vec!["out [SOCAT] Streaming started (Wi-Fi Optimized)"]);
    assert!(matches!(step.next, SocatAction::Write(ref b) if *b == chunk));
    assert_eq!(s.buf_len, 16384);
    let full: Vec<u8> = (0..16384u32).map(|i| (i % 251) as u8).collect();
    let step = s.on_data(&full);
    assert!(texts(&step).is_empty());
    assert!(matches!(step.next, SocatAction::Write(ref b) if *b == full));
    assert_eq!(s.buf_len, 16384);
    assert!(matches!(s.on_write(None).next, SocatAction::Poll));
    let failed = s.on_write(Some("Broken pipe"));
    assert_eq!(texts(&failed), vec!["err Write error to pacat: Broken pipe"]);
    assert!(matches!(failed.next, SocatAction::StopPacat));
}

#[test]
fn silence_warnings_every_hundred_chunks() {
    let (mut s, _) = start();
    s.on_connect(None);
    s.on_data(&[5, 5]);
    let mut warnings = 0;
    for _ in 0..201 {
        let step = s.on_data(&[0, 0, 0, 0]);
        warnings += texts(&step).len();
    }
    assert_eq!(warnings, 3);
    assert_eq!(s.silence_warnings, 201);
    let back = s.on_data(&[0, 9]);
    assert_eq!(texts(&back), vec!["out Audio signal detected!"]);
    assert_eq!(s.silence_warnings, 0);
    assert!(texts(&s.on_data(&[3])).is_empty());
}

#[test]
fn immediate_close_retries() {
    let (mut s, _) = start();
    s.on_connect(None);
    let closed = s.on_closed(300);
    assert_eq!(
        texts(&closed),
        vec!["out [SOCAT] Immediate disconnect, Android socket not ready, retrying..."]
    );
    assert!(matches!(s.on_pacat_stopped().next, SocatAction::Sleep(500000)));
    let next = s.on_slept();
    assert_eq!(texts(&next), vec!["out [SOCAT] Attempt 2/5 connecting to android-abc1234"]);
    assert_eq!(s.backoff_us, 750000);
}

#[test]
fn late_close_ends() {
    let (mut s, _) = start();
    s.on_connect(None);
    assert!(texts(&s.on_closed(1000)).is_empty());
    assert!(matches!(s.on_pacat_stopped().next, SocatAction::Finish(Ok(()))));
}

#[test]
fn read_errors_and_timeouts() {
    let (s, _) = start();
    assert!(matches!(s.on_timeout().next, SocatAction::Poll));
    let e = s.on_read_error("reset");
    assert_eq!(texts(&e), vec!["err Socket error: reset"]);
}

#[test]
fn silence_detection() {
    assert!(is_silence(&[]));
    assert!(is_silence(&[0, 0, 0]));
    assert!(!is_silence(&[0, 1, 0]));
}
