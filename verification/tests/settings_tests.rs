use audiosource::settings::{
    config_to_text, parse_config_text, parse_state_text, state_to_text, AudioState,
};

#[test]
fn saved_text() {
    assert_eq!(
        state_to_text(AudioState { muted: true, volume: 80 }),
        "{\"muted\": true, \"volume\": 80}"
    );
    assert_eq!(
        state_to_text(AudioState { muted: false, volume: 0 }),
        "{\"muted\": false, \"volume\": 0}"
    );
}

#[test]
fn reading_back() {
    for st in [
        AudioState { muted: true, volume: 80 },
        AudioState { muted: false, volume: 250 },
        AudioState { muted: false, volume: u32::MAX },
    ] {
        assert_eq!(parse_state_text(&state_to_text(st)), Some(st));
    }
    assert_eq!(
        parse_state_text("  {\"muted\": false, \"volume\": 7}\n"),
        Some(AudioState { muted: false, volume: 7 })
    );
}

#[test]
fn unreadable_texts() {
    for s in [
        "",
        "{}",
        "{\"muted\": maybe, \"volume\": 7}",
        "{\"muted\": true, \"volume\": }",
        "{\"muted\": true, \"volume\": 4294967296}",
        "{\"muted\": true, \"volume\": 7",
        "{\"muted\": true,\"volume\": 7}",
        "{\"muted\": true, \"volume\": -7}",
    ] {
        assert_eq!(parse_state_text(s), None, "input {:?}", s);
    }
}

#[test]
fn config_with_art_reads_back() {
    let st = AudioState { muted: true, volume: 30 };
    let art = " /\\_/\\ \n( o.o )  \n \"x\"".to_string();
    let text = config_to_text(st, &Some(art.clone()));
    assert!(text.starts_with("{\"muted\": true, \"volume\": 30, \"ascii_art\": \""));
    assert_eq!(parse_config_text(&text), (Some(st), Some(art)));
    assert_eq!(config_to_text(st, &None), state_to_text(st));
    assert_eq!(parse_config_text(&state_to_text(st)), (Some(st), None));
}

#[test]
fn config_art_written_by_hand() {
    let text = "{\"muted\": false, \"volume\": 80, \"ascii_art\": \"AB\\nCD\"}\n";
    assert_eq!(
        parse_config_text(text),
        (Some(AudioState { muted: false, volume: 80 }), Some("AB\nCD".to_string()))
    );
    // an unknown escape leaves the art unreadable, the state still reads
    let bad = "{\"muted\": false, \"volume\": 80, \"ascii_art\": \"A\\tB\"}";
    assert_eq!(
        parse_config_text(bad),
        (Some(AudioState { muted: false, volume: 80 }), None)
    );
    assert_eq!(parse_config_text("not json"), (None, None));
}
