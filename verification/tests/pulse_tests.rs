use audiosource::pulse::{
    list_modules_args, list_sources_args, modules_to_unload, null_sink_args, pacat_args,
    pacat_inline_device_args, parec_args, set_volume_args, sink_listed, source_listed,
    unload_module_args, unload_round, virtual_source_args, UnloadStep,
};

const LISTING: &str = "\
536870912\tmodule-always-sink\t\t\n\
17\tmodule-null-sink\tsink_name=android-abc1234_sink sink_properties=device.description=AudioSource_Buffer\t\n\
18\tmodule-virtual-source\tsource_name=android-abc1234 master=android-abc1234_sink.monitor\t\n\
19\tmodule-null-sink\tsink_name=other_sink\t\n\
20\tmodule-pipe-source\tsource_name=android-abc1234 file=/tmp/x\n";

#[test]
fn finds_our_modules_in_order() {
    assert_eq!(modules_to_unload(LISTING, "android-abc1234"), vec!["17", "18", "20"]);
}

#[test]
fn finds_nothing_for_another_name() {
    assert!(modules_to_unload(LISTING, "android-zzzzzzz").is_empty());
    assert!(modules_to_unload("", "android-abc1234").is_empty());
}

#[test]
fn unload_rounds() {
    match unload_round(0, Some(LISTING), "android-abc1234") {
        UnloadStep::Unload { ids, pause_ms, again } => {
            assert_eq!(ids, vec!["17", "18", "20"]);
            assert_eq!(pause_ms, 500);
            assert!(again);
        }
        UnloadStep::Stop => panic!("expected modules to unload"),
    }
    match unload_round(2, Some(LISTING), "android-abc1234") {
        UnloadStep::Unload { again, .. } => assert!(!again),
        UnloadStep::Stop => panic!("expected modules to unload"),
    }
    assert!(matches!(unload_round(0, None, "android-abc1234"), UnloadStep::Stop));
    assert!(matches!(unload_round(1, Some("1\tmodule-x\t\n"), "n"), UnloadStep::Stop));
}

#[test]
fn module_arguments() {
    assert_eq!(
        null_sink_args("dev"),
        vec![
            "load-module",
            "module-null-sink",
            "sink_name=dev_sink",
            "sink_properties=device.description=AudioSource_Buffer"
        ]
    );
    assert_eq!(
        virtual_source_args("dev"),
        vec![
            "load-module",
            "module-virtual-source",
            "source_name=dev",
            "master=dev_sink.monitor",
            "source_properties=device.description=AudioSource_Microphone device.class=sound device.icon_name=audio-input-microphone"
        ]
    );
    assert_eq!(list_modules_args(), vec!["list", "modules", "short"]);
    assert_eq!(list_sources_args(), vec!["list", "short", "sources"]);
    assert_eq!(unload_module_args("17"), vec!["unload-module", "17"]);
    assert_eq!(set_volume_args("dev", "250%"), vec!["set-source-volume", "dev", "250%"]);
}

#[test]
fn player_and_recorder_arguments() {
    assert_eq!(
        pacat_args("dev"),
        vec![
            "--playback",
            "--device",
            "dev_sink",
            "--format=s16le",
            "--channels=1",
            "--rate=44100",
            "--latency-msec=300"
        ]
    );
    assert_eq!(
        pacat_inline_device_args("audiosource_web"),
        vec![
            "--playback",
            "--device=audiosource_web_sink",
            "--format=s16le",
            "--channels=1",
            "--rate=44100",
            "--latency-msec=300"
        ]
    );
    assert_eq!(
        parec_args("audiosource_web"),
        vec!["-d", "audiosource_web", "--format=s16le", "--channels=1"]
    );
}

#[test]
fn listings_are_searched() {
    assert!(sink_listed(LISTING, "android-abc1234"));
    assert!(!sink_listed(LISTING, "android-abc"));
    assert!(source_listed("3\taudiosource_web\tmodule-virtual-source.c\n", "audiosource_web"));
    assert!(!source_listed("3\tother\n", "audiosource_web"));
}
