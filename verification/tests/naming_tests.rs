use audiosource::naming::{get_adb_env, get_audiosource_name, name_from_digest};

#[test]
fn name_without_serial_hashes_the_empty_string() {
    assert_eq!(get_audiosource_name(None, None), "android-e3b0c44");
}

#[test]
fn name_from_serial_uses_first_seven_hex_digits() {
    assert_eq!(get_audiosource_name(Some("abc"), None), "android-ba7816b");
    assert_eq!(get_audiosource_name(Some("emulator-5554"), None), "android-04ab3fc");
    assert_eq!(get_audiosource_name(Some("R58M12345"), None), "android-f99460c");
}

#[test]
fn name_override_wins() {
    assert_eq!(
        get_audiosource_name(Some("abc"), Some("my_mic".to_string())),
        "my_mic"
    );
    assert_eq!(get_audiosource_name(None, Some(String::new())), "");
}

#[test]
fn name_is_deterministic_and_shaped() {
    let a = get_audiosource_name(Some("device-1"), None);
    let b = get_audiosource_name(Some("device-1"), None);
    assert_eq!(a, b);
    assert_eq!(a.len(), 15);
    assert!(a.starts_with("android-"));
    assert!(a[8..].chars().all(|c| c.is_ascii_hexdigit() && !c.is_ascii_uppercase()));
}

#[test]
fn name_from_digest_takes_seven_digits() {
    assert_eq!(name_from_digest(&[0xab, 0xcd, 0xef, 0x12, 0x34]), "android-abcdef1");
    assert_eq!(name_from_digest(&[0x00, 0x01, 0x0f, 0xf0]), "android-00010ff");
}

#[test]
fn adb_env_with_serial() {
    let envs = get_adb_env(Some("R58M12345"));
    assert_eq!(envs, vec![("ANDROID_SERIAL".to_string(), "R58M12345".to_string())]);
}

#[test]
fn adb_env_without_serial() {
    assert!(get_adb_env(None).is_empty());
}
