use desktoprecorder::cli::{parse_window_id, push_window_id, AudioMode, Container};

#[test]
fn parse_window_id_accepts_hex_with_prefix() {
    assert_eq!(parse_window_id("0x2c00003").unwrap(), 0x2c00003);
    assert_eq!(parse_window_id("0X2C00003").unwrap(), 0x2c00003);
}

#[test]
fn parse_window_id_accepts_plain_decimal() {
    // Without a prefix "20" stays decimal.
    assert_eq!(parse_window_id("20").unwrap(), 20);
    assert_eq!(parse_window_id("0").unwrap(), 0);
}

#[test]
fn parse_window_id_rejects_garbage() {
    assert!(parse_window_id("not-a-window-id").is_err());
    assert!(parse_window_id("0xzzzz").is_err());
    assert!(parse_window_id("").is_err());
}

#[test]
fn container_inferred_from_extension() {
    assert_eq!(Container::infer_from_path(b"out.mp4"), Container::Mp4);
    assert_eq!(Container::infer_from_path(b"out.m4v"), Container::Mp4);
    assert_eq!(Container::infer_from_path(b"out.mov"), Container::Mp4);
    // The letter case does not matter.
    assert_eq!(Container::infer_from_path(b"out.MP4"), Container::Mp4);
    assert_eq!(Container::infer_from_path(b"out.mkv"), Container::Mkv);
}

#[test]
fn container_defaults_to_mkv_for_unknown_or_missing_extension() {
    assert_eq!(Container::infer_from_path(b"out.avi"), Container::Mkv);
    assert_eq!(Container::infer_from_path(b"out"), Container::Mkv);
}

#[test]
fn container_mux_element_names() {
    assert_eq!(Container::Mkv.mux_element_name(), "matroskamux");
    assert_eq!(Container::Mp4.mux_element_name(), "qtmux");
}

#[test]
fn window_ids_agree_with_the_standard_parser() {
    let texts = [
        "", "0", "20", "+7", "-7", "0x", "0x0", "0xff", "0XFF", "0x+f", "x1", " 1", "1 ", "0x 1",
        "18446744073709551615", "18446744073709551616", "0xffffffffffffffff", "0x10000000000000000",
        "00000000000000000000000000000001", "+", "0x+", "\u{664}", "abc", "0b1",
    ];
    for text in texts {
        let expected = match text.strip_prefix("0x").or_else(|| text.strip_prefix("0X")) {
            Some(hex) => u64::from_str_radix(hex, 16),
            None => text.parse::<u64>(),
        };
        assert_eq!(parse_window_id(text).ok(), expected.ok(), "{text:?}");
    }
}

#[test]
fn window_id_errors_say_what_was_given() {
    assert_eq!(
        parse_window_id("zap").unwrap_err(),
        "invalid window id 'zap' (expected e.g. \"0x2c00003\" or a decimal number)"
    );
}

#[test]
fn listed_window_ids_can_be_given_back() {
    for xid in [0, 1, 0x2c00003, 0xffff_ffff, 0x1_2345_6789, u64::MAX] {
        let mut text = String::from("id ");
        push_window_id(&mut text, xid);
        assert_eq!(text, format!("id {xid:#010x}"));
        assert_eq!(parse_window_id(&text[3..]).unwrap(), xid);
    }
}

#[test]
fn audio_modes_are_known_by_their_names() {
    for (mode, name) in [
        (AudioMode::Off, "none"),
        (AudioMode::Mic, "mic"),
        (AudioMode::System, "system"),
        (AudioMode::Both, "both"),
    ] {
        assert_eq!(mode.name(), name);
        assert_eq!(AudioMode::from_name(name), Some(mode));
    }
    assert_eq!(AudioMode::from_name("Both"), None);
    assert_eq!(AudioMode::from_name(""), None);
}

#[test]
fn containers_of_unusual_paths() {
    assert_eq!(Container::infer_from_path(b".mp4"), Container::Mkv);
    assert_eq!(Container::infer_from_path(b"dir.mp4/out"), Container::Mkv);
    assert_eq!(Container::infer_from_path(b"out.mp4/"), Container::Mp4);
    assert_eq!(Container::infer_from_path(b"out.mkv.mov"), Container::Mp4);
    assert_eq!(Container::infer_from_path(b"out.mp4\xff"), Container::Mkv);
}
