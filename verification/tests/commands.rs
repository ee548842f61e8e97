use desktoprecorder::cli::{AudioMode, Container, RecordArgs, Span};
use desktoprecorder::commands::{
    asks_monitors, asks_windows, banner, closing_text, format_region, full_screen_source, gui_command, monitors_listing,
    portal_source, record_command, record_config, region_source, sources_listing, window_source,
    windows_listing, windows_warning, CommandError, SourceRequest, MONITORS_HEADING, WAYLAND_LISTING, WINDOWS_HEADING,
};
use desktoprecorder::duration::parse_duration;
use desktoprecorder::error::RecorderError;
use desktoprecorder::source::{CaptureSource, Region};
use desktoprecorder::x11_query::{MonitorInfo, WindowInfo};

fn args() -> RecordArgs {
    RecordArgs {
        output: b"demo.mp4".to_vec(),
        duration: Span { secs: 150, nanos: 0 },
        framerate: 30,
        bitrate: 8000,
        speed_preset: "veryfast".to_string(),
        container: None,
        monitor: None,
        window: None,
        audio: AudioMode::Both,
        audio_device: None,
    }
}

#[test]
fn a_monitor_and_a_window_cannot_be_combined() {
    let mut both = args();
    both.monitor = Some(0);
    both.window = Some(1);
    for wayland in [false, true] {
        let refused = record_command(&both, wayland).unwrap_err();
        assert_eq!(refused, CommandError::TwoSources);
        assert_eq!(refused.message(), "--monitor and --window can't be combined; pick one capture source");
    }
}

#[test]
fn sources_are_asked_for_by_session_and_flags() {
    let mut monitor = args();
    monitor.monitor = Some(2);
    let mut window = args();
    window.window = Some(0x2c00003);
    assert_eq!(record_command(&args(), false), Ok(SourceRequest::FullScreen));
    assert_eq!(record_command(&monitor, false), Ok(SourceRequest::Monitor(2)));
    assert_eq!(record_command(&window, false), Ok(SourceRequest::Window(0x2c00003)));
    assert_eq!(record_command(&args(), true), Ok(SourceRequest::Portal(false)));
    assert_eq!(record_command(&monitor, true), Ok(SourceRequest::Portal(true)));
    assert_eq!(record_command(&window, true), Ok(SourceRequest::Portal(true)));
}

#[test]
fn sources_are_made_of_what_was_found_out() {
    let region = Region { x: 1, y: 2, width: 3, height: 4 };
    match region_source(region) {
        CaptureSource::X11Screen(cfg) => assert_eq!((cfg.region, cfg.xid), (Some(region), None)),
        other => panic!("{other:?}"),
    }
    match window_source(7, true).unwrap() {
        CaptureSource::X11Screen(cfg) => assert_eq!((cfg.region, cfg.xid), (None, Some(7))),
        other => panic!("{other:?}"),
    }
    match full_screen_source() {
        CaptureSource::X11Screen(cfg) => assert_eq!((cfg.region, cfg.xid), (None, None)),
        other => panic!("{other:?}"),
    }
    assert!(matches!(portal_source(), CaptureSource::Portal(cfg) if cfg.show_pointer));
    assert_eq!(
        window_source(0x2c00003, false).unwrap_err().message(),
        "no window with id 0x2c00003 (see `list-sources`)"
    );
}

#[test]
fn the_container_that_is_asked_for_wins() {
    assert_eq!(record_config(&args()).container, Container::Mp4);
    let mut asked = args();
    asked.container = Some(Container::Mkv);
    asked.audio_device = Some("mic0".to_string());
    let cfg = record_config(&asked);
    assert_eq!(cfg.container, Container::Mkv);
    assert_eq!(cfg.output_path, b"demo.mp4");
    assert_eq!((cfg.framerate, cfg.bitrate_kbps), (30, 8000));
    assert_eq!(cfg.speed_preset, "veryfast");
    assert_eq!(cfg.audio_mode, AudioMode::Both);
    assert_eq!(cfg.audio_device.as_deref(), Some("mic0"));
}

#[test]
fn the_banner_says_what_is_recorded() {
    assert_eq!(
        banner(&record_config(&args()), args().duration),
        "recording to demo.mp4 for 2m 30s (30fps, 8000kbps, qtmux, mic+system audio)... press Ctrl+C to stop early"
    );
    for (mode, words) in [
        (AudioMode::Off, "no audio"),
        (AudioMode::Mic, "mic audio"),
        (AudioMode::System, "system audio"),
    ] {
        let mut other = args();
        other.audio = mode;
        assert!(banner(&record_config(&other), Span { secs: 1, nanos: 500_000_000 })
            .contains(&format!(" for 1s 500ms (30fps, 8000kbps, qtmux, {words})")));
    }
    assert_eq!(closing_text(true, b"a.mkv"), "stopped early: a.mkv");
    assert_eq!(closing_text(false, b"\xff.mkv"), "done: \u{fffd}.mkv");
}

#[test]
fn the_length_in_the_banner_can_be_given_back() {
    for duration in [
        Span { secs: 0, nanos: 0 },
        Span { secs: 0, nanos: 1_002_003 },
        Span { secs: 86_400 * 400 + 61, nanos: 999_999_999 },
        Span { secs: u64::MAX / 3, nanos: 5 },
        Span { secs: u64::MAX, nanos: 999_999_999 },
    ] {
        let text = banner(&record_config(&args()), duration);
        let length = text.strip_prefix("recording to demo.mp4 for ").unwrap().split(" (").next().unwrap();
        assert_eq!(parse_duration(length), Ok(duration), "{length:?}");
    }
}

#[test]
fn the_gui_is_for_x11_only() {
    assert!(gui_command(false).is_ok());
    let refused = gui_command(true).unwrap_err().message();
    assert!(refused.starts_with("this looks like a Wayland session (WAYLAND_DISPLAY is set)"));
    assert_eq!(refused.lines().count(), 3);
}

#[test]
fn monitors_are_printed_in_columns() {
    let region = Region { x: 0, y: 10, width: 1920, height: 1080 };
    assert_eq!(format_region(&region), "1920x1080+0+10");
    let monitors = vec![
        MonitorInfo { index: 0, name: "HDMI-1".to_string(), primary: true, region },
        MonitorInfo { index: 1234, name: "a-rather-long-name".to_string(), primary: false, region },
    ];
    let mut expected = String::new();
    for m in &monitors {
        let primary = if m.primary { " (primary)" } else { "" };
        expected += &format!("  {:<3} {:<12}{}  {}\n", m.index, m.name, primary, "1920x1080+0+10");
    }
    assert_eq!(monitors_listing(&monitors), expected);
    assert_eq!(monitors_listing(&Vec::new()), "");
    assert_eq!(
        MONITORS_HEADING,
        "(no --monitor/--window)  Full virtual screen (all monitors combined) — default\n\nMonitors (--monitor <index>):\n"
    );
}

#[test]
fn windows_are_printed_with_their_ids() {
    let windows = vec![
        WindowInfo {
            xid: 0x2c00003,
            title: "A page".to_string(),
            class: "Firefox".to_string(),
            region: Some(Region { x: 1, y: 2, width: 3, height: 4 }),
        },
        WindowInfo { xid: 1, title: "t".to_string(), class: "c".to_string(), region: None },
    ];
    assert_eq!(
        windows_listing(&windows),
        "  0x02c00003  [Firefox] A page  3x4+1+2\n  0x00000001  [c] t  position/size unknown\n"
    );
    assert_eq!(windows_listing(&Vec::new()), "  (none found)\n");
    assert_eq!(WINDOWS_HEADING, "\nWindows (--window <id>):\n");
    assert_eq!(windows_warning("no X"), "  warning: could not list windows: no X");
    assert!(WAYLAND_LISTING.ends_with("picker dialog instead.\n"));
}

#[test]
fn sources_are_asked_for_only_where_they_are_listed() {
    assert!(asks_monitors(false) && !asks_monitors(true));
    assert!(asks_windows(false, true));
    assert!(!asks_windows(false, false) && !asks_windows(true, true) && !asks_windows(true, false));
}

#[test]
fn sources_are_listed_as_a_whole() {
    let region = Region { x: 0, y: 0, width: 800, height: 600 };
    let monitor = || MonitorInfo { index: 0, name: "A".to_string(), primary: false, region };
    let window = || WindowInfo { xid: 1, title: "t".to_string(), class: "c".to_string(), region: None };
    let heads = "(no --monitor/--window)  Full virtual screen (all monitors combined) — default\n\nMonitors (--monitor <index>):\n";

    let all = sources_listing(false, &Ok(vec![monitor()]), &Ok(vec![window()]));
    assert_eq!(
        all.text,
        format!("{heads}  0   A             800x600+0+0\n\nWindows (--window <id>):\n  0x00000001  [c] t  position/size unknown\n")
    );
    assert_eq!((all.warning, all.error), (None, None));

    let windowless = sources_listing(false, &Ok(Vec::new()), &Err("no EWMH".to_string()));
    assert_eq!(windowless.text, format!("{heads}\nWindows (--window <id>):\n"));
    assert_eq!(windowless.warning.as_deref(), Some("  warning: could not list windows: no EWMH"));
    assert_eq!(windowless.error, None);

    let failed = sources_listing(false, &Err("no RandR".to_string()), &Err("no EWMH".to_string()));
    assert_eq!(failed.text, heads);
    assert_eq!(failed.warning, None);
    assert_eq!(failed.error.as_deref(), Some("failed to list monitors: no RandR"));

    let wayland = sources_listing(true, &Err("x".to_string()), &Err("y".to_string()));
    assert_eq!(wayland.text, WAYLAND_LISTING);
    assert_eq!((wayland.warning, wayland.error), (None, None));
}

#[test]
fn flags_for_later_are_named() {
    assert_eq!(
        RecorderError::NotYetImplemented { flag: "pause" }.message(),
        "--pause is not implemented yet; it's reserved for a later milestone"
    );
}
