use desktoprecorder::source::Region;
use desktoprecorder::x11_query::{
    list_monitors, list_windows, monitor_region, nonneg, window_class, window_exists, window_id,
    window_title, Geometry, RawMonitor, RawWindow,
};

fn monitor(name: Option<&[u8]>, x: i16) -> RawMonitor {
    RawMonitor {
        name: name.map(|n| n.to_vec()),
        primary: x == 0,
        geometry: Geometry { x, y: 0, width: 1920, height: 1080 },
    }
}

#[test]
fn monitors_are_listed_and_found_by_index() {
    let raw = vec![monitor(Some(b"HDMI-1"), 0), monitor(None, 1920)];
    let monitors = list_monitors(&raw).unwrap();
    assert_eq!(monitors[0].name, "HDMI-1");
    assert!(monitors[0].primary);
    assert_eq!(monitors[1].name, "monitor-1");
    assert_eq!(
        monitor_region(&monitors, 1).unwrap(),
        Region { x: 1920, y: 0, width: 1920, height: 1080 }
    );
    assert_eq!(
        monitor_region(&monitors, 2).unwrap_err().message(),
        "no monitor with index 2 (see `list-sources`)"
    );
}

#[test]
fn a_monitor_left_of_the_origin_cannot_be_captured() {
    let raw = vec![monitor(Some(b"A"), 0), monitor(Some(b"B"), -1920)];
    assert_eq!(
        list_monitors(&raw).unwrap_err().message(),
        "monitor 'B' is positioned off the virtual screen's origin (-1920, 0), which isn't capturable as a region"
    );
    assert!(nonneg(Geometry { x: 0, y: -1, width: 1, height: 1 }, "it").is_err());
    let corner = nonneg(Geometry { x: i16::MAX, y: i16::MAX, width: u16::MAX, height: u16::MAX }, "it");
    assert!(corner.unwrap().has_corner());
}

#[test]
fn window_ids_have_thirty_two_bits() {
    assert_eq!(window_id(0xffff_ffff).unwrap(), 0xffff_ffff);
    assert_eq!(
        window_id(0x1_0000_0000).unwrap_err().message(),
        "window id doesn't fit in 32 bits (X11 window IDs are 32-bit)"
    );
    assert!(window_exists(7, true).unwrap());
    assert!(!window_exists(7, false).unwrap());
    assert!(window_exists(0x1_0000_0000, true).is_err());
}

#[test]
fn titles_fall_back_to_the_older_property() {
    let some = |b: &[u8]| Some(b.to_vec());
    assert_eq!(window_title(&some("caf\u{e9}".as_bytes()), &some(b"old")).unwrap(), "caf\u{e9}");
    assert_eq!(window_title(&some(b""), &some(b"old")).unwrap(), "old");
    assert_eq!(window_title(&some(b""), &some(b"")), None);
    assert_eq!(window_title(&some(b""), &None), None);
    // What could not be had is not made up for.
    assert_eq!(window_title(&None, &some(b"old")), None);
    assert_eq!(window_title(&some(b"a\xffb"), &None).unwrap(), "a\u{fffd}b");
}

#[test]
fn classes_are_the_second_string_if_there_is_one() {
    assert_eq!(window_class(b"Navigator\0Firefox\0").unwrap(), "Firefox");
    assert_eq!(window_class(b"only\0").unwrap(), "only");
    assert_eq!(window_class(b"\0"), None);
    assert_eq!(window_class(b""), None);
}

#[test]
fn windows_are_listed_with_what_is_known_of_them() {
    let raw = vec![
        RawWindow {
            xid: 0x2c00003,
            net_wm_name: Some(b"Title".to_vec()),
            wm_name: None,
            wm_class: Some(b"a\0B\0".to_vec()),
            geometry: Some(Geometry { x: 1, y: 2, width: 3, height: 4 }),
        },
        RawWindow { xid: 1, net_wm_name: None, wm_name: None, wm_class: None, geometry: None },
        RawWindow {
            xid: 2,
            net_wm_name: Some(Vec::new()),
            wm_name: Some(b"old".to_vec()),
            wm_class: Some(Vec::new()),
            geometry: Some(Geometry { x: -1, y: 2, width: 3, height: 4 }),
        },
    ];
    let windows = list_windows(&raw);
    assert_eq!(windows[0].xid, 0x2c00003);
    assert_eq!((windows[0].title.as_str(), windows[0].class.as_str()), ("Title", "B"));
    assert_eq!(windows[0].region, Some(Region { x: 1, y: 2, width: 3, height: 4 }));
    assert_eq!((windows[1].title.as_str(), windows[1].class.as_str()), ("(untitled)", "(unknown)"));
    assert_eq!(windows[1].region, None);
    assert_eq!((windows[2].title.as_str(), windows[2].class.as_str()), ("old", "(unknown)"));
    assert_eq!(windows[2].region, None);
}
