use desktoprecorder::plan::{Element, Value};
use desktoprecorder::source::{
    build_pipewiresrc, CaptureSource, PortalConfig, PortalNeeded, PortalSession, Region,
    X11ScreenConfig,
};

fn flag(element: &Element, name: &str) -> bool {
    match element.properties.iter().find(|p| p.name == name).map(|p| &p.value) {
        Some(Value::Bool(b)) => *b,
        other => panic!("{name}: {other:?}"),
    }
}

fn number(element: &Element, name: &str) -> u32 {
    match element.properties.iter().find(|p| p.name == name).map(|p| &p.value) {
        Some(Value::Unsigned(n)) => *n,
        other => panic!("{name}: {other:?}"),
    }
}

fn has(element: &Element, name: &str) -> bool {
    element.properties.iter().any(|p| p.name == name)
}

#[test]
fn default_config_builds_with_expected_defaults() {
    let elem = CaptureSource::X11Screen(X11ScreenConfig::default()).build_element().unwrap().element;
    assert_eq!(elem.factory, "ximagesrc");
    assert!(!flag(&elem, "use-damage"));
    assert!(flag(&elem, "show-pointer"));
    assert!(!has(&elem, "startx") && !has(&elem, "xid") && !has(&elem, "display-name"));
}

#[test]
fn region_sets_start_end_from_position_and_size() {
    let cfg = X11ScreenConfig {
        region: Some(Region { x: 100, y: 50, width: 800, height: 600 }),
        ..X11ScreenConfig::default()
    };
    let elem = CaptureSource::X11Screen(cfg).build_element().unwrap().element;
    assert_eq!(number(&elem, "startx"), 100);
    assert_eq!(number(&elem, "starty"), 50);
    // The far corner, not the size.
    assert_eq!(number(&elem, "endx"), 900);
    assert_eq!(number(&elem, "endy"), 650);
}

#[test]
fn xid_is_set_when_present() {
    let cfg = X11ScreenConfig { xid: Some(0x2c00003), ..X11ScreenConfig::default() };
    let elem = CaptureSource::X11Screen(cfg).build_element().unwrap().element;
    let xid = elem.properties.iter().find(|p| p.name == "xid").unwrap();
    assert!(matches!(xid.value, Value::Long(0x2c00003)));
}

#[test]
fn show_pointer_false_is_respected() {
    let cfg = X11ScreenConfig { show_pointer: false, ..X11ScreenConfig::default() };
    let elem = CaptureSource::X11Screen(cfg).build_element().unwrap().element;
    assert!(!flag(&elem, "show-pointer"));
}

#[test]
fn display_name_is_set_when_present() {
    let cfg = X11ScreenConfig { display_name: Some(":1".to_string()), ..X11ScreenConfig::default() };
    let elem = CaptureSource::X11Screen(cfg).build_element().unwrap().element;
    let display = elem.properties.iter().find(|p| p.name == "display-name").unwrap();
    match &display.value {
        Value::Text(name) => assert_eq!(name, ":1"),
        other => panic!("{other:?}"),
    }
}

#[test]
fn a_portal_has_to_grant_a_session_first() {
    let source = CaptureSource::Portal(PortalConfig { show_pointer: false, negotiated: None });
    assert_eq!(source.build_element().unwrap_err(), PortalNeeded { show_pointer: false });

    let session = PortalSession { fd: 9, node: 42 };
    assert_eq!((session.fd_raw(), session.node_id()), (9, 42));
    let granted = CaptureSource::Portal(PortalConfig { show_pointer: true, negotiated: Some(session) });
    let elem = granted.build_element().unwrap();
    assert_eq!(elem.element.factory, "pipewiresrc");
    assert!(elem.context.contains("gstreamer1.0-pipewire"));
    let direct = build_pipewiresrc(&session);
    assert!(matches!(direct.properties[0].value, Value::Int(9)));
    match &direct.properties[1].value {
        Value::Text(node) => assert_eq!(node, "42"),
        other => panic!("{other:?}"),
    }
}

#[test]
fn far_corners_can_be_written_down_or_not() {
    assert!(Region { x: 1, y: 1, width: u32::MAX - 1, height: u32::MAX - 1 }.has_corner());
    assert!(!Region { x: 2, y: 0, width: u32::MAX - 1, height: 0 }.has_corner());
    assert!(!Region { x: 0, y: 2, width: 0, height: u32::MAX - 1 }.has_corner());
}
