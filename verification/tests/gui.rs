use desktoprecorder::cli::AudioMode;
use desktoprecorder::gui::{
    audio_dropdown_index, build_capture_source, build_source_choices, preset_dropdown_index,
    preset_label, preset_tooltip, selected_source_choice, settings_source_monitor,
    source_dropdown_index, SourceChoice, AUDIO_LABELS, AUDIO_MODES, DEFAULT_PRESET_INDEX,
    PRESETS, PRESET_DESCRIPTIONS,
};
use desktoprecorder::source::{CaptureSource, Region, X11ScreenConfig};
use desktoprecorder::x11_query::{MonitorInfo, WindowInfo};

fn screen(choice: SourceChoice) -> X11ScreenConfig {
    match build_capture_source(choice) {
        CaptureSource::X11Screen(cfg) => cfg,
        other => panic!("{other:?}"),
    }
}

#[test]
fn preset_arrays_stay_in_lockstep() {
    assert_eq!(PRESETS.len(), PRESET_DESCRIPTIONS.len());
    assert!((DEFAULT_PRESET_INDEX as usize) < PRESETS.len());
    assert_eq!(PRESETS[DEFAULT_PRESET_INDEX as usize], "veryfast");
}

#[test]
fn audio_mode_arrays_stay_in_lockstep() {
    assert_eq!(AUDIO_MODES.len(), AUDIO_LABELS.len());
    assert_eq!(AUDIO_MODES[0], AudioMode::Off);
}

#[test]
fn build_capture_source_full_screen_has_no_region_or_xid() {
    let cfg = screen(SourceChoice::FullScreen);
    assert!(cfg.region.is_none());
    assert!(cfg.xid.is_none());
}

#[test]
fn build_capture_source_monitor_sets_region_only() {
    let region = Region { x: 0, y: 0, width: 1920, height: 1080 };
    let cfg = screen(SourceChoice::Monitor(region));
    assert_eq!(cfg.region, Some(region));
    assert!(cfg.xid.is_none());
}

#[test]
fn build_capture_source_window_sets_xid_only() {
    let cfg = screen(SourceChoice::Window(0x2c00003));
    assert_eq!(cfg.xid, Some(0x2c00003));
    assert!(cfg.region.is_none());
}

fn region(x: u32) -> Region {
    Region { x, y: 0, width: 1920, height: 1080 }
}

#[test]
fn sources_are_listed_screen_then_monitors_then_windows() {
    let monitors = Ok(vec![
        MonitorInfo { index: 0, name: "HDMI-1".to_string(), primary: true, region: region(0) },
        MonitorInfo { index: 1, name: "DP-2".to_string(), primary: false, region: region(1920) },
    ]);
    let windows = Ok(vec![WindowInfo {
        xid: 9,
        title: "A page".to_string(),
        class: "Firefox".to_string(),
        region: None,
    }]);
    let list = build_source_choices(&monitors, &windows);
    assert_eq!(
        list.labels,
        [
            "Full screen (all monitors)",
            "Monitor 0: HDMI-1 (primary) — 1920x1080",
            "Monitor 1: DP-2 — 1920x1080",
            "Window: [Firefox] A page",
        ]
    );
    assert_eq!(
        list.choices,
        [
            SourceChoice::FullScreen,
            SourceChoice::Monitor(region(0)),
            SourceChoice::Monitor(region(1920)),
            SourceChoice::Window(9),
        ]
    );
    assert_eq!((list.toast, list.warning), (None, None));
}

#[test]
fn sources_that_cannot_be_listed_leave_the_screen() {
    let list = build_source_choices(&Err("no RandR".to_string()), &Err("no EWMH".to_string()));
    assert_eq!(list.labels, ["Full screen (all monitors)"]);
    assert_eq!(list.choices, [SourceChoice::FullScreen]);
    assert_eq!(list.toast.as_deref(), Some("Could not list monitors: no RandR"));
    assert_eq!(list.warning.as_deref(), Some("warning: could not list windows: no EWMH"));
}

fn choices() -> Vec<SourceChoice> {
    vec![
        SourceChoice::FullScreen,
        SourceChoice::Monitor(region(0)),
        SourceChoice::Monitor(region(1920)),
        SourceChoice::Window(9),
    ]
}

#[test]
fn selections_out_of_the_list_mean_the_full_screen() {
    assert_eq!(selected_source_choice(&choices(), 3), SourceChoice::Window(9));
    assert_eq!(selected_source_choice(&choices(), 4), SourceChoice::FullScreen);
    assert_eq!(selected_source_choice(&choices(), u32::MAX), SourceChoice::FullScreen);
}

#[test]
fn monitors_are_saved_and_found_again() {
    for place in [1, 2] {
        let monitor = settings_source_monitor(&choices(), place);
        assert_eq!(monitor, Some(place - 1));
        assert_eq!(source_dropdown_index(&choices(), monitor), place);
    }
    assert_eq!(settings_source_monitor(&choices(), 0), None);
    assert_eq!(settings_source_monitor(&choices(), 3), None);
    assert_eq!(source_dropdown_index(&choices(), None), 0);
}

#[test]
fn monitors_that_are_gone_become_the_full_screen() {
    // The place behind the monitors holds a window.
    assert_eq!(source_dropdown_index(&choices(), Some(2)), 0);
    assert_eq!(source_dropdown_index(&choices(), Some(7)), 0);
    assert_eq!(source_dropdown_index(&choices(), Some(u32::MAX)), 0);
}

#[test]
fn audio_modes_are_found_in_their_dropdown() {
    for (place, mode) in AUDIO_MODES.iter().enumerate() {
        assert_eq!(audio_dropdown_index(*mode) as usize, place);
    }
}

#[test]
fn presets_are_found_in_their_dropdown() {
    for (place, preset) in PRESETS.iter().enumerate() {
        assert_eq!(preset_dropdown_index(preset) as usize, place);
    }
    assert_eq!(preset_dropdown_index("warp"), 2);
    assert_eq!(preset_dropdown_index(""), 2);
}

#[test]
fn preset_rows_have_labels_and_tooltips() {
    assert_eq!(preset_label(0), "ultrafast");
    assert_eq!(preset_label(9), "placebo");
    assert_eq!(preset_label(10), "");
    assert!(preset_tooltip(2).unwrap().starts_with("Default."));
    assert_eq!(preset_tooltip(10), None);
}
