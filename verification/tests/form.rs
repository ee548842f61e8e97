use desktoprecorder::cli::{AudioMode, Container, Span};
use desktoprecorder::config::load;
use desktoprecorder::duration::DurationError;
use desktoprecorder::form::{
    apply_settings, check_form, has_places, start_if_selected, start_recording, Form,
};
use desktoprecorder::gui::SourceChoice;
use desktoprecorder::pipeline::build_recording_pipeline_with_preview;
use desktoprecorder::plan::Action;
use desktoprecorder::source::{CaptureSource, Region};

fn form() -> Form {
    Form {
        source: 1,
        audio: 1,
        audio_device: String::new(),
        framerate: 60,
        bitrate_kbps: 12_000,
        preset: 4,
        output: "/tmp/out.mp4".to_string(),
        duration: "2m30s".to_string(),
    }
}

fn choices() -> Vec<SourceChoice> {
    vec![
        SourceChoice::FullScreen,
        SourceChoice::Monitor(Region { x: 0, y: 0, width: 1920, height: 1080 }),
        SourceChoice::Window(9),
    ]
}

#[test]
fn a_filled_in_form_can_be_recorded_from() {
    let start = start_recording(&form(), &choices()).unwrap();
    assert_eq!(start.duration, Span { secs: 150, nanos: 0 });
    assert!(!start.indefinite);
    assert_eq!(start.cfg.output_path, b"/tmp/out.mp4");
    assert_eq!(start.cfg.container, Container::Mp4);
    assert_eq!((start.cfg.framerate, start.cfg.bitrate_kbps), (60, 12_000));
    assert_eq!(start.cfg.speed_preset, "fast");
    assert_eq!(start.cfg.audio_mode, AudioMode::Mic);
    assert_eq!(start.cfg.audio_device, None);
    assert!(matches!(start.source, CaptureSource::X11Screen(cfg) if cfg.region.is_some()));
    assert_eq!(start.settings.source_monitor, Some(0));
    assert_eq!(start.settings.speed_preset, "fast");
}

#[test]
fn a_blank_duration_records_for_a_day_at_most() {
    for blank in ["", "  \t"] {
        let mut open = form();
        open.duration = blank.to_string();
        let start = start_recording(&open, &choices()).unwrap();
        assert!(start.indefinite);
        assert_eq!(start.duration, Span { secs: 24 * 60 * 60, nanos: 0 });
    }
}

#[test]
fn a_form_without_an_output_is_refused_first() {
    let mut empty = form();
    empty.output = "  ".to_string();
    empty.duration = "nonsense".to_string();
    assert_eq!(start_recording(&empty, &choices()).unwrap_err().message(), "Choose an output path first");
}

#[test]
fn a_bad_duration_is_refused_next() {
    let mut bad = form();
    bad.duration = "soon".to_string();
    bad.audio = 3;
    bad.audio_device = "x".to_string();
    assert_eq!(
        start_recording(&bad, &choices()).unwrap_err().message(),
        "Invalid duration \"soon\" (try e.g. \"10s\", \"2m30s\", or leave it blank)"
    );
}

#[test]
fn a_device_cannot_be_set_for_both() {
    let mut both = form();
    both.audio = 3;
    both.audio_device = "x".to_string();
    assert_eq!(
        start_recording(&both, &choices()).unwrap_err().message(),
        "Audio device can't be set for Mic + System audio (it always mixes the default mic with the default sink's monitor)"
    );
    both.audio_device = " ".to_string();
    assert!(start_recording(&both, &choices()).is_ok());
}

#[test]
fn the_form_is_checked_whatever_the_duration_reads_as() {
    let span = Span { secs: 7, nanos: 1 };
    assert_eq!(check_form(&form(), &choices(), Ok(span)).unwrap().duration, span);
    assert!(check_form(&form(), &choices(), Err(DurationError::OutOfRange)).is_err());
    let mut open = form();
    open.duration = String::new();
    assert!(check_form(&open, &choices(), Err(DurationError::Malformed)).unwrap().indefinite);
}

#[test]
fn devices_and_paths_are_taken_as_they_stand() {
    let mut spaced = form();
    spaced.output = " out.mkv ".to_string();
    spaced.audio_device = " mic ".to_string();
    let start = start_recording(&spaced, &choices()).unwrap();
    assert_eq!(start.cfg.output_path, b" out.mkv ");
    assert_eq!(start.cfg.audio_device.as_deref(), Some(" mic "));
    assert_eq!(start.settings.audio_device.as_deref(), Some(" mic "));
}

#[test]
fn what_was_recorded_with_comes_back_at_the_next_launch() {
    let mut filled = form();
    filled.audio_device = "alsa".to_string();
    let start = start_recording(&filled, &choices()).unwrap();
    let shown = apply_settings(&load(Some(start.settings.store())), &choices());
    assert_eq!((shown.source, shown.audio, shown.preset), (1, 1, 4));
    assert_eq!((shown.framerate, shown.bitrate_kbps), (60, 12_000));
    assert_eq!(shown.audio_device, "alsa");

    filled.source = 2;
    filled.audio_device = "  ".to_string();
    let start = start_recording(&filled, &choices()).unwrap();
    let shown = apply_settings(&load(Some(start.settings.store())), &choices());
    assert_eq!(shown.source, 0);
    assert_eq!(shown.audio_device, "");
}

#[test]
fn a_fresh_launch_shows_the_defaults() {
    let shown = apply_settings(&load(None), &choices());
    assert_eq!((shown.source, shown.audio, shown.preset), (0, 0, 2));
    assert_eq!((shown.framerate, shown.bitrate_kbps), (30, 8000));
    assert_eq!(shown.audio_device, "");
}

#[test]
fn accepted_forms_are_never_refused_by_their_pipeline() {
    for audio in 0..4 {
        for device in ["", " ", "dev"] {
            for output in ["a.mkv", "caf\u{e9}.mp4"] {
                let mut filled = form();
                filled.audio = audio;
                filled.audio_device = device.to_string();
                filled.output = output.to_string();
                if let Ok(start) = start_recording(&filled, &choices()) {
                    let plan = build_recording_pipeline_with_preview(&start.source, &start.cfg).unwrap();
                    assert!(!plan.steps.iter().any(|s| matches!(s.action, Action::Refuse | Action::RejectPath)));
                }
            }
        }
    }
}

#[test]
fn places_are_looked_up_only_when_their_turn_comes() {
    let mut lost = form();
    lost.audio = u32::MAX;
    lost.preset = u32::MAX;
    assert!(start_if_selected(&lost, &choices()).is_none());

    lost.output = " ".to_string();
    let blank = start_if_selected(&lost, &choices()).unwrap().unwrap_err();
    assert_eq!(blank.message(), "Choose an output path first");

    lost.output = "a.mkv".to_string();
    lost.duration = "soon".to_string();
    assert!(start_recording(&lost, &choices()).unwrap_err().message().starts_with("Invalid duration"));

    lost.duration = String::new();
    lost.audio = 3;
    lost.audio_device = "dev".to_string();
    assert!(start_recording(&lost, &choices()).unwrap_err().message().starts_with("Audio device"));

    lost.audio_device = String::new();
    assert!(!has_places(&lost, Err(DurationError::Malformed)));
    assert!(start_if_selected(&lost, &choices()).is_none());
    lost.preset = 0;
    assert!(start_if_selected(&lost, &choices()).unwrap().is_ok());
}
