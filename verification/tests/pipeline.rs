use desktoprecorder::audio::{build_audio_branch, default_monitor_device, MonitorError};
use desktoprecorder::cli::{AudioMode, Container};
use desktoprecorder::commands::{full_screen_source, portal_source};
use desktoprecorder::pipeline::{
    build_preview_only_pipeline, build_recording_pipeline, build_recording_pipeline_with_preview,
    RecordConfig,
};
use desktoprecorder::plan::{Action, CapsValue, Capture, Element, Part, Plan, Value};

fn cfg() -> RecordConfig {
    RecordConfig {
        output_path: b"/tmp/out.mkv".to_vec(),
        framerate: 30,
        bitrate_kbps: 8000,
        speed_preset: "veryfast".to_string(),
        container: Container::Mkv,
        audio_mode: AudioMode::Off,
        audio_device: None,
    }
}

fn made(plan: &Plan, part: Part) -> &Element {
    plan.steps
        .iter()
        .find_map(|step| match &step.action {
            Action::Make(p, element) if *p == part => Some(element),
            _ => None,
        })
        .unwrap()
}

fn links(plan: &Plan) -> Vec<(Part, Part)> {
    let mut all = Vec::new();
    for step in &plan.steps {
        if let Action::Link(parts) = &step.action {
            all.extend(parts.windows(2).map(|pair| (pair[0], pair[1])));
        }
    }
    all
}

/// Carries a plan out on paper, and checks that every element is there when
/// it is used.
fn carry_out(plan: &Plan, at_hand: &[Part]) {
    let mut created: Vec<Part> = at_hand.to_vec();
    let mut added: Vec<Part> = Vec::new();
    let mut monitor = false;
    for step in &plan.steps {
        match &step.action {
            Action::Make(part, element) => {
                assert!(!created.contains(part));
                for property in &element.properties {
                    assert!(monitor || !matches!(property.value, Value::DefaultMonitor));
                }
                created.push(*part);
            }
            Action::Add(parts) => {
                for part in parts {
                    assert!(created.contains(part) && !added.contains(part));
                    added.push(*part);
                }
            }
            Action::Link(parts) => assert!(parts.iter().all(|part| added.contains(part))),
            Action::LookupMonitor => monitor = true,
            Action::RejectPath | Action::Refuse => return,
        }
    }
    assert_eq!(created.len(), added.len());
}

#[test]
fn every_plan_can_be_carried_out() {
    for mode in [AudioMode::Off, AudioMode::Mic, AudioMode::System, AudioMode::Both] {
        for device in [None, Some("dev".to_string())] {
            for container in [Container::Mkv, Container::Mp4] {
                let mut cfg = cfg();
                cfg.audio_mode = mode;
                cfg.audio_device = device.clone();
                cfg.container = container;
                carry_out(&build_recording_pipeline(&full_screen_source(), &cfg).unwrap(), &[]);
                let previewed = build_recording_pipeline_with_preview(&full_screen_source(), &cfg).unwrap();
                carry_out(&previewed, &[Part::PreviewSink]);
            }
        }
    }
    carry_out(&build_preview_only_pipeline(&full_screen_source()).unwrap(), &[Part::PreviewSink]);
}

#[test]
fn a_plain_recording_leads_from_the_screen_to_the_file() {
    let plan = build_recording_pipeline(&full_screen_source(), &cfg()).unwrap();
    assert_eq!(plan.name, "desktoprecorder-pipeline");
    assert_eq!(
        links(&plan),
        [
            (Part::Source, Part::VideoCaps),
            (Part::VideoCaps, Part::Convert),
            (Part::Convert, Part::Encoder),
            (Part::Encoder, Part::Parse),
            (Part::Parse, Part::Mux),
            (Part::Mux, Part::FileSink),
        ]
    );
    let encoder = made(&plan, Part::Encoder);
    assert_eq!(encoder.factory, "x264enc");
    assert!(matches!(encoder.properties[0].value, Value::Unsigned(8000)));
    assert!(matches!(encoder.properties[1].value, Value::Unsigned(60)));
    assert!(matches!(&encoder.properties[2].value, Value::Keyword(k) if k == "veryfast"));
    let sink = made(&plan, Part::FileSink);
    assert!(matches!(&sink.properties[0].value, Value::Text(path) if path == "/tmp/out.mkv"));
    assert_eq!(made(&plan, Part::Mux).factory, "matroskamux");
    assert!(made(&plan, Part::Mux).properties.is_empty());
    match &made(&plan, Part::VideoCaps).properties[0].value {
        Value::Caps(caps) => {
            assert_eq!(caps.media, "video/x-raw");
            assert!(matches!(caps.fields[0].value, CapsValue::Fraction(30, 1)));
        }
        other => panic!("{other:?}"),
    }
}

#[test]
fn an_mp4_has_its_index_in_front() {
    let mut mp4 = cfg();
    mp4.container = Container::Mp4;
    let plan = build_recording_pipeline(&full_screen_source(), &mp4).unwrap();
    let mux = made(&plan, Part::Mux);
    assert_eq!((mux.factory, mux.properties[0].name), ("qtmux", "faststart"));
}

#[test]
fn key_frames_stay_within_what_can_be_written_down() {
    let mut fast = cfg();
    fast.framerate = u32::MAX;
    let plan = build_recording_pipeline(&full_screen_source(), &fast).unwrap();
    assert!(matches!(made(&plan, Part::Encoder).properties[1].value, Value::Unsigned(u32::MAX)));
}

#[test]
fn a_preview_gets_a_branch_of_its_own() {
    let plan = build_recording_pipeline_with_preview(&full_screen_source(), &cfg()).unwrap();
    let all = links(&plan);
    for link in [
        (Part::Convert, Part::Tee),
        (Part::Tee, Part::RecordQueue),
        (Part::RecordQueue, Part::Encoder),
        (Part::Tee, Part::PreviewQueue),
        (Part::PreviewCaps, Part::PreviewSink),
    ] {
        assert!(all.contains(&link), "{link:?}");
    }
    assert!(!all.contains(&(Part::Convert, Part::Encoder)));
    assert_eq!(made(&plan, Part::PreviewQueue).name, Some("preview-queue"));

    let alone = build_preview_only_pipeline(&full_screen_source()).unwrap();
    assert_eq!(alone.name, "desktoprecorder-preview-only-pipeline");
    assert_eq!(
        links(&alone),
        [
            (Part::Source, Part::VideoCaps),
            (Part::VideoCaps, Part::PreviewScale),
            (Part::PreviewScale, Part::PreviewCaps),
            (Part::PreviewCaps, Part::PreviewSink),
        ]
    );
}

#[test]
fn a_path_that_is_no_text_is_rejected() {
    let mut odd = cfg();
    odd.output_path = b"/tmp/\xff.mkv".to_vec();
    let plan = build_recording_pipeline(&full_screen_source(), &odd).unwrap();
    assert!(matches!(plan.steps.last().unwrap().action, Action::RejectPath));
}

#[test]
fn a_portal_is_needed_before_anything_is_planned() {
    assert!(build_recording_pipeline(&portal_source(), &cfg()).unwrap_err().show_pointer);
    assert!(build_preview_only_pipeline(&portal_source()).is_err());
}

#[test]
fn both_captures_are_mixed_and_their_layout_kept() {
    let mut both = cfg();
    both.audio_mode = AudioMode::Both;
    let plan = build_recording_pipeline(&full_screen_source(), &both).unwrap();
    let all = links(&plan);
    for link in [
        (Part::AudioCaps(Capture::Mic), Part::Mixer),
        (Part::AudioCaps(Capture::System), Part::Mixer),
        (Part::Mixer, Part::MixCaps),
        (Part::MixCaps, Part::AudioEncoder),
        (Part::AudioEncoder, Part::AudioParse),
        (Part::AudioParse, Part::Mux),
    ] {
        assert!(all.contains(&link), "{link:?}");
    }
    assert!(made(&plan, Part::AudioSource(Capture::Mic)).properties.is_empty());
    let system = made(&plan, Part::AudioSource(Capture::System));
    assert!(matches!(system.properties[0].value, Value::DefaultMonitor));

    both.audio_device = Some("dev".to_string());
    let refused = build_recording_pipeline(&full_screen_source(), &both).unwrap();
    let last = refused.steps.last().unwrap();
    assert!(matches!(last.action, Action::Refuse));
    assert_eq!(
        last.context,
        "--audio-device isn't supported with --audio=both (it always mixes the default mic with the default sink's monitor)"
    );
}

#[test]
fn a_device_of_ones_own_takes_the_place_of_the_default() {
    let mut plan = Plan { name: "p", steps: Vec::new() };
    let branch = build_audio_branch(&mut plan, AudioMode::System, Some("dev")).unwrap();
    assert_eq!(branch.tail, Part::AudioParse);
    let source = made(&plan, Part::AudioSource(Capture::System));
    assert!(matches!(&source.properties[0].value, Value::Text(d) if d == "dev"));
    assert!(!plan.steps.iter().any(|s| matches!(s.action, Action::LookupMonitor)));

    let mut silent = Plan { name: "p", steps: Vec::new() };
    assert!(build_audio_branch(&mut silent, AudioMode::Off, None).is_none());
    assert!(silent.steps.is_empty());
}

#[test]
fn the_monitor_device_is_named_after_the_default_sink() {
    assert_eq!(default_monitor_device(true, b"alsa_output.x\n", b"").unwrap(), "alsa_output.x.monitor");
    let failed = default_monitor_device(false, b"x", b"no \xff server").unwrap_err();
    assert_eq!(failed.message(), "'pactl get-default-sink' failed: no \u{fffd} server");
    let odd = default_monitor_device(true, b"\xff", b"").unwrap_err();
    assert!(matches!(odd, MonitorError::NotUtf8));
    assert_eq!(odd.message(), "'pactl get-default-sink' output was not valid UTF-8");
    let none = default_monitor_device(true, b" \n", b"").unwrap_err();
    assert_eq!(
        none.message(),
        "could not determine the default PulseAudio sink ('pactl get-default-sink' returned nothing)"
    );
}

#[test]
fn a_preview_changes_nothing_of_the_recording() {
    for mode in [AudioMode::Off, AudioMode::Mic, AudioMode::System, AudioMode::Both] {
        let mut cfg = cfg();
        cfg.audio_mode = mode;
        let plain = build_recording_pipeline(&full_screen_source(), &cfg).unwrap();
        let shown = build_recording_pipeline_with_preview(&full_screen_source(), &cfg).unwrap();
        for step in &plain.steps {
            if let Action::Make(part, element) = &step.action {
                assert_eq!(format!("{:?}", made(&shown, *part)), format!("{element:?}"));
            }
        }
        let all = links(&shown);
        for link in links(&plain) {
            assert_eq!(all.contains(&link), link != (Part::Convert, Part::Encoder), "{link:?}");
        }
    }
}
