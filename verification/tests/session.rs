use desktoprecorder::session::{
    extract_frame, format_elapsed, interrupt_action, preview_failed, received_outcome,
    recording_status, Action, Event, Received, RecordingOutcome, Session, CLOSE_REFUSED,
};

#[test]
fn format_elapsed_pads_to_two_digits() {
    assert_eq!(format_elapsed(0), "00:00");
    assert_eq!(format_elapsed(65), "01:05");
    assert_eq!(format_elapsed(599), "09:59");
}

#[test]
fn format_elapsed_does_not_wrap_past_59_minutes() {
    assert_eq!(format_elapsed(3661), "61:01");
}

#[test]
fn the_longest_recording_is_a_day_of_minutes() {
    assert_eq!(format_elapsed(86_400), "1440:00");
    assert_eq!(recording_status(65), "Recording — 01:05");
}

#[test]
fn a_recording_runs_its_course() {
    let mut session = Session::new();
    assert_eq!(session.handle(Event::Opened), [Action::ShowSettings, Action::StartPreview]);
    assert_eq!(session.handle(Event::RecordClicked), [Action::ReadForm]);
    assert_eq!(session.handle(Event::FormRefused), []);
    assert_eq!(
        session.handle(Event::FormAccepted(false)),
        [Action::SaveSettings, Action::StopPreview, Action::Record, Action::Lock(true)]
    );
    assert!(session.recording());
    assert_eq!(session.handle(Event::SourceChanged), []);
    assert_eq!(session.handle(Event::CloseRequested), [Action::RefuseClose]);
    assert_eq!(session.handle(Event::StopClicked), [Action::RequestStop]);
    assert_eq!(session.handle(Event::HotkeyPressed), [Action::RequestStop]);
    assert_eq!(session.handle(Event::Interrupted), [Action::RequestStop]);
    assert_eq!(session.handle(Event::Ended), [Action::Lock(false), Action::StartPreview]);
    assert!(!session.recording());
    assert_eq!(CLOSE_REFUSED, "Stop the recording before closing");
}

#[test]
fn an_idle_interface_lets_go() {
    let mut session = Session::new();
    session.handle(Event::Opened);
    assert_eq!(session.handle(Event::StopClicked), []);
    assert_eq!(session.handle(Event::HotkeyPressed), [Action::ReadForm]);
    assert_eq!(session.handle(Event::SourceChanged), [Action::StopPreview, Action::StartPreview]);
    assert_eq!(session.handle(Event::CloseRequested), [Action::Close]);
    assert_eq!(session.handle(Event::Interrupted), [Action::Exit]);
    assert_eq!(interrupt_action(true), Action::RequestStop);
    assert_eq!(interrupt_action(false), Action::Exit);
}

#[test]
fn settings_are_saved_with_every_recording_and_only_then() {
    let mut session = Session::new();
    let mut saves = 0;
    let mut recordings = 0;
    for event in [
        Event::Opened,
        Event::RecordClicked,
        Event::FormRefused,
        Event::SourceChanged,
        Event::HotkeyPressed,
        Event::FormAccepted(false),
        Event::StopClicked,
        Event::Ended,
        Event::RecordClicked,
        Event::FormAccepted(true),
        Event::Interrupted,
        Event::Ended,
        Event::CloseRequested,
    ] {
        let actions = session.handle(event);
        saves += actions.iter().filter(|a| **a == Action::SaveSettings).count();
        recordings += actions.iter().filter(|a| **a == Action::Record).count();
        assert_eq!(saves, recordings);
    }
    assert_eq!(saves, 2);
}

fn ended(indefinite: bool, outcome: RecordingOutcome) -> (String, Option<String>) {
    let mut session = Session::new();
    session.handle(Event::FormAccepted(indefinite));
    session.handle(Event::Ended);
    let ending = session.finish_recording(&outcome);
    (ending.status, ending.toast)
}

#[test]
fn early_is_said_only_of_a_duration_that_was_set() {
    let finished = |stopped_early| RecordingOutcome::Finished { stopped_early, output: b"/tmp/a.mkv".to_vec() };
    assert_eq!(ended(true, finished(true)), ("Stopped: /tmp/a.mkv".to_string(), None));
    assert_eq!(ended(false, finished(true)), ("Stopped early: /tmp/a.mkv".to_string(), None));
    assert_eq!(ended(true, finished(false)), ("Done: /tmp/a.mkv".to_string(), None));
    assert_eq!(ended(false, finished(false)), ("Done: /tmp/a.mkv".to_string(), None));
    assert_eq!(
        ended(false, RecordingOutcome::Failed("no disk".to_string())),
        ("Idle".to_string(), Some("Recording failed: no disk".to_string()))
    );
}

#[test]
fn a_thread_that_is_gone_has_failed() {
    assert!(received_outcome(Received::Nothing).is_none());
    match received_outcome(Received::Gone) {
        Some(RecordingOutcome::Failed(reason)) => assert_eq!(reason, "recording thread ended unexpectedly"),
        other => panic!("{other:?}"),
    }
    let sent = RecordingOutcome::Failed("x".to_string());
    assert!(matches!(received_outcome(Received::Outcome(sent)), Some(RecordingOutcome::Failed(r)) if r == "x"));
    assert_eq!(preview_failed("busy"), "Couldn't start preview: busy");
}

#[test]
fn frames_have_four_bytes_a_pixel() {
    let frame = extract_frame(3, 2, vec![7; 24]).unwrap();
    assert_eq!((frame.width, frame.height, frame.stride), (3, 2, 12));
    assert_eq!(frame.data, vec![7; 24]);
    assert!(extract_frame(3, 2, vec![7; 23]).is_none());
    assert!(extract_frame(3, 2, vec![7; 25]).is_none());
    assert!(extract_frame(-3, -2, vec![7; 24]).is_none());
    assert!(extract_frame(0, -1, Vec::new()).is_none());
    assert!(extract_frame(i32::MAX, i32::MAX, Vec::new()).is_none());
    assert!(extract_frame(0, 0, Vec::new()).is_some());
}
