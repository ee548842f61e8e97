//! The states of the graphical interface.
//!
//! The interface is told what happens to it, and asks in return for things
//! to be done. It is recording or it is not; everything else follows.
use vstd::prelude::*;
use crate::config::text_of;
use crate::outside::{from_utf8_lossy, lossy_text};
use crate::text::{
    decimal, decimal_text, law_numbers_have_no_leading_zero, law_zeros_leave_numbers_alone,
    lemma_mentions, mentions, positional, push_zero_padded, zero_pad,
};

verus! {

/// Something that happens.
#[derive(Debug, Clone, Copy, PartialEq, Eq, Structural)]
pub enum Event {
    /// The window has been opened.
    Opened,
    /// The Record button was clicked.
    RecordClicked,
    /// The form has been read, and can be recorded from. With `true`, no
    /// duration was set.
    FormAccepted(bool),
    /// The form has been read, and something is wrong with it.
    FormRefused,
    /// The Stop button was clicked.
    StopClicked,
    /// The hotkey was pressed.
    HotkeyPressed,
    /// Another source was selected.
    SourceChanged,
    /// The window is asked to close.
    CloseRequested,
    /// Ctrl+C or SIGTERM.
    Interrupted,
    /// The recording has ended, well or not.
    Ended,
}

/// Something to be done.
#[derive(Debug, Clone, Copy, PartialEq, Eq, Structural)]
pub enum Action {
    /// Load the saved settings and show them in the form.
    ShowSettings,
    /// Read the form and check it.
    ReadForm,
    /// Save what the accepted form is set to.
    SaveSettings,
    /// Start the preview that shows the selected source while nothing is
    /// recorded.
    StartPreview,
    /// Stop that preview.
    StopPreview,
    /// Start a recording, with a preview of its own.
    Record,
    /// Lock the form and the Record button and unlock the Stop button
    /// (`true`), or the other way round.
    Lock(bool),
    /// Ask the recording to stop.
    RequestStop,
    /// Keep the window open, and say why.
    RefuseClose,
    /// Let the window close.
    Close,
    /// Leave the program.
    Exit,
}

/// Why the window stays open.
pub const CLOSE_REFUSED: &'static str = "Stop the recording before closing";

/// The status while nothing has been recorded.
pub const IDLE_STATUS: &'static str = "Idle";

/// What is to be done when something happens.
pub open spec fn reaction(recording: bool, event: Event) -> Seq<Action> {
    match event {
        Event::Opened => seq![Action::ShowSettings, Action::StartPreview],
        Event::RecordClicked => seq![Action::ReadForm],
        Event::FormAccepted(_) => seq![
            Action::SaveSettings,
            Action::StopPreview,
            Action::Record,
            Action::Lock(true),
        ],
        Event::FormRefused => seq![],
        Event::StopClicked => if recording {
            seq![Action::RequestStop]
        } else {
            seq![]
        },
        Event::HotkeyPressed => if recording {
            seq![Action::RequestStop]
        } else {
            seq![Action::ReadForm]
        },
        Event::SourceChanged => if recording {
            seq![]
        } else {
            seq![Action::StopPreview, Action::StartPreview]
        },
        Event::CloseRequested => if recording {
            seq![Action::RefuseClose]
        } else {
            seq![Action::Close]
        },
        Event::Interrupted => if recording {
            seq![Action::RequestStop]
        } else {
            seq![Action::Exit]
        },
        Event::Ended => seq![Action::Lock(false), Action::StartPreview],
    }
}

/// Whether something can happen at all: what the form leads to comes only
/// while it is not locked, and only a recording can end.
pub open spec fn possible(recording: bool, event: Event) -> bool {
    match event {
        Event::Opened => !recording,
        Event::RecordClicked => !recording,
        Event::FormAccepted(_) => !recording,
        Event::FormRefused => !recording,
        Event::Ended => recording,
        _ => true,
    }
}

/// Whether there is a recording once something has happened.
pub open spec fn recording_after(recording: bool, event: Event) -> bool {
    match event {
        Event::FormAccepted(_) => true,
        Event::Ended => false,
        _ => recording,
    }
}

/// The interface's state.
#[derive(Debug, Clone, Copy, PartialEq, Eq, Structural)]
pub struct Session {
    recording: bool,
    indefinite: bool,
}

impl Session {
    /// Whether something is being recorded.
    pub closed spec fn busy(self) -> bool {
        self.recording
    }

    /// Whether the last recording had no duration set.
    pub closed spec fn open_ended(self) -> bool {
        self.indefinite
    }

    /// A fresh interface.
    pub fn new() -> (session: Session)
        ensures
            !session.busy(),
            !session.open_ended(),
    {
        Session { recording: false, indefinite: false }
    }

    /// Whether something is being recorded.
    pub fn recording(&self) -> (recording: bool)
        ensures
            recording == self.busy(),
    {
        self.recording
    }

    /// Takes note of what happens, and says what to do.
    pub fn handle(&mut self, event: Event) -> (actions: Vec<Action>)
        requires
            possible(old(self).busy(), event),
        ensures
            actions@ == reaction(old(self).busy(), event),
            final(self).busy() == recording_after(old(self).busy(), event),
            final(self).open_ended() == match event {
                Event::FormAccepted(indefinite) => indefinite,
                _ => old(self).open_ended(),
            },
    {
        let mut actions: Vec<Action> = Vec::new();
        match event {
            Event::Opened => {
                actions.push(Action::ShowSettings);
                actions.push(Action::StartPreview);
            },
            Event::RecordClicked => {
                actions.push(Action::ReadForm);
            },
            Event::FormAccepted(indefinite) => {
                self.recording = true;
                self.indefinite = indefinite;
                actions.push(Action::SaveSettings);
                actions.push(Action::StopPreview);
                actions.push(Action::Record);
                actions.push(Action::Lock(true));
            },
            Event::FormRefused => {},
            Event::StopClicked => {
                if self.recording {
                    actions.push(Action::RequestStop);
                }
            },
            Event::HotkeyPressed => {
                if self.recording {
                    actions.push(Action::RequestStop);
                } else {
                    actions.push(Action::ReadForm);
                }
            },
            Event::SourceChanged => {
                if !self.recording {
                    actions.push(Action::StopPreview);
                    actions.push(Action::StartPreview);
                }
            },
            Event::CloseRequested => {
                if self.recording {
                    actions.push(Action::RefuseClose);
                } else {
                    actions.push(Action::Close);
                }
            },
            Event::Interrupted => {
                actions.push(interrupt_action(self.recording));
            },
            Event::Ended => {
                self.recording = false;
                actions.push(Action::Lock(false));
                actions.push(Action::StartPreview);
            },
        }
        assert(actions@ =~= reaction(old(self).recording, event));
        actions
    }

    /// What to say once a recording has ended.
    pub fn finish_recording(&self, outcome: &RecordingOutcome) -> (ending: Ending)
        ensures
            ending.status@ == outcome.status(self.open_ended()),
            text_of(ending.toast) == outcome.toast(),
    {
        match outcome {
            RecordingOutcome::Finished { stopped_early, output } => {
                let mut status = String::new();
                status.append(
                    if !*stopped_early {
                        "Done"
                    } else if self.indefinite {
                        "Stopped"
                    } else {
                        "Stopped early"
                    },
                );
                status.append(": ");
                status.append(from_utf8_lossy(output.as_slice()).as_str());
                assert(status@ =~= outcome.status(self.indefinite));
                Ending { status, toast: None }
            },
            RecordingOutcome::Failed(reason) => {
                let mut toast = String::new();
                toast.append("Recording failed: ");
                toast.append(reason.as_str());
                assert(toast@ =~= "Recording failed: "@ + reason@);
                Ending { status: IDLE_STATUS.to_owned(), toast: Some(toast) }
            },
        }
    }
}

/// What an interrupt does. Nothing has to be put in order while nothing is
/// recorded.
pub fn interrupt_action(recording: bool) -> (action: Action)
    ensures
        seq![action] == reaction(recording, Event::Interrupted),
{
    if recording {
        Action::RequestStop
    } else {
        Action::Exit
    }
}

/// How a recording ended.
#[derive(Debug)]
pub enum RecordingOutcome {
    /// The file has been finished. `output` is the bytes of its path.
    Finished { stopped_early: bool, output: Vec<u8> },
    /// Something went wrong.
    Failed(String),
}

impl RecordingOutcome {
    /// The status to show. "Early" is said only of a duration that was set.
    pub open spec fn status(self, open_ended: bool) -> Seq<char> {
        match self {
            RecordingOutcome::Finished { stopped_early, output } => (if !stopped_early {
                "Done"@
            } else if open_ended {
                "Stopped"@
            } else {
                "Stopped early"@
            }) + ": "@ + lossy_text(output@),
            RecordingOutcome::Failed(_) => IDLE_STATUS@,
        }
    }

    /// The toast to show, if any.
    pub open spec fn toast(self) -> Option<Seq<char>> {
        match self {
            RecordingOutcome::Finished { .. } => None,
            RecordingOutcome::Failed(reason) => Some("Recording failed: "@ + reason@),
        }
    }
}

/// What to say once a recording has ended.
#[derive(Debug)]
pub struct Ending {
    pub status: String,
    pub toast: Option<String>,
}

/// What has come from the recording's thread.
#[derive(Debug)]
pub enum Received {
    /// Nothing yet.
    Nothing,
    /// How the recording ended.
    Outcome(RecordingOutcome),
    /// The thread is gone without a word.
    Gone,
}

/// How the recording ended, if it did. A thread that is gone without a word
/// has failed.
pub fn received_outcome(received: Received) -> (outcome: Option<RecordingOutcome>)
    ensures
        match received {
            Received::Nothing => outcome is None,
            Received::Outcome(o) => outcome == Some(o),
            Received::Gone => outcome matches Some(RecordingOutcome::Failed(reason)) && reason@
                == "recording thread ended unexpectedly"@,
        },
{
    match received {
        Received::Nothing => None,
        Received::Outcome(outcome) => Some(outcome),
        Received::Gone => Some(
            RecordingOutcome::Failed("recording thread ended unexpectedly".to_owned()),
        ),
    }
}

/// Elapsed seconds as minutes and seconds, with two digits at least for
/// each. Minutes never turn into hours.
pub open spec fn elapsed_text(secs: u64) -> Seq<char> {
    zero_pad(decimal((secs / 60) as nat), 2) + ":"@ + zero_pad(decimal((secs % 60) as nat), 2)
}

/// Elapsed seconds as minutes and seconds.
pub fn format_elapsed(secs: u64) -> (text: String)
    ensures
        text@ == elapsed_text(secs),
{
    let minutes = decimal_text(secs / 60);
    let seconds = decimal_text(secs % 60);
    let mut text = String::new();
    push_zero_padded(&mut text, minutes.as_str(), 2);
    text.append(":");
    push_zero_padded(&mut text, seconds.as_str(), 2);
    assert(text@ =~= elapsed_text(secs));
    text
}

/// The status while something is being recorded.
pub fn recording_status(secs: u64) -> (text: String)
    ensures
        text@ == "Recording \u{2014} "@ + elapsed_text(secs),
{
    let mut text = String::new();
    text.append("Recording \u{2014} ");
    text.append(format_elapsed(secs).as_str());
    assert(text@ =~= "Recording \u{2014} "@ + elapsed_text(secs));
    text
}

/// What to tell the user of a preview that could not be started.
pub fn preview_failed(reason: &str) -> (text: String)
    ensures
        text@ == "Couldn't start preview: "@ + reason@,
{
    let mut text = String::new();
    text.append("Couldn't start preview: ");
    text.append(reason);
    assert(text@ =~= "Couldn't start preview: "@ + reason@);
    text
}

/// What the actions so far have led to.
pub ghost struct Effects {
    /// Whether the preview of the selected source is on.
    pub preview: bool,
    /// How many recordings have been started and have not ended.
    pub recordings: int,
    /// How many recordings have been started.
    pub started: int,
    /// How many times settings have been saved.
    pub saved: int,
    /// How many times settings have been shown.
    pub shown: int,
    /// Whether the form is locked.
    pub locked: bool,
    /// Whether the window has been let go or the program left.
    pub gone: bool,
}

impl Effects {
    /// Before anything has happened.
    pub open spec fn start() -> Effects {
        Effects {
            preview: false,
            recordings: 0,
            started: 0,
            saved: 0,
            shown: 0,
            locked: false,
            gone: false,
        }
    }

    /// With one action more.
    pub open spec fn with(self, action: Action) -> Effects {
        match action {
            Action::StartPreview => Effects { preview: true, ..self },
            Action::StopPreview => Effects { preview: false, ..self },
            Action::Record => Effects {
                recordings: self.recordings + 1,
                started: self.started + 1,
                ..self
            },
            Action::SaveSettings => Effects { saved: self.saved + 1, ..self },
            Action::ShowSettings => Effects { shown: self.shown + 1, ..self },
            Action::Lock(locked) => Effects { locked, ..self },
            Action::Close => Effects { gone: true, ..self },
            Action::Exit => Effects { gone: true, ..self },
            _ => self,
        }
    }

    /// With more actions.
    pub open spec fn with_all(self, actions: Seq<Action>) -> Effects
        decreases actions.len(),
    {
        if actions.len() == 0 {
            self
        } else {
            self.with_all(actions.drop_last()).with(actions.last())
        }
    }

    /// After something has happened: a recording that ends is no longer
    /// going on, and the actions follow.
    pub open spec fn after(self, recording: bool, event: Event) -> Effects {
        let told = if event is Ended {
            Effects { recordings: self.recordings - 1, ..self }
        } else {
            self
        };
        told.with_all(reaction(recording, event))
    }
}

/// Whether there is a recording after `events`.
pub open spec fn recording_at(events: Seq<Event>) -> bool
    decreases events.len(),
{
    events.len() > 0 && recording_after(recording_at(events.drop_last()), events.last())
}

/// What `events` have led to.
pub open spec fn effects_of(events: Seq<Event>) -> Effects
    decreases events.len(),
{
    if events.len() == 0 {
        Effects::start()
    } else {
        effects_of(events.drop_last()).after(recording_at(events.drop_last()), events.last())
    }
}

/// Whether `events` is something that can happen to an interface: its window
/// is opened, and after that each event is possible and none comes once the
/// interface is gone.
pub open spec fn course(events: Seq<Event>) -> bool
    decreases events.len(),
{
    if events.len() == 0 {
        false
    } else if events.len() == 1 {
        events[0] == Event::Opened
    } else {
        &&& course(events.drop_last())
        &&& events.last() != Event::Opened
        &&& possible(recording_at(events.drop_last()), events.last())
        &&& !effects_of(events.drop_last()).gone
    }
}

/// Whatever happens, there is never more than one recording; the form is
/// locked exactly while there is one, and the preview of the selected source
/// is on exactly while there is none, so that no two pipelines capture the
/// same source; and the interface never goes away over a recording. Settings
/// are shown once, and saved with every recording that is started.
pub proof fn law_interface_stays_in_step(events: Seq<Event>)
    requires
        course(events),
    ensures
        effects_of(events).recordings == if recording_at(events) {
            1int
        } else {
            0int
        },
        effects_of(events).locked == recording_at(events),
        effects_of(events).preview == !recording_at(events),
        effects_of(events).gone ==> !recording_at(events),
        effects_of(events).shown == 1,
        effects_of(events).saved == effects_of(events).started,
    decreases events.len(),
{
    reveal_with_fuel(Effects::with_all, 5);
    reveal_with_fuel(recording_at, 2);
    reveal_with_fuel(effects_of, 2);
    let before = events.drop_last();
    let recording = recording_at(before);
    let actions = reaction(recording, events.last());
    if events.len() == 1 {
        assert(before.len() == 0);
        assert(actions.drop_last() =~= seq![Action::ShowSettings]);
        assert(actions.drop_last().drop_last() =~= seq![]);
    } else {
        law_interface_stays_in_step(before);
        if actions.len() > 0 {
            assert(actions.drop_last().len() == actions.len() - 1);
            if actions.len() == 4 {
                let three = actions.drop_last();
                assert(three =~= seq![Action::SaveSettings, Action::StopPreview, Action::Record]);
                assert(three.drop_last() =~= seq![Action::SaveSettings, Action::StopPreview]);
                assert(three.drop_last().drop_last() =~= seq![Action::SaveSettings]);
                assert(three.drop_last().drop_last().drop_last() =~= seq![]);
            } else if actions.len() == 2 {
                assert(actions.drop_last() =~= seq![actions[0]]);
                assert(actions.drop_last().drop_last() =~= seq![]);
            } else {
                assert(actions.drop_last() =~= seq![]);
            }
        }
    }
}

/// A recording can be stopped by the Stop button, by the hotkey and by an
/// interrupt, and all of them do the same: they ask it to stop. None of
/// them, and nothing else but its end, takes the recording away, and the
/// window does not close over it.
pub proof fn law_recordings_end_in_order(event: Event)
    requires
        possible(true, event),
    ensures
        event == Event::StopClicked || event == Event::HotkeyPressed || event == Event::Interrupted
            ==> reaction(true, event) == seq![Action::RequestStop],
        event == Event::CloseRequested ==> reaction(true, event) == seq![Action::RefuseClose],
        event != Event::Ended ==> recording_after(true, event),
        !reaction(true, event).contains(Action::Exit),
        !reaction(true, event).contains(Action::Close),
{
}

/// What a form is set to is saved whenever the form is accepted, before
/// anything is recorded from it, and never otherwise; and saved settings are
/// shown before the first preview is started.
pub proof fn law_settings_are_kept_at_the_right_time(recording: bool, event: Event)
    ensures
        reaction(recording, event).contains(Action::SaveSettings) <==> event is FormAccepted,
        reaction(recording, event).contains(Action::Record) <==> event is FormAccepted,
        event is FormAccepted ==> reaction(recording, event)[0] == Action::SaveSettings,
        event == Event::Opened ==> reaction(recording, event) == seq![
            Action::ShowSettings,
            Action::StartPreview,
        ],
{
    let actions = reaction(recording, event);
    if event is FormAccepted {
        assert(actions[0] == Action::SaveSettings);
        assert(actions[2] == Action::Record);
    }
}

/// The hotkey toggles: it does what the Record button does while nothing is
/// recorded, and what the Stop button does while something is.
pub proof fn law_hotkey_toggles(recording: bool)
    ensures
        reaction(recording, Event::HotkeyPressed) == reaction(
            recording,
            if recording {
                Event::StopClicked
            } else {
                Event::RecordClicked
            },
        ),
{
}

/// A preview frame: pixels of four bytes, row by row without gaps.
#[derive(Debug)]
pub struct LatestFrame {
    pub width: i32,
    pub height: i32,
    pub stride: usize,
    pub data: Vec<u8>,
}

/// Whether `len` bytes are a frame of that width and height.
pub open spec fn is_frame(width: i32, height: i32, len: nat) -> bool {
    0 <= width && 0 <= height && width * 4 <= usize::MAX && len == width * 4 * height
}

/// The frame that `data` holds. What is not a frame is left out, which does
/// a preview no harm.
pub fn extract_frame(width: i32, height: i32, data: Vec<u8>) -> (frame: Option<LatestFrame>)
    ensures
        match frame {
            Some(f) => is_frame(width, height, data@.len()) && f.width == width && f.height
                == height && f.stride == width * 4 && f.data@ == data@,
            None => !is_frame(width, height, data@.len()),
        },
{
    if width < 0 || height < 0 {
        return None;
    }
    let stride: u64 = width as u64 * 4;
    if stride > usize::MAX as u64 {
        return None;
    }
    assert(stride * height <= 0x2_0000_0000 * 0x8000_0000) by (nonlinear_arith)
        requires
            0 <= stride <= 0x2_0000_0000,
            0 <= height <= 0x8000_0000,
    ;
    let size: u128 = stride as u128 * height as u128;
    if size != data.len() as u128 {
        return None;
    }
    Some(LatestFrame { width, height, stride: stride as usize, data })
}

/// Elapsed seconds are shown as minutes and seconds that add up to them,
/// with two digits for the seconds and two at least for the minutes.
pub proof fn law_elapsed_time_adds_up(secs: u64)
    ensures
        ({
            let t = elapsed_text(secs);
            let n = t.len() as int;
            &&& n >= 5
            &&& t[n - 3] == ':'
            &&& positional(t.skip(n - 2), 10) < 60
            &&& positional(t.take(n - 3), 10) * 60 + positional(t.skip(n - 2), 10) == secs
            &&& secs < 6000 ==> n == 5
        }),
{
    reveal_strlit(":");
    let m = (secs / 60) as nat;
    let s = (secs % 60) as nat;
    law_zeros_leave_numbers_alone(m, 2);
    law_zeros_leave_numbers_alone(s, 2);
    lemma_two_digits(s);
    if secs < 6000 {
        lemma_two_digits(m);
    }
    let t = elapsed_text(secs);
    let n = t.len() as int;
    assert(t.skip(n - 2) =~= zero_pad(decimal(s), 2));
    assert(t.take(n - 3) =~= zero_pad(decimal(m), 2));
}

proof fn lemma_two_digits(n: nat)
    requires
        n < 100,
    ensures
        decimal(n).len() <= 2,
{
    law_numbers_have_no_leading_zero(n, 10);
    if n >= 10 {
        law_numbers_have_no_leading_zero(n / 10, 10);
    }
}

/// A file that was finished is named with how that came: done, or stopped,
/// which is early only if a duration was set. A failure names none, and says
/// why.
pub proof fn law_endings_are_told_as_they_were(outcome: RecordingOutcome, open_ended: bool)
    ensures
        outcome matches RecordingOutcome::Finished { stopped_early, output } ==> {
            &&& outcome.toast() is None
            &&& !stopped_early ==> outcome.status(open_ended) == "Done: "@ + lossy_text(output@)
            &&& stopped_early && open_ended ==> outcome.status(open_ended) == "Stopped: "@
                + lossy_text(output@)
            &&& stopped_early && !open_ended ==> outcome.status(open_ended) == "Stopped early: "@
                + lossy_text(output@)
        },
        outcome matches RecordingOutcome::Failed(reason) ==> outcome.status(open_ended) == "Idle"@
            && (outcome.toast() matches Some(toast) && mentions(toast, ": "@ + reason@)),
{
    reveal_strlit(": ");
    match outcome {
        RecordingOutcome::Finished { stopped_early, output } => {
            reveal_strlit("Done");
            reveal_strlit("Done: ");
            reveal_strlit("Stopped");
            reveal_strlit("Stopped: ");
            reveal_strlit("Stopped early");
            reveal_strlit("Stopped early: ");
            let text = outcome.status(open_ended);
            if !stopped_early {
                assert(text =~= "Done: "@ + lossy_text(output@));
            } else if open_ended {
                assert(text =~= "Stopped: "@ + lossy_text(output@));
            } else {
                assert(text =~= "Stopped early: "@ + lossy_text(output@));
            }
        },
        RecordingOutcome::Failed(reason) => {
            reveal_strlit("Recording failed: ");
            let before = "Recording failed: "@.take(16);
            let part = ": "@ + reason@;
            assert("Recording failed: "@ + reason@ =~= before + part + seq![]);
            lemma_mentions(before, part, seq![]);
        },
    }
}

/// While nothing is recorded, the Record button has the form read, another
/// source gets a preview of its own, the window closes when it is asked to,
/// and an interrupt leaves at once; there is nothing to stop.
pub proof fn law_idle_interface_does_as_it_is_told()
    ensures
        reaction(false, Event::RecordClicked) == seq![Action::ReadForm],
        reaction(false, Event::HotkeyPressed) == seq![Action::ReadForm],
        reaction(false, Event::StopClicked).len() == 0,
        reaction(false, Event::FormRefused).len() == 0,
        reaction(false, Event::SourceChanged) == seq![Action::StopPreview, Action::StartPreview],
        reaction(false, Event::CloseRequested) == seq![Action::Close],
        reaction(false, Event::Interrupted) == seq![Action::Exit],
{
}

/// A recording starts once the preview is off, and the form is locked for
/// it; when it ends the form is unlocked before the preview is back. Until
/// then another source changes nothing.
pub proof fn law_recordings_and_previews_take_turns(indefinite: bool)
    ensures
        reaction(false, Event::FormAccepted(indefinite)) == seq![
            Action::SaveSettings,
            Action::StopPreview,
            Action::Record,
            Action::Lock(true),
        ],
        reaction(true, Event::Ended) == seq![Action::Lock(false), Action::StartPreview],
        reaction(true, Event::SourceChanged).len() == 0,
{
}

/// Only an accepted form begins a recording, and only its end ends it.
pub proof fn law_only_forms_begin_and_ends_end_recordings(recording: bool, event: Event)
    ensures
        event is FormAccepted ==> recording_after(recording, event),
        event is Ended ==> !recording_after(recording, event),
        !(event is FormAccepted) && !(event is Ended) ==> recording_after(recording, event)
            == recording,
{
}

/// Bytes are a frame exactly if there are four of them for every pixel.
pub proof fn law_frames_have_four_bytes_a_pixel(width: i32, height: i32, len: nat)
    ensures
        is_frame(width, height, len) ==> width >= 0 && height >= 0 && len == 4 * (width * height),
        width >= 0 && height >= 0 && len == 4 * (width * height) && width * 4 <= usize::MAX
            ==> is_frame(width, height, len),
{
    assert(width * 4 * height == 4 * (width * height)) by (nonlinear_arith);
}

} // verus!
