//! The form of the graphical interface: what it means, and what of it is
//! kept for the next launch.
use vstd::prelude::*;
use vstd::utf8::{encode_utf8, encode_utf8_valid_utf8};
use crate::cli::{
    container_for, ends_like_mp4, law_container_goes_by_how_the_path_ends, AudioMode, Container,
    RecordArgs, Span,
};
use crate::commands::chosen_container;
use crate::config::{copy_text, law_settings_come_back, restored, to_store, Settings, SettingsModel};
use crate::duration::{duration_of, parse_duration, DurationError};
use crate::gui::{
    audio_dropdown_index, build_capture_source, choice_at, is_preset, law_audio_places,
    law_choices_capture_what_they_name, law_preset_places, law_presets_differ,
    law_selected_choice_is_taken,
    monitor_to_save, place_of_monitor, preset_dropdown_index, selected_source_choice,
    settings_source_monitor, source_dropdown_index, source_of, SourceChoice, AUDIO_MODES,
    DEFAULT_PRESET_INDEX, PRESETS,
};
use crate::outside::humantime_reading;
use crate::paths::copy_bytes;
use crate::pipeline::{ConfigModel, RecordConfig};
use crate::source::{source_element, CaptureSource, SourceModel};
use crate::text::{is_blank, lemma_mentions, mentions, text_is_blank};
use crate::wiring::{assembled, law_recording_is_assembled_in_order};

verus! {

/// How many seconds a recording without a set duration goes on for at most:
/// a day.
pub const INDEFINITE_SECS: u64 = 86_400;

/// What is filled in. The dropdowns are given by the places that are
/// selected in them.
#[derive(Debug)]
pub struct Form {
    pub source: u32,
    pub audio: u32,
    pub audio_device: String,
    pub framerate: u32,
    pub bitrate_kbps: u32,
    pub preset: u32,
    pub output: String,
    pub duration: String,
}

/// The model of a `Form`.
pub ghost struct FormModel {
    pub source: u32,
    pub audio: u32,
    pub audio_device: Seq<char>,
    pub framerate: u32,
    pub bitrate_kbps: u32,
    pub preset: u32,
    pub output: Seq<char>,
    pub duration: Seq<char>,
}

impl View for Form {
    type V = FormModel;

    open spec fn view(&self) -> FormModel {
        FormModel {
            source: self.source,
            audio: self.audio,
            audio_device: self.audio_device@,
            framerate: self.framerate,
            bitrate_kbps: self.bitrate_kbps,
            preset: self.preset,
            output: self.output@,
            duration: self.duration@,
        }
    }
}

/// Why a form cannot be recorded from.
#[derive(Debug)]
pub enum FormError {
    /// There is no output path.
    NoOutput,
    /// The duration is none.
    BadDuration(String),
    /// A device is set for a mode that always takes the default ones.
    DeviceWithBoth,
}

/// The model of a `FormError`.
pub ghost enum FormProblem {
    NoOutput,
    BadDuration(Seq<char>),
    DeviceWithBoth,
}

impl View for FormError {
    type V = FormProblem;

    open spec fn view(&self) -> FormProblem {
        match self {
            FormError::NoOutput => FormProblem::NoOutput,
            FormError::BadDuration(text) => FormProblem::BadDuration(text@),
            FormError::DeviceWithBoth => FormProblem::DeviceWithBoth,
        }
    }
}

impl FormProblem {
    /// What to tell the user.
    pub open spec fn text(self) -> Seq<char> {
        match self {
            FormProblem::NoOutput => "Choose an output path first"@,
            FormProblem::BadDuration(duration) => "Invalid duration \""@ + duration
                + "\" (try e.g. \"10s\", \"2m30s\", or leave it blank)"@,
            FormProblem::DeviceWithBoth => "Audio device can't be set for Mic + System audio (it always mixes the default mic with the default sink's monitor)"@,
        }
    }
}

impl FormError {
    /// What to tell the user.
    pub fn message(&self) -> (message: String)
        ensures
            message@ == self@.text(),
    {
        let mut message = String::new();
        match self {
            FormError::NoOutput => {
                message.append("Choose an output path first");
            },
            FormError::BadDuration(duration) => {
                message.append("Invalid duration \"");
                message.append(duration.as_str());
                message.append("\" (try e.g. \"10s\", \"2m30s\", or leave it blank)");
            },
            FormError::DeviceWithBoth => {
                message.append(
                    "Audio device can't be set for Mic + System audio (it always mixes the default mic with the default sink's monitor)",
                );
            },
        }
        assert(message@ =~= self@.text());
        message
    }
}

/// Everything that a recording begins with.
#[derive(Debug)]
pub struct Start {
    pub source: CaptureSource,
    pub cfg: RecordConfig,
    pub duration: Span,
    /// Whether no duration was set.
    pub indefinite: bool,
    /// What to keep for the next launch.
    pub settings: Settings,
}

/// The model of a `Start`.
pub ghost struct StartModel {
    pub source: SourceModel,
    pub cfg: ConfigModel,
    pub duration: Span,
    pub indefinite: bool,
    pub settings: SettingsModel,
}

impl View for Start {
    type V = StartModel;

    open spec fn view(&self) -> StartModel {
        StartModel {
            source: self.source@,
            cfg: self.cfg@,
            duration: self.duration,
            indefinite: self.indefinite,
            settings: self.settings@,
        }
    }
}

/// Whether the selected places of the two fixed dropdowns are there.
pub open spec fn selected(form: FormModel) -> bool {
    form.audio < 4 && form.preset < 10
}

/// Whether the places that are looked up for a form are there, where `parsed`
/// is what its duration reads as. The audio mode is looked up once output
/// and duration are in order, the preset once the device is too.
pub open spec fn places_there(form: FormModel, parsed: Result<Span, DurationError>) -> bool {
    !is_blank(form.output) && (is_blank(form.duration) || parsed is Ok) ==> {
        &&& form.audio < 4
        &&& AUDIO_MODES[form.audio as int] == AudioMode::Both && device(form) is Some || form.preset
            < 10
    }
}

/// Whether the places that are looked up for a form are there, where `parsed`
/// is what its duration reads as.
pub fn has_places(form: &Form, parsed: Result<Span, DurationError>) -> (there: bool)
    ensures
        there == places_there(form@, parsed),
{
    if text_is_blank(form.output.as_str()) {
        return true;
    }
    if !text_is_blank(form.duration.as_str()) && parsed.is_err() {
        return true;
    }
    if form.audio >= 4 {
        return false;
    }
    (AUDIO_MODES[form.audio as usize] == AudioMode::Both && !text_is_blank(
        form.audio_device.as_str(),
    )) || form.preset < 10
}

/// The device that is set, if any.
pub open spec fn device(form: FormModel) -> Option<Seq<char>> {
    if is_blank(form.audio_device) {
        None
    } else {
        Some(form.audio_device)
    }
}

/// The settings that a form stands for.
pub open spec fn form_settings(form: FormModel, choices: Seq<SourceChoice>) -> SettingsModel {
    SettingsModel {
        source_monitor: monitor_to_save(choices, form.source),
        audio_mode: AUDIO_MODES[form.audio as int],
        audio_device: device(form),
        framerate: form.framerate,
        bitrate_kbps: form.bitrate_kbps,
        speed_preset: PRESETS[form.preset as int]@,
    }
}

/// The recording that a form stands for, lasting `duration`.
pub open spec fn form_start(
    form: FormModel,
    choices: Seq<SourceChoice>,
    duration: Span,
    indefinite: bool,
) -> StartModel {
    StartModel {
        source: source_of(choice_at(choices, form.source)),
        cfg: ConfigModel {
            output_path: encode_utf8(form.output),
            framerate: form.framerate,
            bitrate_kbps: form.bitrate_kbps,
            speed_preset: PRESETS[form.preset as int]@,
            container: container_for(encode_utf8(form.output)),
            audio_mode: AUDIO_MODES[form.audio as int],
            audio_device: device(form),
        },
        duration,
        indefinite,
        settings: form_settings(form, choices),
    }
}

/// What comes of a form, where `parsed` is what its duration reads as. A
/// blank duration records until it is stopped, for a day at most.
pub open spec fn checked(
    form: FormModel,
    choices: Seq<SourceChoice>,
    parsed: Result<Span, DurationError>,
) -> Result<StartModel, FormProblem> {
    let indefinite = is_blank(form.duration);
    if is_blank(form.output) {
        Err(FormProblem::NoOutput)
    } else if !indefinite && parsed is Err {
        Err(FormProblem::BadDuration(form.duration))
    } else if AUDIO_MODES[form.audio as int] == AudioMode::Both && device(form) is Some {
        Err(FormProblem::DeviceWithBoth)
    } else if indefinite {
        Ok(form_start(form, choices, Span { secs: INDEFINITE_SECS, nanos: 0 }, true))
    } else {
        Ok(form_start(form, choices, parsed->Ok_0, false))
    }
}

/// What comes of a form, where `parsed` is what its duration reads as.
pub fn check_form(
    form: &Form,
    choices: &Vec<SourceChoice>,
    parsed: Result<Span, DurationError>,
) -> (start: Result<Start, FormError>)
    requires
        places_there(form@, parsed),
    ensures
        match start {
            Ok(s) => checked(form@, choices@, parsed) == Ok::<_, FormProblem>(s@),
            Err(e) => checked(form@, choices@, parsed) == Err::<StartModel, _>(e@),
        },
{
    if text_is_blank(form.output.as_str()) {
        return Err(FormError::NoOutput);
    }
    let indefinite = text_is_blank(form.duration.as_str());
    let duration = if indefinite {
        Span { secs: INDEFINITE_SECS, nanos: 0 }
    } else {
        match parsed {
            Ok(span) => span,
            Err(_) => return Err(FormError::BadDuration(form.duration.clone())),
        }
    };
    let output_path = copy_bytes(form.output.as_str().as_bytes());
    let source = build_capture_source(selected_source_choice(choices, form.source));
    let audio_mode = AUDIO_MODES[form.audio as usize];
    let container = Container::infer_from_path(output_path.as_slice());
    let audio_device = if text_is_blank(form.audio_device.as_str()) {
        None
    } else {
        Some(form.audio_device.clone())
    };
    if audio_mode == AudioMode::Both && audio_device.is_some() {
        return Err(FormError::DeviceWithBoth);
    }
    let preset = PRESETS[form.preset as usize];
    let settings = Settings {
        source_monitor: settings_source_monitor(choices, form.source),
        audio_mode,
        audio_device: copy_text(&audio_device),
        framerate: form.framerate,
        bitrate_kbps: form.bitrate_kbps,
        speed_preset: preset.to_owned(),
    };
    let cfg = RecordConfig {
        output_path,
        framerate: form.framerate,
        bitrate_kbps: form.bitrate_kbps,
        speed_preset: preset.to_owned(),
        container,
        audio_mode,
        audio_device,
    };
    Ok(Start { source, cfg, duration, indefinite, settings })
}

/// What comes of a form.
pub fn start_recording(form: &Form, choices: &Vec<SourceChoice>) -> (start: Result<
    Start,
    FormError,
>)
    requires
        places_there(form@, duration_of(form.duration@, humantime_reading(form.duration@))),
    ensures
        ({
            let parsed = duration_of(form.duration@, humantime_reading(form.duration@));
            match start {
                Ok(s) => checked(form@, choices@, parsed) == Ok::<_, FormProblem>(s@),
                Err(e) => checked(form@, choices@, parsed) == Err::<StartModel, _>(e@),
            }
        }),
        start matches Ok(s) ==> s.duration.valid(),
{
    let parsed = parse_duration(form.duration.as_str());
    check_form(form, choices, parsed)
}

/// What comes of a form, unless a place is looked up for it that is not
/// there.
pub fn start_if_selected(form: &Form, choices: &Vec<SourceChoice>) -> (start: Option<
    Result<Start, FormError>,
>)
    ensures
        ({
            let parsed = duration_of(form.duration@, humantime_reading(form.duration@));
            match start {
                Some(Ok(s)) => places_there(form@, parsed) && checked(form@, choices@, parsed)
                    == Ok::<_, FormProblem>(s@),
                Some(Err(e)) => places_there(form@, parsed) && checked(form@, choices@, parsed)
                    == Err::<StartModel, _>(e@),
                None => !places_there(form@, parsed),
            }
        }),
        start matches Some(Ok(s)) ==> s.duration.valid(),
{
    let parsed = parse_duration(form.duration.as_str());
    if has_places(form, parsed) {
        Some(start_recording(form, choices))
    } else {
        None
    }
}

/// What the controls show at launch.
#[derive(Debug)]
pub struct Selections {
    pub source: u32,
    pub audio: u32,
    pub audio_device: String,
    pub framerate: u32,
    pub bitrate_kbps: u32,
    pub preset: u32,
}

/// Whether the controls show `settings`: a monitor that is gone becomes the
/// full screen, and a preset that there is not becomes the default one.
pub open spec fn shows(
    selections: Selections,
    settings: SettingsModel,
    choices: Seq<SourceChoice>,
) -> bool {
    &&& selections.source == place_of_monitor(choices, settings.source_monitor)
    &&& selections.audio < 4 && AUDIO_MODES[selections.audio as int] == settings.audio_mode
    &&& selections.audio_device@ == match settings.audio_device {
        Some(d) => d,
        None => ""@,
    }
    &&& selections.framerate == settings.framerate
    &&& selections.bitrate_kbps == settings.bitrate_kbps
    &&& selections.preset < 10
    &&& if is_preset(settings.speed_preset) {
        PRESETS[selections.preset as int]@ == settings.speed_preset
    } else {
        selections.preset == DEFAULT_PRESET_INDEX
    }
}

/// What the controls show at launch for the given settings.
pub fn apply_settings(settings: &Settings, choices: &Vec<SourceChoice>) -> (selections: Selections)
    ensures
        shows(selections, settings@, choices@),
{
    Selections {
        source: source_dropdown_index(choices, settings.source_monitor),
        audio: audio_dropdown_index(settings.audio_mode),
        audio_device: match &settings.audio_device {
            Some(device) => device.clone(),
            None => "".to_owned(),
        },
        framerate: settings.framerate,
        bitrate_kbps: settings.bitrate_kbps,
        preset: preset_dropdown_index(settings.speed_preset.as_str()),
    }
}

/// What a form was recorded with is read back from the settings file and
/// shown at the next launch, as long as the same sources are there. A window
/// is not: the full screen stands in for it. A blank device comes back
/// empty.
pub proof fn law_form_comes_back(
    form: FormModel,
    choices: Seq<SourceChoice>,
    settings: SettingsModel,
    selections: Selections,
)
    requires
        selected(form),
        choices.len() > 0 && choices[0] == SourceChoice::FullScreen,
        restored(to_store(form_settings(form, choices)), settings),
        shows(selections, settings, choices),
    ensures
        selections.source == if choice_at(choices, form.source) is Monitor {
            form.source
        } else {
            0
        },
        selections.audio == form.audio,
        selections.audio_device@ == if is_blank(form.audio_device) {
            ""@
        } else {
            form.audio_device
        },
        selections.framerate == form.framerate,
        selections.bitrate_kbps == form.bitrate_kbps,
        selections.preset == form.preset,
{
    law_settings_come_back(form_settings(form, choices), settings);
    assert(PRESETS[form.preset as int]@ == form_settings(form, choices).speed_preset);
    assert(is_preset(PRESETS[form.preset as int]@));
    law_presets_differ(selections.preset as int, form.preset as int);
}

/// A form that is accepted stands for a recording whose pipeline is never
/// refused: its path can be written down, and no device is set where none
/// may be.
pub proof fn law_accepted_forms_are_not_refused(
    form: FormModel,
    choices: Seq<SourceChoice>,
    parsed: Result<Span, DurationError>,
    start: StartModel,
)
    requires
        checked(form, choices, parsed) == Ok::<_, FormProblem>(start),
    ensures
        source_element(start.source) is Ok,
        assembled(start.source, start.cfg, true).orderly,
        !assembled(start.source, start.cfg, true).refused,
{
    encode_utf8_valid_utf8(form.output);
    law_recording_is_assembled_in_order(start.source, start.cfg, true);
}

/// A form is accepted exactly if its output is not blank, its duration is
/// blank or reads as one, and no device is set where the microphone and the
/// system are recorded together. Otherwise the first of these that fails is
/// what is wrong with it.
pub proof fn law_forms_are_accepted_when_in_order(
    form: FormModel,
    choices: Seq<SourceChoice>,
    parsed: Result<Span, DurationError>,
)
    requires
        selected(form),
    ensures
        ({
            let outcome = checked(form, choices, parsed);
            let no_output = is_blank(form.output);
            let no_duration = !is_blank(form.duration) && parsed is Err;
            let with_both = form.audio == 3 && !is_blank(form.audio_device);
            &&& outcome is Ok <==> !no_output && !no_duration && !with_both
            &&& outcome == Err::<StartModel, _>(FormProblem::NoOutput) <==> no_output
            &&& outcome == Err::<StartModel, _>(FormProblem::BadDuration(form.duration))
                <==> !no_output && no_duration
            &&& outcome == Err::<StartModel, _>(FormProblem::DeviceWithBoth) <==> !no_output
                && !no_duration && with_both
        }),
{
    law_audio_places();
}

/// Of a duration, a form takes what it reads as; without one the recording
/// goes on until it is stopped, for a day of twenty-four hours at most.
pub proof fn law_forms_set_the_length(
    form: FormModel,
    choices: Seq<SourceChoice>,
    parsed: Result<Span, DurationError>,
    start: StartModel,
)
    requires
        checked(form, choices, parsed) == Ok::<_, FormProblem>(start),
    ensures
        start.indefinite == is_blank(form.duration),
        is_blank(form.duration) ==> start.duration.secs == 24 * 60 * 60 && start.duration.nanos
            == 0,
        !is_blank(form.duration) ==> parsed == Ok::<_, DurationError>(start.duration),
{
}

/// An accepted form records what is filled in: to the path that the output
/// spells, with its rates, the preset and the audio mode at the selected
/// places, and its device unless that is blank.
pub proof fn law_forms_record_what_is_filled_in(
    form: FormModel,
    choices: Seq<SourceChoice>,
    parsed: Result<Span, DurationError>,
    start: StartModel,
)
    requires
        checked(form, choices, parsed) == Ok::<_, FormProblem>(start),
    ensures
        start.cfg.output_path == encode_utf8(form.output),
        start.cfg.framerate == form.framerate,
        start.cfg.bitrate_kbps == form.bitrate_kbps,
        form.preset < 10 ==> start.cfg.speed_preset == PRESETS[form.preset as int]@,
        form.audio == 0 ==> start.cfg.audio_mode == AudioMode::Off,
        form.audio == 1 ==> start.cfg.audio_mode == AudioMode::Mic,
        form.audio == 2 ==> start.cfg.audio_mode == AudioMode::System,
        form.audio == 3 ==> start.cfg.audio_mode == AudioMode::Both,
        is_blank(form.audio_device) ==> start.cfg.audio_device is None,
        !is_blank(form.audio_device) ==> start.cfg.audio_device == Some(form.audio_device),
{
    law_audio_places();
}

/// An accepted form captures the entry that is selected, and the full screen
/// if none is.
pub proof fn law_forms_capture_the_selected_entry(
    form: FormModel,
    choices: Seq<SourceChoice>,
    parsed: Result<Span, DurationError>,
    start: StartModel,
)
    requires
        checked(form, choices, parsed) == Ok::<_, FormProblem>(start),
    ensures
        start.source matches SourceModel::X11Screen(screen) && screen.show_pointer
            && screen.display_name is None && screen.region == (if form.source < choices.len() {
            match choices[form.source as int] {
                SourceChoice::Monitor(r) => Some(r),
                _ => None,
            }
        } else {
            None
        }) && screen.xid == (if form.source < choices.len() {
            match choices[form.source as int] {
                SourceChoice::Window(id) => Some(id),
                _ => None,
            }
        } else {
            None
        }),
{
    law_selected_choice_is_taken(choices, form.source);
    law_choices_capture_what_they_name(choice_at(choices, form.source));
}

/// What an accepted form keeps for the next launch is what it records with.
pub proof fn law_forms_keep_what_they_record_with(
    form: FormModel,
    choices: Seq<SourceChoice>,
    parsed: Result<Span, DurationError>,
    start: StartModel,
)
    requires
        checked(form, choices, parsed) == Ok::<_, FormProblem>(start),
    ensures
        start.settings.framerate == form.framerate,
        start.settings.bitrate_kbps == form.bitrate_kbps,
        start.settings.speed_preset == start.cfg.speed_preset,
        start.settings.audio_mode == start.cfg.audio_mode,
        start.settings.audio_device == start.cfg.audio_device,
        start.settings.source_monitor == if 0 < form.source < choices.len()
            && choices[form.source as int] is Monitor {
            Some((form.source - 1) as u32)
        } else {
            None
        },
{
}

/// The container of an accepted form goes by how its output path ends: MP4
/// for a name with the extension mp4, m4v or mov, in any mixture of capital
/// and small letters, and Matroska for any other. A path that ends in a slash
/// goes by what is in front of that.
pub proof fn law_form_container_goes_by_how_the_output_ends(
    form: FormModel,
    choices: Seq<SourceChoice>,
    parsed: Result<Span, DurationError>,
    start: StartModel,
)
    requires
        checked(form, choices, parsed) == Ok::<_, FormProblem>(start),
        encode_utf8(form.output).last() != 0x2f && encode_utf8(form.output).last() != 0x2e,
    ensures
        ({
            let path = encode_utf8(form.output);
            &&& start.cfg.container == Container::Mp4 <==> ends_like_mp4(path) && path.len() > 4
                && path[path.len() - 5] != 0x2f
            &&& start.cfg.container == Container::Mkv || start.cfg.container == Container::Mp4
        }),
{
    encode_utf8_valid_utf8(form.output);
    if encode_utf8(form.output).len() > 0 {
        law_container_goes_by_how_the_path_ends(encode_utf8(form.output));
    }
}

/// For one and the same path, the form and the command line choose the same
/// container, unless the command line asks for one.
pub proof fn law_form_and_command_line_choose_alike(
    form: FormModel,
    choices: Seq<SourceChoice>,
    parsed: Result<Span, DurationError>,
    start: StartModel,
    args: RecordArgs,
)
    requires
        checked(form, choices, parsed) == Ok::<_, FormProblem>(start),
        args.container is None,
        args.output@ == encode_utf8(form.output),
    ensures
        start.cfg.container == chosen_container(args),
        start.cfg.output_path == args.output@,
{
}

/// What is wrong with a duration is told with the duration.
pub proof fn law_form_problems_quote_the_duration(duration: Seq<char>)
    ensures
        mentions(
            FormProblem::BadDuration(duration).text(),
            "Invalid duration \""@ + duration + "\""@,
        ),
{
    reveal_strlit("\" (try e.g. \"10s\", \"2m30s\", or leave it blank)");
    reveal_strlit("\"");
    let part = "Invalid duration \""@ + duration + "\""@;
    let after = "\" (try e.g. \"10s\", \"2m30s\", or leave it blank)"@.skip(1);
    assert(FormProblem::BadDuration(duration).text() =~= Seq::<char>::empty() + part + after);
    lemma_mentions(seq![], part, after);
}

/// The controls show what the settings say, and an unknown preset as the
/// default one.
pub proof fn law_controls_show_the_settings(
    selections: Selections,
    settings: SettingsModel,
    choices: Seq<SourceChoice>,
)
    requires
        shows(selections, settings, choices),
    ensures
        selections.framerate == settings.framerate,
        selections.bitrate_kbps == settings.bitrate_kbps,
        settings.audio_mode == AudioMode::Off <==> selections.audio == 0,
        settings.audio_mode == AudioMode::Mic <==> selections.audio == 1,
        settings.audio_mode == AudioMode::System <==> selections.audio == 2,
        settings.audio_mode == AudioMode::Both <==> selections.audio == 3,
        settings.audio_device matches Some(d) ==> selections.audio_device@ == d,
        settings.audio_device is None ==> selections.audio_device@.len() == 0,
        selections.preset < 10,
        forall|i: int|
            0 <= i < 10 && (#[trigger] PRESETS[i])@ == settings.speed_preset ==> selections.preset
                == i,
        (forall|i: int| 0 <= i < 10 ==> (#[trigger] PRESETS[i])@ != settings.speed_preset)
            ==> PRESETS[selections.preset as int]@ == "veryfast"@,
        settings.source_monitor is None ==> selections.source == 0,
        settings.source_monitor matches Some(k) ==> selections.source == if k + 1 < choices.len()
            && k + 1 <= u32::MAX && choices[k + 1] is Monitor {
            k + 1
        } else {
            0
        },
{
    reveal_strlit("");
    law_audio_places();
    law_preset_places();
    assert forall|i: int|
        0 <= i < 10 && (#[trigger] PRESETS[i])@ == settings.speed_preset implies selections.preset
        == i by {
        assert(is_preset(settings.speed_preset));
        law_presets_differ(selections.preset as int, i);
    }
}

/// A form with both of its fixed dropdowns set can always be made something
/// of, and so can one without an output; an audio mode that there is not is
/// missed once output and duration are in order, and a preset that there is
/// not once the device is, too.
pub proof fn law_places_are_missed_in_order(form: FormModel, parsed: Result<Span, DurationError>)
    ensures
        form.audio < 4 && form.preset < 10 ==> places_there(form, parsed),
        is_blank(form.output) ==> places_there(form, parsed),
        !is_blank(form.duration) && parsed is Err ==> places_there(form, parsed),
        ({
            let in_order = !is_blank(form.output) && (is_blank(form.duration) || parsed is Ok);
            &&& in_order && form.audio >= 4 ==> !places_there(form, parsed)
            &&& in_order && form.audio < 3 && form.preset >= 10 ==> !places_there(form, parsed)
            &&& in_order && form.audio == 3 && form.preset >= 10 ==> (places_there(form, parsed)
                <==> !is_blank(form.audio_device))
        }),
{
    law_audio_places();
}

} // verus!
