//! That models hold what the values themselves do, and nothing else.
use vstd::prelude::*;
use crate::config::{text_of, Settings, StoredSettings};
use crate::form::{Form, FormError, FormProblem, Start};
use crate::pipeline::RecordConfig;
use crate::plan::{
    Action, ActionModel, Caps, CapsValue, CapsValueModel, Element, Plan, Value, ValueModel,
};
use crate::portal::{OptionModel, OptionValue};
use crate::source::{CaptureSource, SourceModel, X11ScreenConfig};
use crate::x11_query::{MonitorInfo, WindowInfo};

verus! {

/// A text that may be missing is modelled by its characters.
pub proof fn law_missing_texts_are_missing(text: Option<String>)
    ensures
        text matches Some(s) ==> text_of(text) == Some(s@),
        text is None ==> text_of(text) is None,
{
}

/// A media format is modelled field by field.
pub proof fn law_formats_are_modelled_as_they_are(caps: Caps, i: int)
    requires
        0 <= i < caps.fields@.len(),
    ensures
        caps@.media == caps.media@,
        caps@.fields.len() == caps.fields@.len(),
        caps@.fields[i].0 == caps.fields@[i].name@,
        caps@.fields[i].1 == match caps.fields@[i].value {
            CapsValue::Int(n) => CapsValueModel::Int(n),
            CapsValue::Fraction(n, d) => CapsValueModel::Fraction(n, d),
            CapsValue::Text(s) => CapsValueModel::Text(s@),
        },
{
}

/// An element is modelled by its kind, its name and its properties, value by
/// value.
pub proof fn law_elements_are_modelled_as_they_are(element: Element, i: int)
    requires
        0 <= i < element.properties@.len(),
    ensures
        element@.factory == element.factory@,
        element.name matches Some(name) ==> element@.name == Some(name@),
        element.name is None ==> element@.name is None,
        element@.properties.len() == element.properties@.len(),
        element@.properties[i].0 == element.properties@[i].name@,
        element@.properties[i].1 == match element.properties@[i].value {
            Value::Bool(b) => ValueModel::Bool(b),
            Value::Int(n) => ValueModel::Int(n),
            Value::Unsigned(n) => ValueModel::Unsigned(n),
            Value::Long(n) => ValueModel::Long(n),
            Value::Text(s) => ValueModel::Text(s@),
            Value::Keyword(s) => ValueModel::Keyword(s@),
            Value::Caps(c) => ValueModel::Caps(c@),
            Value::DefaultMonitor => ValueModel::DefaultMonitor,
        },
{
}

/// A plan is modelled step by step.
pub proof fn law_plans_are_modelled_as_they_are(plan: Plan, i: int)
    requires
        0 <= i < plan.steps@.len(),
    ensures
        plan@.len() == plan.steps@.len(),
        plan@[i].context == plan.steps@[i].context@,
        plan@[i].action == match plan.steps@[i].action {
            Action::Make(part, element) => ActionModel::Make(part, element@),
            Action::Add(parts) => ActionModel::Add(parts@),
            Action::Link(parts) => ActionModel::Link(parts@),
            Action::LookupMonitor => ActionModel::LookupMonitor,
            Action::RejectPath => ActionModel::RejectPath,
            Action::Refuse => ActionModel::Refuse,
        },
{
}

/// What a recording is made from is modelled as it is.
pub proof fn law_recordings_are_modelled_as_they_are(
    cfg: RecordConfig,
    screen: X11ScreenConfig,
    source: CaptureSource,
)
    ensures
        cfg@.output_path == cfg.output_path@,
        cfg@.framerate == cfg.framerate,
        cfg@.bitrate_kbps == cfg.bitrate_kbps,
        cfg@.speed_preset == cfg.speed_preset@,
        cfg@.container == cfg.container,
        cfg@.audio_mode == cfg.audio_mode,
        cfg.audio_device matches Some(d) ==> cfg@.audio_device == Some(d@),
        cfg.audio_device is None ==> cfg@.audio_device is None,
        screen.display_name matches Some(d) ==> screen@.display_name == Some(d@),
        screen.display_name is None ==> screen@.display_name is None,
        screen@.region == screen.region,
        screen@.xid == screen.xid,
        screen@.show_pointer == screen.show_pointer,
        source@ == match source {
            CaptureSource::X11Screen(s) => SourceModel::X11Screen(s@),
            CaptureSource::Portal(p) => SourceModel::Portal(p),
        },
{
}

/// What is filled in, what comes of it and what is wrong with it are modelled
/// as they are.
pub proof fn law_forms_are_modelled_as_they_are(form: Form, start: Start, error: FormError)
    ensures
        form@.source == form.source,
        form@.audio == form.audio,
        form@.audio_device == form.audio_device@,
        form@.framerate == form.framerate,
        form@.bitrate_kbps == form.bitrate_kbps,
        form@.preset == form.preset,
        form@.output == form.output@,
        form@.duration == form.duration@,
        start@.source == start.source@,
        start@.cfg == start.cfg@,
        start@.duration == start.duration,
        start@.indefinite == start.indefinite,
        start@.settings == start.settings@,
        error@ == match error {
            FormError::NoOutput => FormProblem::NoOutput,
            FormError::BadDuration(text) => FormProblem::BadDuration(text@),
            FormError::DeviceWithBoth => FormProblem::DeviceWithBoth,
        },
{
}

/// Settings, and what a file holds of them, are modelled as they are.
pub proof fn law_settings_are_modelled_as_they_are(settings: Settings, stored: StoredSettings)
    ensures
        settings@.source_monitor == settings.source_monitor,
        settings@.audio_mode == settings.audio_mode,
        settings.audio_device matches Some(d) ==> settings@.audio_device == Some(d@),
        settings.audio_device is None ==> settings@.audio_device is None,
        settings@.framerate == settings.framerate,
        settings@.bitrate_kbps == settings.bitrate_kbps,
        settings@.speed_preset == settings.speed_preset@,
        stored@.source_monitor == stored.source_monitor,
        stored.audio_mode matches Some(m) ==> stored@.audio_mode == Some(m@),
        stored.audio_mode is None ==> stored@.audio_mode is None,
        stored.audio_device matches Some(d) ==> stored@.audio_device == Some(d@),
        stored.audio_device is None ==> stored@.audio_device is None,
        stored@.framerate == stored.framerate,
        stored@.bitrate_kbps == stored.bitrate_kbps,
        stored.speed_preset matches Some(p) ==> stored@.speed_preset == Some(p@),
        stored.speed_preset is None ==> stored@.speed_preset is None,
{
}

/// Monitors and windows are modelled as they are listed.
pub proof fn law_sources_are_modelled_as_they_are(m: MonitorInfo, w: WindowInfo)
    ensures
        m@.index == m.index,
        m@.name == m.name@,
        m@.primary == m.primary,
        m@.region == m.region,
        w@.xid == w.xid,
        w@.title == w.title@,
        w@.class == w.class@,
        w@.region == w.region,
{
}

/// The value of an option is modelled as it is.
pub proof fn law_options_are_modelled_as_they_are(value: OptionValue)
    ensures
        value@ == match value {
            OptionValue::Text(s) => OptionModel::Text(s@),
            OptionValue::Number(n) => OptionModel::Number(n),
            OptionValue::Flag(b) => OptionModel::Flag(b),
        },
{
}

} // verus!
