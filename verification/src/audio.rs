//! The sound branch of a recording.
use vstd::prelude::*;
use vstd::utf8::{decode_utf8, valid_utf8};
use crate::cli::AudioMode;
use crate::outside::{from_utf8, from_utf8_lossy, lossy_text};
use crate::plan::{
    add_all, link, lookup_monitor, make, refuse, Caps, CapsModel, CapsValue, CapsValueModel, Capture,
    Element, ElementModel, Part, Plan, StepModel, Value, ValueModel,
};
use crate::text::{is_blank, lemma_blank_trims_to_nothing, mentions, part_at, trim, trimmed};

verus! {

/// The sound branch that a plan adds to a pipeline: `tail` is what is left
/// to link into the muxer.
#[derive(Debug, Clone, Copy, PartialEq, Eq, Structural)]
pub struct AudioBranch {
    pub tail: Part,
}

/// The layout that every capture is brought to, so that two of them can be
/// mixed.
pub open spec fn audio_caps() -> CapsModel {
    CapsModel::new("audio/x-raw"@).with("rate"@, CapsValueModel::Int(48_000)).with(
        "channels"@,
        CapsValueModel::Int(2),
    )
}

/// A capsfilter for that layout.
pub open spec fn audio_capsfilter() -> ElementModel {
    ElementModel::new("capsfilter"@).with("caps"@, ValueModel::Caps(audio_caps()))
}

/// The element that captures sound from `device`, or from the default
/// source.
pub open spec fn pulsesrc(device: Option<ValueModel>) -> ElementModel {
    match device {
        Some(d) => ElementModel::new("pulsesrc"@).with("device"@, d),
        None => ElementModel::new("pulsesrc"@),
    }
}

/// The elements of a capture, in the order they are linked in.
pub open spec fn capture_parts(capture: Capture) -> Seq<Part> {
    seq![
        Part::AudioSource(capture),
        Part::AudioConvert(capture),
        Part::AudioResample(capture),
        Part::AudioCaps(capture),
    ]
}

/// The steps for one capture, from its source to a pinned layout.
pub open spec fn capture_chain(capture: Capture, device: Option<ValueModel>) -> Seq<StepModel> {
    seq![
        make(
            Part::AudioSource(capture),
            pulsesrc(device),
            "failed to create 'pulsesrc' element (is gstreamer1.0-plugins-good installed, and is PulseAudio running?)"@,
        ),
        make(
            Part::AudioConvert(capture),
            ElementModel::new("audioconvert"@),
            "failed to create 'audioconvert' element"@,
        ),
        make(
            Part::AudioResample(capture),
            ElementModel::new("audioresample"@),
            "failed to create 'audioresample' element"@,
        ),
        make(
            Part::AudioCaps(capture),
            audio_capsfilter(),
            "failed to create audio 'capsfilter' element"@,
        ),
        add_all(capture_parts(capture), "failed to add audio capture elements to pipeline"@),
        link(capture_parts(capture), "failed to link audio capture chain"@),
    ]
}

/// The steps for encoding sound.
pub open spec fn encoder_tail() -> Seq<StepModel> {
    seq![
        make(
            Part::AudioEncoder,
            ElementModel::new("voaacenc"@),
            "failed to create 'voaacenc' element (is gstreamer1.0-plugins-bad installed?)"@,
        ),
        make(
            Part::AudioParse,
            ElementModel::new("aacparse"@),
            "failed to create 'aacparse' element"@,
        ),
        add_all(
            seq![Part::AudioEncoder, Part::AudioParse],
            "failed to add AAC encoder elements to pipeline"@,
        ),
        link(seq![Part::AudioEncoder, Part::AudioParse], "failed to link voaacenc to aacparse"@),
    ]
}

/// The steps that mix the two captures and pin the layout of the mix.
pub open spec fn mixer() -> Seq<StepModel> {
    seq![
        make(
            Part::Mixer,
            ElementModel::new("audiomixer"@),
            "failed to create 'audiomixer' element"@,
        ),
        add_all(seq![Part::Mixer], "failed to add 'audiomixer' to pipeline"@),
        link(
            seq![Part::AudioCaps(Capture::Mic), Part::Mixer],
            "failed to link mic branch into audiomixer"@,
        ),
        link(
            seq![Part::AudioCaps(Capture::System), Part::Mixer],
            "failed to link system-audio branch into audiomixer"@,
        ),
        make(
            Part::MixCaps,
            audio_capsfilter(),
            "failed to create post-mixer 'capsfilter' element"@,
        ),
        add_all(seq![Part::MixCaps], "failed to add post-mixer capsfilter to pipeline"@),
        link(
            seq![Part::Mixer, Part::MixCaps],
            "failed to link audiomixer to post-mixer capsfilter"@,
        ),
    ]
}

/// The steps of the sound branch. A device of one's own is for a single
/// capture only; without one, system sound comes from the default sink's
/// monitor.
pub open spec fn audio_steps(mode: AudioMode, device: Option<Seq<char>>) -> Seq<StepModel> {
    match mode {
        AudioMode::Off => seq![],
        AudioMode::Mic => capture_chain(
            Capture::Mic,
            match device {
                Some(d) => Some(ValueModel::Text(d)),
                None => None,
            },
        ) + encoder_tail() + seq![
            link(
                seq![Part::AudioCaps(Capture::Mic), Part::AudioEncoder],
                "failed to link mic capture chain to AAC encoder"@,
            ),
        ],
        AudioMode::System => (match device {
            Some(d) => capture_chain(Capture::System, Some(ValueModel::Text(d))),
            None => seq![lookup_monitor()] + capture_chain(
                Capture::System,
                Some(ValueModel::DefaultMonitor),
            ),
        }) + encoder_tail() + seq![
            link(
                seq![Part::AudioCaps(Capture::System), Part::AudioEncoder],
                "failed to link system-audio capture chain to AAC encoder"@,
            ),
        ],
        AudioMode::Both => match device {
            Some(_) => seq![
                refuse(
                    "--audio-device isn't supported with --audio=both (it always mixes the default mic with the default sink's monitor)"@,
                ),
            ],
            None => capture_chain(Capture::Mic, None) + seq![lookup_monitor()] + capture_chain(
                Capture::System,
                Some(ValueModel::DefaultMonitor),
            ) + mixer() + encoder_tail() + seq![
                link(
                    seq![Part::MixCaps, Part::AudioEncoder],
                    "failed to link post-mixer capsfilter to AAC encoder"@,
                ),
            ],
        },
    }
}

/// Whether there is a sound branch to link into the muxer.
pub open spec fn has_branch(mode: AudioMode, device: Option<Seq<char>>) -> bool {
    mode != AudioMode::Off && !(mode == AudioMode::Both && device is Some)
}

/// Appends the steps of the sound branch.
///
/// `device` applies to a single capture only: the plan gives up where one
/// is set for both, which always mixes the default mic with the default
/// sink's monitor.
pub fn build_audio_branch(plan: &mut Plan, mode: AudioMode, device: Option<&str>) -> (branch: Option<
    AudioBranch,
>)
    ensures
        final(plan).name == old(plan).name,
        final(plan)@ == old(plan)@ + audio_steps(
            mode,
            match device {
                Some(d) => Some(d@),
                None => None,
            },
        ),
        branch == (if has_branch(
            mode,
            match device {
                Some(d) => Some(d@),
                None => None,
            },
        ) {
            Some(AudioBranch { tail: Part::AudioParse })
        } else {
            None
        }),
{
    match mode {
        AudioMode::Off => None,
        AudioMode::Mic => {
            let chosen = match device {
                Some(d) => Some(Value::Text(d.to_owned())),
                None => None,
            };
            build_capture_chain(plan, Capture::Mic, chosen);
            build_encoder_tail(plan);
            plan.link(
                vec![Part::AudioCaps(Capture::Mic), Part::AudioEncoder],
                "failed to link mic capture chain to AAC encoder",
            );
            Some(AudioBranch { tail: Part::AudioParse })
        },
        AudioMode::System => {
            let chosen = match device {
                Some(d) => Value::Text(d.to_owned()),
                None => {
                    plan.lookup_monitor();
                    Value::DefaultMonitor
                },
            };
            build_capture_chain(plan, Capture::System, Some(chosen));
            build_encoder_tail(plan);
            plan.link(
                vec![Part::AudioCaps(Capture::System), Part::AudioEncoder],
                "failed to link system-audio capture chain to AAC encoder",
            );
            Some(AudioBranch { tail: Part::AudioParse })
        },
        AudioMode::Both => {
            if device.is_some() {
                plan.refuse(
                    "--audio-device isn't supported with --audio=both (it always mixes the default mic with the default sink's monitor)",
                );
                return None;
            }
            build_capture_chain(plan, Capture::Mic, None);
            plan.lookup_monitor();
            build_capture_chain(plan, Capture::System, Some(Value::DefaultMonitor));
            build_mixer(plan);
            build_encoder_tail(plan);
            plan.link(
                vec![Part::MixCaps, Part::AudioEncoder],
                "failed to link post-mixer capsfilter to AAC encoder",
            );
            Some(AudioBranch { tail: Part::AudioParse })
        },
    }
}

/// A capsfilter for the layout that every capture is brought to.
fn build_audio_capsfilter() -> (element: Element)
    ensures
        element@ == audio_capsfilter(),
{
    let caps = Caps::new("audio/x-raw").with("rate", CapsValue::Int(48_000)).with(
        "channels",
        CapsValue::Int(2),
    );
    Element::new("capsfilter").with("caps", Value::Caps(caps))
}

/// Appends the steps for one capture; without a device it is the default
/// source's.
fn build_capture_chain(plan: &mut Plan, capture: Capture, device: Option<Value>)
    ensures
        final(plan).name == old(plan).name,
        final(plan)@ == old(plan)@ + capture_chain(
            capture,
            match device {
                Some(d) => Some(d@),
                None => None,
            },
        ),
{
    let src = match device {
        Some(d) => Element::new("pulsesrc").with("device", d),
        None => Element::new("pulsesrc"),
    };
    plan.make(
        Part::AudioSource(capture),
        src,
        "failed to create 'pulsesrc' element (is gstreamer1.0-plugins-good installed, and is PulseAudio running?)",
    );
    plan.make(
        Part::AudioConvert(capture),
        Element::new("audioconvert"),
        "failed to create 'audioconvert' element",
    );
    plan.make(
        Part::AudioResample(capture),
        Element::new("audioresample"),
        "failed to create 'audioresample' element",
    );
    plan.make(
        Part::AudioCaps(capture),
        build_audio_capsfilter(),
        "failed to create audio 'capsfilter' element",
    );
    plan.add_all(
        vec![
            Part::AudioSource(capture),
            Part::AudioConvert(capture),
            Part::AudioResample(capture),
            Part::AudioCaps(capture),
        ],
        "failed to add audio capture elements to pipeline",
    );
    plan.link(
        vec![
            Part::AudioSource(capture),
            Part::AudioConvert(capture),
            Part::AudioResample(capture),
            Part::AudioCaps(capture),
        ],
        "failed to link audio capture chain",
    );
}

/// Appends the steps for encoding sound.
fn build_encoder_tail(plan: &mut Plan)
    ensures
        final(plan).name == old(plan).name,
        final(plan)@ == old(plan)@ + encoder_tail(),
{
    plan.make(
        Part::AudioEncoder,
        Element::new("voaacenc"),
        "failed to create 'voaacenc' element (is gstreamer1.0-plugins-bad installed?)",
    );
    plan.make(
        Part::AudioParse,
        Element::new("aacparse"),
        "failed to create 'aacparse' element",
    );
    plan.add_all(
        vec![Part::AudioEncoder, Part::AudioParse],
        "failed to add AAC encoder elements to pipeline",
    );
    plan.link(
        vec![Part::AudioEncoder, Part::AudioParse],
        "failed to link voaacenc to aacparse",
    );
}

/// Appends the steps that mix the two captures.
fn build_mixer(plan: &mut Plan)
    ensures
        final(plan).name == old(plan).name,
        final(plan)@ == old(plan)@ + mixer(),
{
    plan.make(
        Part::Mixer,
        Element::new("audiomixer"),
        "failed to create 'audiomixer' element",
    );
    let mixer_alone = vec![Part::Mixer];
    assert(mixer_alone@ =~= seq![Part::Mixer]);
    plan.add_all(mixer_alone, "failed to add 'audiomixer' to pipeline");
    plan.link(
        vec![Part::AudioCaps(Capture::Mic), Part::Mixer],
        "failed to link mic branch into audiomixer",
    );
    plan.link(
        vec![Part::AudioCaps(Capture::System), Part::Mixer],
        "failed to link system-audio branch into audiomixer",
    );
    // Left to itself the mixer may settle on another channel count than
    // its inputs have.
    plan.make(
        Part::MixCaps,
        build_audio_capsfilter(),
        "failed to create post-mixer 'capsfilter' element",
    );
    let caps_alone = vec![Part::MixCaps];
    assert(caps_alone@ =~= seq![Part::MixCaps]);
    plan.add_all(caps_alone, "failed to add post-mixer capsfilter to pipeline");
    plan.link(
        vec![Part::Mixer, Part::MixCaps],
        "failed to link audiomixer to post-mixer capsfilter",
    );
}

/// Why there is no monitor device to capture system sound from.
#[derive(Debug)]
pub enum MonitorError {
    /// `pactl` failed, with this output.
    Failed(String),
    /// `pactl`'s answer was not text.
    NotUtf8,
    /// `pactl` named no sink.
    NoSink,
}

impl MonitorError {
    /// What to tell the user.
    pub open spec fn text(self) -> Seq<char> {
        match self {
            MonitorError::Failed(output) => "'pactl get-default-sink' failed: "@ + output@,
            MonitorError::NotUtf8 => "'pactl get-default-sink' output was not valid UTF-8"@,
            MonitorError::NoSink => "could not determine the default PulseAudio sink ('pactl get-default-sink' returned nothing)"@,
        }
    }

    /// What to tell the user.
    pub fn message(&self) -> (message: String)
        ensures
            message@ == self.text(),
    {
        match self {
            MonitorError::Failed(output) => {
                let mut message = String::new();
                message.append("'pactl get-default-sink' failed: ");
                message.append(output.as_str());
                assert(message@ =~= self.text());
                message
            },
            MonitorError::NotUtf8 => "'pactl get-default-sink' output was not valid UTF-8".to_owned(),
            MonitorError::NoSink => "could not determine the default PulseAudio sink ('pactl get-default-sink' returned nothing)".to_owned(),
        }
    }
}

/// The device that plays back what goes to the default sink, from what
/// `pactl get-default-sink` came back with: PulseAudio has no alias for it,
/// but by convention it is the sink's name with `.monitor` appended.
pub fn default_monitor_device(success: bool, stdout: &[u8], stderr: &[u8]) -> (device: Result<
    String,
    MonitorError,
>)
    ensures
        match device {
            Ok(d) => success && valid_utf8(stdout@) && !is_blank(decode_utf8(stdout@)) && d@
                == trimmed(decode_utf8(stdout@)) + ".monitor"@,
            Err(MonitorError::Failed(output)) => !success && output@ == lossy_text(stderr@),
            Err(MonitorError::NotUtf8) => success && !valid_utf8(stdout@),
            Err(MonitorError::NoSink) => success && valid_utf8(stdout@) && is_blank(
                decode_utf8(stdout@),
            ),
        },
{
    if !success {
        return Err(MonitorError::Failed(from_utf8_lossy(stderr)));
    }
    match from_utf8(stdout) {
        None => Err(MonitorError::NotUtf8),
        Some(output) => {
            let mut sink = trim(output.as_str());
            proof {
                lemma_blank_trims_to_nothing(output@);
            }
            if sink.as_str().is_empty() {
                Err(MonitorError::NoSink)
            } else {
                sink.append(".monitor");
                Ok(sink)
            }
        },
    }
}

/// There is a sound branch to link exactly if sound is asked for, and no
/// device is named for two captures.
pub proof fn law_sound_branches_are_there_when_asked_for(device: Option<Seq<char>>)
    ensures
        has_branch(AudioMode::Mic, device),
        has_branch(AudioMode::System, device),
        has_branch(AudioMode::Both, device) <==> device is None,
        !has_branch(AudioMode::Off, device),
{
}

/// What `pactl` failed with is passed on.
pub proof fn law_monitor_errors_pass_the_output_on(output: String)
    ensures
        ({
            let text = MonitorError::Failed(output).text();
            text.skip(text.len() - output@.len()) == output@
        }),
{
    let text = MonitorError::Failed(output).text();
    assert(text.skip(text.len() - output@.len()) =~= output@);
}

/// A device that is named for two captures is refused, with the flags that do
/// not go together, and nothing else is done.
pub proof fn law_device_for_both_is_refused(device: Seq<char>)
    ensures
        ({
            let steps = audio_steps(AudioMode::Both, Some(device));
            &&& steps.len() == 1
            &&& steps[0].action is Refuse
            &&& mentions(
                steps[0].context,
                "--audio-device isn't supported with --audio=both"@,
            )
        }),
{
    let all = "--audio-device isn't supported with --audio=both (it always mixes the default mic with the default sink's monitor)"@;
    let part = "--audio-device isn't supported with --audio=both"@;
    assert(part_at(all, part, 0)) by {
        reveal_strlit("--audio-device isn't supported with --audio=both (it always mixes the default mic with the default sink's monitor)");
        reveal_strlit("--audio-device isn't supported with --audio=both");
        assert(all.subrange(0, part.len() as int) =~= part);
    }
}

} // verus!
