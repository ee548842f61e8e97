//! The pipelines for recording and for preview.
use vstd::prelude::*;
use vstd::utf8::{decode_utf8, valid_utf8};
use crate::audio::{audio_steps, build_audio_branch, has_branch};
use crate::cli::{AudioMode, Container};
use crate::outside::from_utf8;
use crate::plan::{
    add_all, link, make, reject_path, Caps, CapsModel, CapsValue, CapsValueModel, Element, ElementModel,
    Part, Plan, StepModel, Value, ValueModel,
};
use crate::source::{source_element, CaptureSource, PortalNeeded};

verus! {

/// Everything a recording pipeline needs to know.
#[derive(Debug)]
pub struct RecordConfig {
    /// The bytes of the output path.
    pub output_path: Vec<u8>,
    pub framerate: u32,
    pub bitrate_kbps: u32,
    pub speed_preset: String,
    pub container: Container,
    pub audio_mode: AudioMode,
    pub audio_device: Option<String>,
}

/// The model of a `RecordConfig`.
pub ghost struct ConfigModel {
    pub output_path: Seq<u8>,
    pub framerate: u32,
    pub bitrate_kbps: u32,
    pub speed_preset: Seq<char>,
    pub container: Container,
    pub audio_mode: AudioMode,
    pub audio_device: Option<Seq<char>>,
}

impl View for RecordConfig {
    type V = ConfigModel;

    open spec fn view(&self) -> ConfigModel {
        ConfigModel {
            output_path: self.output_path@,
            framerate: self.framerate,
            bitrate_kbps: self.bitrate_kbps,
            speed_preset: self.speed_preset@,
            container: self.container,
            audio_mode: self.audio_mode,
            audio_device: match self.audio_device {
                Some(d) => Some(d@),
                None => None,
            },
        }
    }
}

/// The frame rate of a preview that is not part of a recording.
pub const PREVIEW_FRAMERATE: i32 = 15;

/// The width of a preview in pixels.
pub const PREVIEW_WIDTH: i32 = 480;

/// The name of a recording pipeline.
pub const RECORDING_NAME: &'static str = "desktoprecorder-pipeline";

/// The name of a preview pipeline.
pub const PREVIEW_NAME: &'static str = "desktoprecorder-preview-only-pipeline";

/// A capsfilter for raw video at `framerate` frames per second.
pub open spec fn framerate_filter(framerate: i32) -> ElementModel {
    ElementModel::new("capsfilter"@).with(
        "caps"@,
        ValueModel::Caps(
            CapsModel::new("video/x-raw"@).with("framerate"@, CapsValueModel::Fraction(framerate, 1)),
        ),
    )
}

/// The greatest distance between key frames: two seconds' worth of frames,
/// as far as that can be written down.
pub open spec fn key_interval(framerate: u32) -> u32 {
    if 2 * framerate <= u32::MAX {
        (2 * framerate) as u32
    } else {
        u32::MAX
    }
}

/// The video encoder.
pub open spec fn x264enc(cfg: ConfigModel) -> ElementModel {
    ElementModel::new("x264enc"@).with("bitrate"@, ValueModel::Unsigned(cfg.bitrate_kbps)).with(
        "key-int-max"@,
        ValueModel::Unsigned(key_interval(cfg.framerate)),
    ).with("speed-preset"@, ValueModel::Keyword(cfg.speed_preset)).with(
        "tune"@,
        ValueModel::Keyword("zerolatency"@),
    )
}

/// The muxer. An MP4 file gets its index at the front.
pub open spec fn muxer(container: Container) -> ElementModel {
    match container {
        Container::Mkv => ElementModel::new(container.muxer()),
        Container::Mp4 => ElementModel::new(container.muxer()).with(
            "faststart"@,
            ValueModel::Bool(true),
        ),
    }
}

/// The queue in front of the preview. It holds one picture and drops old
/// ones, so that the preview can never hold up the recording.
pub open spec fn preview_queue() -> ElementModel {
    ElementModel::new("queue"@).named("preview-queue"@).with(
        "leaky"@,
        ValueModel::Keyword("downstream"@),
    ).with("max-size-buffers"@, ValueModel::Unsigned(1)).with(
        "max-size-bytes"@,
        ValueModel::Unsigned(0),
    ).with("max-size-time"@, ValueModel::Long(0))
}

/// The capsfilter for a preview's pictures. Square pixels are pinned too,
/// or else the height could stay as it is and the pixels be stretched.
pub open spec fn preview_filter() -> ElementModel {
    ElementModel::new("capsfilter"@).with(
        "caps"@,
        ValueModel::Caps(
            CapsModel::new("video/x-raw"@).with("format"@, CapsValueModel::Text("BGRA"@)).with(
                "width"@,
                CapsValueModel::Int(PREVIEW_WIDTH),
            ).with("pixel-aspect-ratio"@, CapsValueModel::Fraction(1, 1)),
        ),
    )
}

/// The steps that create what shrinks pictures for a preview.
pub open spec fn preview_scale_chain() -> Seq<StepModel> {
    seq![
        make(
            Part::PreviewScale,
            ElementModel::new("videoconvertscale"@),
            "failed to create 'videoconvertscale' element (is gstreamer1.0-plugins-base installed?)"@,
        ),
        make(
            Part::PreviewCaps,
            preview_filter(),
            "failed to create preview 'capsfilter' element"@,
        ),
    ]
}

/// The steps that create what every recording has, up to the muxer.
pub open spec fn video_elements(source: (ElementModel, Seq<char>), cfg: ConfigModel) -> Seq<
    StepModel,
> {
    seq![
        make(Part::Source, source.0, source.1),
        make(
            Part::VideoCaps,
            framerate_filter(cfg.framerate as i32),
            "failed to create 'capsfilter' element"@,
        ),
        make(
            Part::Convert,
            ElementModel::new("videoconvert"@),
            "failed to create 'videoconvert' element (is gstreamer1.0-plugins-base installed?)"@,
        ),
        make(
            Part::Encoder,
            x264enc(cfg),
            "failed to create 'x264enc' element (is gstreamer1.0-plugins-ugly installed?)"@,
        ),
        make(
            Part::Parse,
            ElementModel::new("h264parse"@),
            "failed to create 'h264parse' element"@,
        ),
        make(
            Part::Mux,
            muxer(cfg.container),
            "failed to create '"@ + cfg.container.muxer() + "' muxer element"@,
        ),
    ]
}

/// The step that creates what writes the file.
pub open spec fn file_sink(location: Seq<char>) -> StepModel {
    make(
        Part::FileSink,
        ElementModel::new("filesink"@).with("location"@, ValueModel::Text(location)),
        "failed to create 'filesink' element"@,
    )
}

/// The way of the pictures through a recording without a preview.
pub open spec fn plain_route() -> Seq<Part> {
    seq![
        Part::Source,
        Part::VideoCaps,
        Part::Convert,
        Part::Encoder,
        Part::Parse,
        Part::Mux,
        Part::FileSink,
    ]
}

/// The steps that put a recording without a preview together.
pub open spec fn plain_steps() -> Seq<StepModel> {
    seq![
        add_all(plain_route(), "failed to add elements to pipeline"@),
        link(plain_route(), "failed to link pipeline elements"@),
    ]
}

/// Everything that a recording with a preview is made of.
pub open spec fn previewed_parts() -> Seq<Part> {
    seq![
        Part::Source,
        Part::VideoCaps,
        Part::Convert,
        Part::Tee,
        Part::RecordQueue,
        Part::Encoder,
        Part::Parse,
        Part::Mux,
        Part::FileSink,
        Part::PreviewQueue,
        Part::PreviewScale,
        Part::PreviewCaps,
        Part::PreviewSink,
    ]
}

/// The way of the pictures up to where recording and preview part.
pub open spec fn shared_route() -> Seq<Part> {
    seq![Part::Source, Part::VideoCaps, Part::Convert, Part::Tee]
}

/// The way of the pictures from there into the file.
pub open spec fn record_route() -> Seq<Part> {
    seq![
        Part::Tee,
        Part::RecordQueue,
        Part::Encoder,
        Part::Parse,
        Part::Mux,
        Part::FileSink,
    ]
}

/// The way of the pictures from there onto the preview.
pub open spec fn preview_route() -> Seq<Part> {
    seq![
        Part::Tee,
        Part::PreviewQueue,
        Part::PreviewScale,
        Part::PreviewCaps,
        Part::PreviewSink,
    ]
}

/// The steps that put a recording with a preview together. Each branch of
/// the tee has a queue of its own, so that neither waits for the other.
pub open spec fn previewed_steps() -> Seq<StepModel> {
    seq![
        make(Part::Tee, ElementModel::new("tee"@), "failed to create 'tee' element"@),
        make(
            Part::RecordQueue,
            ElementModel::new("queue"@).named("record-queue"@),
            "failed to create record-branch 'queue' element"@,
        ),
        make(
            Part::PreviewQueue,
            preview_queue(),
            "failed to create preview-branch 'queue' element"@,
        ),
    ] + preview_scale_chain() + seq![
        add_all(previewed_parts(), "failed to add elements to pipeline"@),
        link(shared_route(), "failed to link capture chain to tee"@),
        link(record_route(), "failed to link record branch"@),
        link(preview_route(), "failed to link preview branch"@),
    ]
}

/// The step that links the sound into the muxer.
pub open spec fn sound_link() -> StepModel {
    link(seq![Part::AudioParse, Part::Mux], "failed to link audio branch into muxer"@)
}

/// The steps of a recording pipeline, for the element that its pictures
/// come from.
pub open spec fn recording_steps(
    source: (ElementModel, Seq<char>),
    cfg: ConfigModel,
    preview: bool,
) -> Seq<StepModel> {
    if valid_utf8(cfg.output_path) {
        video_elements(source, cfg).push(file_sink(decode_utf8(cfg.output_path))) + (if preview {
            previewed_steps()
        } else {
            plain_steps()
        }) + audio_steps(cfg.audio_mode, cfg.audio_device) + (if has_branch(
            cfg.audio_mode,
            cfg.audio_device,
        ) {
            seq![sound_link()]
        } else {
            seq![]
        })
    } else {
        video_elements(source, cfg).push(reject_path())
    }
}

/// The way of the pictures through a preview on its own.
pub open spec fn preview_only_route() -> Seq<Part> {
    seq![
        Part::Source,
        Part::VideoCaps,
        Part::PreviewScale,
        Part::PreviewCaps,
        Part::PreviewSink,
    ]
}

/// The steps of a preview pipeline, for the element that its pictures come
/// from.
pub open spec fn preview_only_steps(source: (ElementModel, Seq<char>)) -> Seq<StepModel> {
    seq![
        make(Part::Source, source.0, source.1),
        make(
            Part::VideoCaps,
            framerate_filter(PREVIEW_FRAMERATE),
            "failed to create 'capsfilter' element"@,
        ),
    ] + preview_scale_chain() + seq![
        add_all(preview_only_route(), "failed to add elements to preview pipeline"@),
        link(preview_only_route(), "failed to link preview pipeline"@),
    ]
}

/// Plans a pipeline that captures `source`, with sound as `cfg` says, and
/// writes it to `cfg.output_path`.
pub fn build_recording_pipeline(source: &CaptureSource, cfg: &RecordConfig) -> (plan: Result<
    Plan,
    PortalNeeded,
>)
    requires
        source@.fits(),
    ensures
        match plan {
            Ok(p) => p.name@ == RECORDING_NAME@ && source_element(source@) is Ok && p@
                == recording_steps(source_element(source@)->Ok_0, cfg@, false),
            Err(needed) => source_element(source@) == Err::<(ElementModel, Seq<char>), _>(needed),
        },
{
    build_recording_pipeline_inner(source, cfg, false)
}

/// Plans the same pipeline with the raw pictures also led, shrunk, to the
/// preview's sink.
pub fn build_recording_pipeline_with_preview(source: &CaptureSource, cfg: &RecordConfig) -> (plan:
    Result<Plan, PortalNeeded>)
    requires
        source@.fits(),
    ensures
        match plan {
            Ok(p) => p.name@ == RECORDING_NAME@ && source_element(source@) is Ok && p@
                == recording_steps(source_element(source@)->Ok_0, cfg@, true),
            Err(needed) => source_element(source@) == Err::<(ElementModel, Seq<char>), _>(needed),
        },
{
    build_recording_pipeline_inner(source, cfg, true)
}

/// Plans a pipeline that only shows `source` in the preview: no encoder, no
/// muxer, no file.
pub fn build_preview_only_pipeline(source: &CaptureSource) -> (plan: Result<Plan, PortalNeeded>)
    requires
        source@.fits(),
    ensures
        match plan {
            Ok(p) => p.name@ == PREVIEW_NAME@ && source_element(source@) is Ok && p@
                == preview_only_steps(source_element(source@)->Ok_0),
            Err(needed) => source_element(source@) == Err::<(ElementModel, Seq<char>), _>(needed),
        },
{
    let mut plan = Plan::new(PREVIEW_NAME);
    let src = match source.build_element() {
        Ok(src) => src,
        Err(needed) => return Err(needed),
    };
    plan.make(Part::Source, src.element, src.context);
    plan.make(
        Part::VideoCaps,
        build_framerate_filter(PREVIEW_FRAMERATE),
        "failed to create 'capsfilter' element",
    );
    build_preview_scale_chain(&mut plan);
    plan.add_all(
        vec![
            Part::Source,
            Part::VideoCaps,
            Part::PreviewScale,
            Part::PreviewCaps,
            Part::PreviewSink,
        ],
        "failed to add elements to preview pipeline",
    );
    plan.link(
        vec![
            Part::Source,
            Part::VideoCaps,
            Part::PreviewScale,
            Part::PreviewCaps,
            Part::PreviewSink,
        ],
        "failed to link preview pipeline",
    );
    assert(plan@ =~= preview_only_steps(source_element(source@)->Ok_0));
    Ok(plan)
}

/// A capsfilter for raw video at `framerate` frames per second.
fn build_framerate_filter(framerate: i32) -> (element: Element)
    ensures
        element@ == framerate_filter(framerate),
{
    let caps = Caps::new("video/x-raw").with("framerate", CapsValue::Fraction(framerate, 1));
    Element::new("capsfilter").with("caps", Value::Caps(caps))
}

/// Appends the steps that create what shrinks pictures for a preview.
fn build_preview_scale_chain(plan: &mut Plan)
    ensures
        final(plan).name == old(plan).name,
        final(plan)@ == old(plan)@ + preview_scale_chain(),
{
    plan.make(
        Part::PreviewScale,
        Element::new("videoconvertscale"),
        "failed to create 'videoconvertscale' element (is gstreamer1.0-plugins-base installed?)",
    );
    let caps = Caps::new("video/x-raw").with("format", CapsValue::Text("BGRA")).with(
        "width",
        CapsValue::Int(PREVIEW_WIDTH),
    ).with("pixel-aspect-ratio", CapsValue::Fraction(1, 1));
    plan.make(
        Part::PreviewCaps,
        Element::new("capsfilter").with("caps", Value::Caps(caps)),
        "failed to create preview 'capsfilter' element",
    );
}

/// The greatest distance between key frames.
fn key_int_max(framerate: u32) -> (frames: u32)
    ensures
        frames == key_interval(framerate),
{
    if framerate <= u32::MAX / 2 {
        framerate * 2
    } else {
        u32::MAX
    }
}

/// Appends the steps that create what every recording has, up to the muxer.
fn build_video_elements(plan: &mut Plan, source: Element, context: &str, cfg: &RecordConfig)
    ensures
        final(plan).name == old(plan).name,
        final(plan)@ == old(plan)@ + video_elements((source@, context@), cfg@),
{
    plan.make(Part::Source, source, context);
    plan.make(
        Part::VideoCaps,
        build_framerate_filter(
            #[verifier::truncate]
            (cfg.framerate as i32),
        ),
        "failed to create 'capsfilter' element",
    );
    plan.make(
        Part::Convert,
        Element::new("videoconvert"),
        "failed to create 'videoconvert' element (is gstreamer1.0-plugins-base installed?)",
    );
    let encoder = Element::new("x264enc").with("bitrate", Value::Unsigned(cfg.bitrate_kbps)).with(
        "key-int-max",
        Value::Unsigned(key_int_max(cfg.framerate)),
    ).with("speed-preset", Value::Keyword(cfg.speed_preset.clone())).with(
        "tune",
        Value::Keyword("zerolatency".to_owned()),
    );
    plan.make(
        Part::Encoder,
        encoder,
        "failed to create 'x264enc' element (is gstreamer1.0-plugins-ugly installed?)",
    );
    plan.make(
        Part::Parse,
        Element::new("h264parse"),
        "failed to create 'h264parse' element",
    );
    let mux_name = cfg.container.mux_element_name();
    let mut mux = Element::new(mux_name);
    if cfg.container == Container::Mp4 {
        mux = mux.with("faststart", Value::Bool(true));
    }
    let mut mux_context = String::new();
    mux_context.append("failed to create '");
    mux_context.append(mux_name);
    mux_context.append("' muxer element");
    assert(mux_context@ =~= "failed to create '"@ + cfg.container.muxer() + "' muxer element"@);
    plan.make(Part::Mux, mux, mux_context.as_str());
}

/// Appends the steps that put a recording without a preview together.
fn build_plain(plan: &mut Plan)
    ensures
        final(plan).name == old(plan).name,
        final(plan)@ == old(plan)@ + plain_steps(),
{
    plan.add_all(
        vec![
            Part::Source,
            Part::VideoCaps,
            Part::Convert,
            Part::Encoder,
            Part::Parse,
            Part::Mux,
            Part::FileSink,
        ],
        "failed to add elements to pipeline",
    );
    plan.link(
        vec![
            Part::Source,
            Part::VideoCaps,
            Part::Convert,
            Part::Encoder,
            Part::Parse,
            Part::Mux,
            Part::FileSink,
        ],
        "failed to link pipeline elements",
    );
}

/// Appends the steps that put a recording with a preview together.
fn build_previewed(plan: &mut Plan)
    ensures
        final(plan).name == old(plan).name,
        final(plan)@ == old(plan)@ + previewed_steps(),
{
    plan.make(Part::Tee, Element::new("tee"), "failed to create 'tee' element");
    plan.make(
        Part::RecordQueue,
        Element::new("queue").named("record-queue"),
        "failed to create record-branch 'queue' element",
    );
    let queue = Element::new("queue").named("preview-queue").with(
        "leaky",
        Value::Keyword("downstream".to_owned()),
    ).with("max-size-buffers", Value::Unsigned(1)).with("max-size-bytes", Value::Unsigned(0)).with(
        "max-size-time",
        Value::Long(0),
    );
    plan.make(Part::PreviewQueue, queue, "failed to create preview-branch 'queue' element");
    build_preview_scale_chain(plan);
    plan.add_all(
        vec![
            Part::Source,
            Part::VideoCaps,
            Part::Convert,
            Part::Tee,
            Part::RecordQueue,
            Part::Encoder,
            Part::Parse,
            Part::Mux,
            Part::FileSink,
            Part::PreviewQueue,
            Part::PreviewScale,
            Part::PreviewCaps,
            Part::PreviewSink,
        ],
        "failed to add elements to pipeline",
    );
    plan.link(
        vec![Part::Source, Part::VideoCaps, Part::Convert, Part::Tee],
        "failed to link capture chain to tee",
    );
    plan.link(
        vec![
            Part::Tee,
            Part::RecordQueue,
            Part::Encoder,
            Part::Parse,
            Part::Mux,
            Part::FileSink,
        ],
        "failed to link record branch",
    );
    plan.link(
        vec![
            Part::Tee,
            Part::PreviewQueue,
            Part::PreviewScale,
            Part::PreviewCaps,
            Part::PreviewSink,
        ],
        "failed to link preview branch",
    );
}

/// Plans a recording pipeline, with or without a preview.
fn build_recording_pipeline_inner(source: &CaptureSource, cfg: &RecordConfig, preview: bool) -> (plan:
    Result<Plan, PortalNeeded>)
    requires
        source@.fits(),
    ensures
        match plan {
            Ok(p) => p.name@ == RECORDING_NAME@ && source_element(source@) is Ok && p@
                == recording_steps(source_element(source@)->Ok_0, cfg@, preview),
            Err(needed) => source_element(source@) == Err::<(ElementModel, Seq<char>), _>(needed),
        },
{
    let mut plan = Plan::new(RECORDING_NAME);
    let src = match source.build_element() {
        Ok(src) => src,
        Err(needed) => return Err(needed),
    };
    let ghost chosen = source_element(source@)->Ok_0;
    build_video_elements(&mut plan, src.element, src.context, cfg);
    assert(plan@ =~= video_elements(chosen, cfg@));
    let location = match from_utf8(cfg.output_path.as_slice()) {
        Some(location) => location,
        None => {
            plan.reject_path();
            return Ok(plan);
        },
    };
    plan.make(
        Part::FileSink,
        Element::new("filesink").with("location", Value::Text(location)),
        "failed to create 'filesink' element",
    );
    if preview {
        build_previewed(&mut plan);
    } else {
        build_plain(&mut plan);
    }
    let device = match &cfg.audio_device {
        Some(d) => Some(d.as_str()),
        None => None,
    };
    if let Some(branch) = build_audio_branch(&mut plan, cfg.audio_mode, device) {
        plan.link(vec![branch.tail, Part::Mux], "failed to link audio branch into muxer");
    }
    assert(plan@ =~= recording_steps(chosen, cfg@, preview));
    Ok(plan)
}

} // verus!
