//! What the elements of a pipeline are, and how they are set.
use vstd::prelude::*;
use vstd::utf8::{decode_utf8, decode_utf8_encode_utf8, encode_utf8, valid_utf8};
use crate::audio::{
    audio_capsfilter, audio_steps, capture_chain, encoder_tail, has_branch, mixer,
};
use crate::cli::{AudioMode, Container};
use crate::pipeline::{
    file_sink, plain_steps, preview_only_steps, preview_scale_chain, previewed_steps,
    recording_steps, video_elements, ConfigModel,
};
use crate::plan::{
    joints, ActionModel, Assembly, CapsValueModel, Capture, ElementModel, Part, StepModel, ValueModel,
};
use crate::source::{source_element, PortalConfig, ScreenModel, SourceModel};
use crate::text::{decimal, is_digit, lemma_radix_reads_back, positional};
use crate::wiring::{
    assembled, at_hand, law_preview_alone_is_assembled_in_order,
    law_recording_is_assembled_in_order, lemma_sound, sound_links, video_links,
};

verus! {

/// Whether `steps` create `element` as `part`.
pub open spec fn makes(steps: Seq<StepModel>, part: Part, element: ElementModel) -> bool {
    exists|i: int| made_at(steps, part, element, i)
}

/// Whether step `i` creates `element` as `part`.
pub open spec fn made_at(steps: Seq<StepModel>, part: Part, element: ElementModel, i: int) -> bool {
    0 <= i < steps.len() && steps[i].action == ActionModel::Make(part, element)
}

/// Whether `element` is of the given kind and has exactly `settings` set, in
/// whatever order.
pub open spec fn is_set(
    element: ElementModel,
    factory: Seq<char>,
    settings: Seq<(Seq<char>, ValueModel)>,
) -> bool {
    &&& element.factory == factory
    &&& element.properties.len() == settings.len()
    &&& forall|k: int|
        0 <= k < settings.len() ==> element.properties.contains(#[trigger] settings[k])
}

proof fn lemma_created_stays(start: Assembly, steps: Seq<StepModel>, m: nat, n: nat, part: Part)
    requires
        m <= n,
        start.after(steps, m).created.contains(part),
    ensures
        start.after(steps, n).created.contains(part),
    decreases n,
{
    if m < n {
        lemma_created_stays(start, steps, m, (n - 1) as nat, part);
    }
}

proof fn lemma_orderly_before(start: Assembly, steps: Seq<StepModel>, m: nat, n: nat)
    requires
        m <= n,
        start.after(steps, n).orderly,
    ensures
        start.after(steps, m).orderly,
    decreases n,
{
    if m < n {
        lemma_orderly_before(start, steps, m, (n - 1) as nat);
    }
}

/// In steps that are in order nothing is created a second time.
proof fn lemma_made_once(
    start: Assembly,
    steps: Seq<StepModel>,
    part: Part,
    first: ElementModel,
    i: int,
    second: ElementModel,
    j: int,
)
    requires
        start.run(steps).orderly,
        made_at(steps, part, first, i),
        made_at(steps, part, second, j),
    ensures
        i >= j,
{
    if i < j {
        assert(start.after(steps, (i + 1) as nat) == start.after(steps, i as nat).apply(steps[i]));
        assert(start.after(steps, (i + 1) as nat).created.contains(part));
        lemma_created_stays(start, steps, (i + 1) as nat, j as nat, part);
        lemma_orderly_before(start, steps, (j + 1) as nat, steps.len());
        assert(start.after(steps, (j + 1) as nat) == start.after(steps, j as nat).apply(steps[j]));
    }
}

/// The element that one step creates is the only one of its part.
proof fn lemma_only(
    start: Assembly,
    steps: Seq<StepModel>,
    part: Part,
    element: ElementModel,
    i: int,
)
    requires
        start.run(steps).orderly,
        made_at(steps, part, element, i),
    ensures
        forall|e: ElementModel| #[trigger] makes(steps, part, e) <==> e == element,
{
    assert forall|e: ElementModel| #[trigger] makes(steps, part, e) <==> e == element by {
        if makes(steps, part, e) {
            let j = choose|j: int| made_at(steps, part, e, j);
            lemma_made_once(start, steps, part, element, i, e, j);
            lemma_made_once(start, steps, part, e, j, element, i);
        }
        if e == element {
            assert(made_at(steps, part, e, i));
        }
    }
}

/// The steps of a recording from `source`.
pub open spec fn recorded(source: SourceModel, cfg: ConfigModel, preview: bool) -> Seq<StepModel> {
    recording_steps(source_element(source)->Ok_0, cfg, preview)
}

proof fn lemma_only_in_recording(
    source: SourceModel,
    cfg: ConfigModel,
    preview: bool,
    part: Part,
    element: ElementModel,
    i: int,
)
    requires
        source_element(source) is Ok,
        made_at(recorded(source, cfg, preview), part, element, i),
    ensures
        forall|e: ElementModel| #[trigger]
            makes(recorded(source, cfg, preview), part, e) <==> e == element,
{
    law_recording_is_assembled_in_order(source, cfg, preview);
    lemma_only(
        Assembly::start(at_hand(preview)),
        recorded(source, cfg, preview),
        part,
        element,
        i,
    );
}

/// The first six elements of a recording.
proof fn lemma_video_at(source: SourceModel, cfg: ConfigModel, preview: bool, i: int)
    requires
        0 <= i < 6,
    ensures
        recorded(source, cfg, preview).len() > i,
        recorded(source, cfg, preview)[i] == video_elements(source_element(source)->Ok_0, cfg)[i],
{
}

/// The raw-video filter behind the source pins exactly the frame rate that
/// was asked for, as a whole number of frames per second.
pub proof fn law_frame_rate_is_as_asked(source: SourceModel, cfg: ConfigModel, preview: bool)
    requires
        source_element(source) is Ok,
        cfg.framerate <= i32::MAX,
    ensures
        exists|e: ElementModel| makes(recorded(source, cfg, preview), Part::VideoCaps, e),
        forall|e: ElementModel| #[trigger]
            makes(recorded(source, cfg, preview), Part::VideoCaps, e) ==> {
                &&& e.factory == "capsfilter"@
                &&& e.properties.len() == 1 && e.properties[0].0 == "caps"@
                &&& e.properties[0].1 matches ValueModel::Caps(caps) && {
                    &&& caps.media == "video/x-raw"@
                    &&& caps.fields.len() == 1 && caps.fields[0].0 == "framerate"@
                    &&& caps.fields[0].1 matches CapsValueModel::Fraction(n, d) && n
                        == cfg.framerate && d == 1
                }
            },
{
    let steps = recorded(source, cfg, preview);
    lemma_video_at(source, cfg, preview, 1);
    let element = steps[1].action->Make_1;
    assert(made_at(steps, Part::VideoCaps, element, 1));
    lemma_only_in_recording(source, cfg, preview, Part::VideoCaps, element, 1);
    assert(makes(steps, Part::VideoCaps, element));
}

/// Different frame rates never give the same plan, nor do different
/// bitrates, presets, containers or output paths.
pub proof fn law_plans_tell_settings_apart(
    source: SourceModel,
    one: ConfigModel,
    other: ConfigModel,
    preview: bool,
)
    requires
        source_element(source) is Ok,
        one.framerate <= i32::MAX && other.framerate <= i32::MAX,
        valid_utf8(one.output_path) && valid_utf8(other.output_path),
        recorded(source, one, preview) == recorded(source, other, preview),
    ensures
        one.framerate == other.framerate,
        one.bitrate_kbps == other.bitrate_kbps,
        one.speed_preset == other.speed_preset,
        one.container == other.container,
        one.output_path == other.output_path,
{
    let steps = recorded(source, one, preview);
    law_frame_rate_is_as_asked(source, one, preview);
    law_frame_rate_is_as_asked(source, other, preview);
    let filter = choose|e: ElementModel| makes(steps, Part::VideoCaps, e);
    assert(makes(steps, Part::VideoCaps, filter));
    lemma_encoder(source, one, preview);
    lemma_encoder(source, other, preview);
    law_container_decides_the_muxer(source, one, preview);
    law_container_decides_the_muxer(source, other, preview);
    let mux = choose|e: ElementModel| makes(steps, Part::Mux, e);
    assert(makes(steps, Part::Mux, mux));
    law_file_is_where_it_was_asked_for(source, one, preview);
    law_file_is_where_it_was_asked_for(source, other, preview);
    let sink = choose|e: ElementModel| makes(steps, Part::FileSink, e);
    assert(makes(steps, Part::FileSink, sink));
}

/// The encoder, in the order that it is set up in.
proof fn lemma_encoder(source: SourceModel, cfg: ConfigModel, preview: bool)
    ensures
        made_at(
            recorded(source, cfg, preview),
            Part::Encoder,
            recorded(source, cfg, preview)[3].action->Make_1,
            3,
        ),
        ({
            let p = recorded(source, cfg, preview)[3].action->Make_1.properties;
            &&& p.len() == 4
            &&& p[0] == ("bitrate"@, ValueModel::Unsigned(cfg.bitrate_kbps))
            &&& p[1].0 == "key-int-max"@
            &&& p[2] == ("speed-preset"@, ValueModel::Keyword(cfg.speed_preset))
            &&& p[3] == ("tune"@, ValueModel::Keyword("zerolatency"@))
        }),
{
    lemma_video_at(source, cfg, preview, 3);
}

/// The video encoder is x264, with the bitrate and the preset that were
/// asked for, tuned for live capture, and with a key frame at least every
/// two seconds.
pub proof fn law_encoder_is_set_as_asked(source: SourceModel, cfg: ConfigModel, preview: bool)
    requires
        source_element(source) is Ok,
    ensures
        exists|e: ElementModel| makes(recorded(source, cfg, preview), Part::Encoder, e),
        forall|e: ElementModel| #[trigger]
            makes(recorded(source, cfg, preview), Part::Encoder, e) ==> is_set(
                e,
                "x264enc"@,
                seq![
                    ("bitrate"@, ValueModel::Unsigned(cfg.bitrate_kbps)),
                    ("speed-preset"@, ValueModel::Keyword(cfg.speed_preset)),
                    ("tune"@, ValueModel::Keyword("zerolatency"@)),
                    (
                        "key-int-max"@,
                        ValueModel::Unsigned(
                            if 2 * cfg.framerate <= u32::MAX {
                                (2 * cfg.framerate) as u32
                            } else {
                                u32::MAX
                            },
                        ),
                    ),
                ],
            ),
{
    let steps = recorded(source, cfg, preview);
    lemma_video_at(source, cfg, preview, 3);
    lemma_encoder(source, cfg, preview);
    let element = steps[3].action->Make_1;
    lemma_only_in_recording(source, cfg, preview, Part::Encoder, element, 3);
    assert(makes(steps, Part::Encoder, element));
    let interval = element.properties[1].1->Unsigned_0;
    let settings = seq![
        ("bitrate"@, ValueModel::Unsigned(cfg.bitrate_kbps)),
        ("speed-preset"@, ValueModel::Keyword(cfg.speed_preset)),
        ("tune"@, ValueModel::Keyword("zerolatency"@)),
        ("key-int-max"@, ValueModel::Unsigned(interval)),
    ];
    assert forall|k: int| 0 <= k < 4 implies element.properties.contains(#[trigger] settings[k]) by {
        let at: int = if k == 0 {
            0
        } else if k == 1 {
            2
        } else if k == 2 {
            3
        } else {
            1
        };
        assert(element.properties[at] == settings[k]);
    }
    assert(is_set(element, "x264enc"@, settings));
}

/// Matroska files are written by `matroskamux`, and MP4 files by `qtmux`
/// with their index put in front.
pub proof fn law_container_decides_the_muxer(source: SourceModel, cfg: ConfigModel, preview: bool)
    requires
        source_element(source) is Ok,
    ensures
        exists|e: ElementModel| makes(recorded(source, cfg, preview), Part::Mux, e),
        forall|e: ElementModel| #[trigger]
            makes(recorded(source, cfg, preview), Part::Mux, e) ==> match cfg.container {
                Container::Mkv => is_set(e, "matroskamux"@, seq![]),
                Container::Mp4 => is_set(
                    e,
                    "qtmux"@,
                    seq![("faststart"@, ValueModel::Bool(true))],
                ),
            } && (e.factory == "matroskamux"@ <==> cfg.container == Container::Mkv),
{
    let steps = recorded(source, cfg, preview);
    lemma_video_at(source, cfg, preview, 5);
    let element = steps[5].action->Make_1;
    assert(made_at(steps, Part::Mux, element, 5));
    lemma_only_in_recording(source, cfg, preview, Part::Mux, element, 5);
    assert(makes(steps, Part::Mux, element));
    reveal_strlit("matroskamux");
    reveal_strlit("qtmux");
    assert("matroskamux"@.len() == 11 && "qtmux"@.len() == 5);
    if cfg.container == Container::Mp4 {
        assert(element.properties[0] == ("faststart"@, ValueModel::Bool(true)));
    }
}

/// The file is written to the very path that was asked for.
pub proof fn law_file_is_where_it_was_asked_for(
    source: SourceModel,
    cfg: ConfigModel,
    preview: bool,
)
    requires
        source_element(source) is Ok,
        valid_utf8(cfg.output_path),
    ensures
        exists|e: ElementModel| makes(recorded(source, cfg, preview), Part::FileSink, e),
        forall|e: ElementModel| #[trigger]
            makes(recorded(source, cfg, preview), Part::FileSink, e) ==> {
                &&& e.factory == "filesink"@
                &&& e.properties.len() == 1 && e.properties[0].0 == "location"@
                &&& e.properties[0].1 matches ValueModel::Text(place) && encode_utf8(place)
                    == cfg.output_path
            },
{
    let steps = recorded(source, cfg, preview);
    let place = decode_utf8(cfg.output_path);
    assert(steps[6] == file_sink(place));
    let element = steps[6].action->Make_1;
    assert(made_at(steps, Part::FileSink, element, 6));
    lemma_only_in_recording(source, cfg, preview, Part::FileSink, element, 6);
    assert(makes(steps, Part::FileSink, element));
    decode_utf8_encode_utf8(cfg.output_path);
}

/// Between source and encoder the pictures are converted, and between
/// encoder and muxer they are aligned.
pub proof fn law_pictures_are_converted_and_aligned(
    source: SourceModel,
    cfg: ConfigModel,
    preview: bool,
)
    requires
        source_element(source) is Ok,
    ensures
        forall|e: ElementModel| #[trigger]
            makes(recorded(source, cfg, preview), Part::Source, e) <==> e == source_element(
                source,
            )->Ok_0.0,
        exists|e: ElementModel| makes(recorded(source, cfg, preview), Part::Convert, e),
        forall|e: ElementModel| #[trigger]
            makes(recorded(source, cfg, preview), Part::Convert, e) ==> is_set(
                e,
                "videoconvert"@,
                seq![],
            ),
        exists|e: ElementModel| makes(recorded(source, cfg, preview), Part::Parse, e),
        forall|e: ElementModel| #[trigger]
            makes(recorded(source, cfg, preview), Part::Parse, e) ==> is_set(
                e,
                "h264parse"@,
                seq![],
            ),
{
    let steps = recorded(source, cfg, preview);
    lemma_video_at(source, cfg, preview, 0);
    lemma_video_at(source, cfg, preview, 2);
    lemma_video_at(source, cfg, preview, 4);
    let src = steps[0].action->Make_1;
    let convert = steps[2].action->Make_1;
    let parse = steps[4].action->Make_1;
    assert(made_at(steps, Part::Source, src, 0));
    assert(made_at(steps, Part::Convert, convert, 2));
    assert(made_at(steps, Part::Parse, parse, 4));
    lemma_only_in_recording(source, cfg, preview, Part::Source, src, 0);
    lemma_only_in_recording(source, cfg, preview, Part::Convert, convert, 2);
    lemma_only_in_recording(source, cfg, preview, Part::Parse, parse, 4);
    assert(makes(steps, Part::Convert, convert));
    assert(makes(steps, Part::Parse, parse));
}

/// Whether `element` lets through pictures for a preview only: small ones,
/// in the pixel format that the window shows, with square pixels.
pub open spec fn pins_preview(element: ElementModel) -> bool {
    &&& element.factory == "capsfilter"@
    &&& element.properties.len() == 1 && element.properties[0].0 == "caps"@
    &&& element.properties[0].1 matches ValueModel::Caps(caps) && {
        &&& caps.media == "video/x-raw"@
        &&& caps.fields.len() == 3
        &&& caps.fields.contains(("format"@, CapsValueModel::Text("BGRA"@)))
        &&& caps.fields.contains(("width"@, CapsValueModel::Int(480)))
        &&& caps.fields.contains(("pixel-aspect-ratio"@, CapsValueModel::Fraction(1, 1)))
    }
}

proof fn lemma_preview_scale()
    ensures
        preview_scale_chain().len() == 2,
        preview_scale_chain()[0].action matches ActionModel::Make(part, e) && part
            == Part::PreviewScale && is_set(e, "videoconvertscale"@, seq![]),
        preview_scale_chain()[1].action matches ActionModel::Make(part, e) && part
            == Part::PreviewCaps && pins_preview(e),
{
    let e = preview_scale_chain()[1].action->Make_1;
    let caps = e.properties[0].1->Caps_0;
    assert(caps.fields[0] == ("format"@, CapsValueModel::Text("BGRA"@)));
    assert(caps.fields[1] == ("width"@, CapsValueModel::Int(480)));
    assert(caps.fields[2] == ("pixel-aspect-ratio"@, CapsValueModel::Fraction(1, 1)));
}

/// The branch of a preview can never hold up the recording: its queue keeps
/// one picture and drops the older one. Its pictures are shrunk and pinned.
pub proof fn law_preview_branch_never_holds_up(source: SourceModel, cfg: ConfigModel)
    requires
        source_element(source) is Ok,
        valid_utf8(cfg.output_path),
    ensures
        exists|e: ElementModel| makes(recorded(source, cfg, true), Part::PreviewQueue, e),
        forall|e: ElementModel| #[trigger]
            makes(recorded(source, cfg, true), Part::PreviewQueue, e) ==> is_set(
                e,
                "queue"@,
                seq![
                    ("leaky"@, ValueModel::Keyword("downstream"@)),
                    ("max-size-buffers"@, ValueModel::Unsigned(1)),
                    ("max-size-bytes"@, ValueModel::Unsigned(0)),
                    ("max-size-time"@, ValueModel::Long(0)),
                ],
            ),
        exists|e: ElementModel| makes(recorded(source, cfg, true), Part::RecordQueue, e),
        forall|e: ElementModel| #[trigger]
            makes(recorded(source, cfg, true), Part::RecordQueue, e) ==> is_set(
                e,
                "queue"@,
                seq![],
            ),
        exists|e: ElementModel| makes(recorded(source, cfg, true), Part::Tee, e),
        forall|e: ElementModel| #[trigger]
            makes(recorded(source, cfg, true), Part::Tee, e) ==> is_set(e, "tee"@, seq![]),
        exists|e: ElementModel| makes(recorded(source, cfg, true), Part::PreviewScale, e),
        forall|e: ElementModel| #[trigger]
            makes(recorded(source, cfg, true), Part::PreviewScale, e) ==> is_set(
                e,
                "videoconvertscale"@,
                seq![],
            ),
        exists|e: ElementModel| makes(recorded(source, cfg, true), Part::PreviewCaps, e),
        forall|e: ElementModel| #[trigger]
            makes(recorded(source, cfg, true), Part::PreviewCaps, e) ==> pins_preview(e),
{
    let steps = recorded(source, cfg, true);
    lemma_preview_scale();
    assert(steps[7] == previewed_steps()[0]);
    assert(steps[8] == previewed_steps()[1]);
    assert(steps[9] == previewed_steps()[2]);
    assert(steps[10] == previewed_steps()[3]);
    assert(steps[11] == previewed_steps()[4]);
    assert(steps[10] == preview_scale_chain()[0]);
    assert(steps[11] == preview_scale_chain()[1]);
    let tee = steps[7].action->Make_1;
    let record = steps[8].action->Make_1;
    let queue = steps[9].action->Make_1;
    let scale = steps[10].action->Make_1;
    let caps = steps[11].action->Make_1;
    assert(made_at(steps, Part::Tee, tee, 7));
    assert(made_at(steps, Part::RecordQueue, record, 8));
    assert(made_at(steps, Part::PreviewQueue, queue, 9));
    assert(made_at(steps, Part::PreviewScale, scale, 10));
    assert(made_at(steps, Part::PreviewCaps, caps, 11));
    lemma_only_in_recording(source, cfg, true, Part::Tee, tee, 7);
    lemma_only_in_recording(source, cfg, true, Part::RecordQueue, record, 8);
    lemma_only_in_recording(source, cfg, true, Part::PreviewQueue, queue, 9);
    lemma_only_in_recording(source, cfg, true, Part::PreviewScale, scale, 10);
    lemma_only_in_recording(source, cfg, true, Part::PreviewCaps, caps, 11);
    assert(makes(steps, Part::Tee, tee));
    assert(makes(steps, Part::RecordQueue, record));
    assert(makes(steps, Part::PreviewQueue, queue));
    assert(makes(steps, Part::PreviewScale, scale));
    assert(makes(steps, Part::PreviewCaps, caps));
    let settings = seq![
        ("leaky"@, ValueModel::Keyword("downstream"@)),
        ("max-size-buffers"@, ValueModel::Unsigned(1)),
        ("max-size-bytes"@, ValueModel::Unsigned(0)),
        ("max-size-time"@, ValueModel::Long(0)),
    ];
    assert forall|k: int| 0 <= k < 4 implies queue.properties.contains(#[trigger] settings[k]) by {
        assert(queue.properties[k] == settings[k]);
    }
}

/// A preview on its own captures the source at a modest rate, and shrinks
/// and pins its pictures as a recording's preview does.
pub proof fn law_preview_alone_is_modest(source: SourceModel)
    requires
        source_element(source) is Ok,
    ensures
        ({
            let steps = preview_only_steps(source_element(source)->Ok_0);
            &&& forall|e: ElementModel| #[trigger]
                makes(steps, Part::Source, e) <==> e == source_element(source)->Ok_0.0
            &&& exists|e: ElementModel| makes(steps, Part::VideoCaps, e)
            &&& forall|e: ElementModel| #[trigger]
                makes(steps, Part::VideoCaps, e) ==> {
                    &&& e.factory == "capsfilter"@
                    &&& e.properties.len() == 1 && e.properties[0].0 == "caps"@
                    &&& e.properties[0].1 matches ValueModel::Caps(caps) && caps.media
                        == "video/x-raw"@ && caps.fields == seq![
                        ("framerate"@, CapsValueModel::Fraction(15, 1)),
                    ]
                }
            &&& exists|e: ElementModel| makes(steps, Part::PreviewScale, e)
            &&& forall|e: ElementModel| #[trigger]
                makes(steps, Part::PreviewScale, e) ==> is_set(e, "videoconvertscale"@, seq![])
            &&& exists|e: ElementModel| makes(steps, Part::PreviewCaps, e)
            &&& forall|e: ElementModel| #[trigger]
                makes(steps, Part::PreviewCaps, e) ==> pins_preview(e)
            &&& !exists|e: ElementModel| makes(steps, Part::Encoder, e)
            &&& !exists|e: ElementModel| makes(steps, Part::Mux, e)
            &&& !exists|e: ElementModel| makes(steps, Part::FileSink, e)
        }),
{
    let steps = preview_only_steps(source_element(source)->Ok_0);
    let start = Assembly::start(at_hand(true));
    law_preview_alone_is_assembled_in_order(source);
    lemma_preview_scale();
    assert(steps.len() == 6);
    assert(steps[2] == preview_scale_chain()[0] && steps[3] == preview_scale_chain()[1]);
    let src = steps[0].action->Make_1;
    let filter = steps[1].action->Make_1;
    let scale = steps[2].action->Make_1;
    let caps = steps[3].action->Make_1;
    assert(made_at(steps, Part::Source, src, 0));
    assert(made_at(steps, Part::VideoCaps, filter, 1));
    assert(made_at(steps, Part::PreviewScale, scale, 2));
    assert(made_at(steps, Part::PreviewCaps, caps, 3));
    lemma_only(start, steps, Part::Source, src, 0);
    lemma_only(start, steps, Part::VideoCaps, filter, 1);
    lemma_only(start, steps, Part::PreviewScale, scale, 2);
    lemma_only(start, steps, Part::PreviewCaps, caps, 3);
    assert(makes(steps, Part::VideoCaps, filter));
    assert(makes(steps, Part::PreviewScale, scale));
    assert(makes(steps, Part::PreviewCaps, caps));
    assert(filter.properties[0].1->Caps_0.fields =~= seq![
        ("framerate"@, CapsValueModel::Fraction(15, 1)),
    ]);
}

/// An X11 source shows the whole default screen unless something narrower
/// was chosen: the display, window and region that it captures are exactly
/// the chosen ones, and a region ends where its position and size say.
pub proof fn law_x11_source_captures_what_was_chosen(cfg: ScreenModel)
    requires
        cfg.region matches Some(r) ==> r.fits(),
    ensures
        source_element(SourceModel::X11Screen(cfg)) matches Ok(made) && {
            let e = made.0;
            let p = e.properties;
            &&& e.factory == "ximagesrc"@
            &&& p.contains(("use-damage"@, ValueModel::Bool(false)))
            &&& p.contains(("show-pointer"@, ValueModel::Bool(cfg.show_pointer)))
            &&& cfg.display_name matches Some(d) ==> p.contains(
                ("display-name"@, ValueModel::Text(d)),
            )
            &&& cfg.xid matches Some(x) ==> p.contains(("xid"@, ValueModel::Long(x)))
            &&& cfg.region matches Some(r) ==> {
                &&& p.contains(("startx"@, ValueModel::Unsigned(r.x)))
                &&& p.contains(("starty"@, ValueModel::Unsigned(r.y)))
                &&& p.contains(("endx"@, ValueModel::Unsigned((r.x + r.width) as u32)))
                &&& p.contains(("endy"@, ValueModel::Unsigned((r.y + r.height) as u32)))
            }
            &&& p.len() == 2 + (if cfg.display_name is Some {
                1int
            } else {
                0
            }) + (if cfg.xid is Some {
                1int
            } else {
                0
            }) + (if cfg.region is Some {
                4int
            } else {
                0
            })
        },
{
    let p = source_element(SourceModel::X11Screen(cfg))->Ok_0.0.properties;
    let named: int = if cfg.display_name is Some {
        3
    } else {
        2
    };
    let targeted: int = if cfg.xid is Some {
        named + 1
    } else {
        named
    };
    assert(p[0] == ("use-damage"@, ValueModel::Bool(false)));
    assert(p[1] == ("show-pointer"@, ValueModel::Bool(cfg.show_pointer)));
    if let Some(d) = cfg.display_name {
        assert(p[2] == ("display-name"@, ValueModel::Text(d)));
    }
    if let Some(x) = cfg.xid {
        assert(p[named] == ("xid"@, ValueModel::Long(x)));
    }
    if let Some(r) = cfg.region {
        assert(p[targeted] == ("startx"@, ValueModel::Unsigned(r.x)));
        assert(p[targeted + 1] == ("starty"@, ValueModel::Unsigned(r.y)));
        assert(p[targeted + 2] == ("endx"@, ValueModel::Unsigned((r.x + r.width) as u32)));
        assert(p[targeted + 3] == ("endy"@, ValueModel::Unsigned((r.y + r.height) as u32)));
    }
}

/// A portal's source receives the very stream that was granted, over the
/// very connection; and where none has been granted yet, the portal is to be
/// asked with the pointer as it was chosen.
pub proof fn law_portal_source_receives_what_was_granted(cfg: PortalConfig)
    ensures
        match cfg.negotiated {
            Some(session) => source_element(SourceModel::Portal(cfg)) matches Ok(made) && {
                let p = made.0.properties;
                &&& made.0.factory == "pipewiresrc"@
                &&& p.len() == 2
                &&& p.contains(("fd"@, ValueModel::Int(session.fd)))
                &&& exists|node: Seq<char>|
                    {
                        &&& p.contains(("target-object"@, ValueModel::Text(node)))
                        &&& #[trigger] positional(node, 10) == session.node
                        &&& node.len() > 0 && forall|i: int|
                            0 <= i < node.len() ==> '0' <= #[trigger] node[i] <= '9'
                    }
            },
            None => source_element(SourceModel::Portal(cfg)) matches Err(needed)
                && needed.show_pointer == cfg.show_pointer,
        },
{
    if let Some(session) = cfg.negotiated {
        let p = source_element(SourceModel::Portal(cfg))->Ok_0.0.properties;
        let node = decimal(session.node as nat);
        lemma_radix_reads_back(session.node as nat, 10);
        assert(p[0] == ("fd"@, ValueModel::Int(session.fd)));
        assert(p[1] == ("target-object"@, ValueModel::Text(node)));
        assert forall|i: int| 0 <= i < node.len() implies '0' <= #[trigger] node[i] <= '9' by {
            assert(is_digit(node[i], 10));
        }
        assert(positional(node, 10) == session.node);
    }
}

/// Whether `element` pins the layout that sound is recorded in.
pub open spec fn pins_layout(element: ElementModel) -> bool {
    &&& element.factory == "capsfilter"@
    &&& element.properties.len() == 1 && element.properties[0].0 == "caps"@
    &&& element.properties[0].1 matches ValueModel::Caps(caps) && {
        &&& caps.media == "audio/x-raw"@
        &&& caps.fields.len() == 2
        &&& caps.fields.contains(("rate"@, CapsValueModel::Int(48_000)))
        &&& caps.fields.contains(("channels"@, CapsValueModel::Int(2)))
    }
}

proof fn lemma_layout(element: ElementModel)
    requires
        element == audio_capsfilter(),
    ensures
        pins_layout(element),
{
    let caps = element.properties[0].1->Caps_0;
    assert(caps.fields[0] == ("rate"@, CapsValueModel::Int(48_000)));
    assert(caps.fields[1] == ("channels"@, CapsValueModel::Int(2)));
}

proof fn lemma_only_in_sound(
    mode: AudioMode,
    device: Option<Seq<char>>,
    part: Part,
    element: ElementModel,
    i: int,
)
    requires
        made_at(audio_steps(mode, device), part, element, i),
    ensures
        forall|e: ElementModel| #[trigger]
            makes(audio_steps(mode, device), part, e) <==> e == element,
{
    let start = Assembly::start(Set::empty());
    lemma_sound(start, mode, device);
    lemma_only(start, audio_steps(mode, device), part, element, i);
}

/// Where a capture's steps begin among the steps of the sound branch.
spec fn chain_start(mode: AudioMode, device: Option<Seq<char>>, capture: Capture) -> int {
    match (mode, capture) {
        (AudioMode::System, _) => if device is Some {
            0
        } else {
            1
        },
        (AudioMode::Both, Capture::System) => 7,
        _ => 0,
    }
}

/// Whether a mode asks for a capture.
pub open spec fn asks_for(mode: AudioMode, capture: Capture) -> bool {
    match capture {
        Capture::Mic => mode == AudioMode::Mic || mode == AudioMode::Both,
        Capture::System => mode == AudioMode::System || mode == AudioMode::Both,
    }
}

/// A capture's chain, where it stands.
proof fn lemma_chain_at(mode: AudioMode, device: Option<Seq<char>>, capture: Capture, k: int)
    requires
        asks_for(mode, capture),
        !(mode == AudioMode::Both && device is Some),
        0 <= k < 4,
    ensures
        ({
            let steps = audio_steps(mode, device);
            let i = chain_start(mode, device, capture) + k;
            let chosen = match capture {
                Capture::Mic => match device {
                    Some(d) => Some(ValueModel::Text(d)),
                    None => None,
                },
                Capture::System => match device {
                    Some(d) => Some(ValueModel::Text(d)),
                    None => Some(ValueModel::DefaultMonitor),
                },
            };
            &&& 0 <= i < steps.len()
            &&& steps[i] == capture_chain(capture, chosen)[k]
        }),
{
}

/// The steps of the sound branch that end it.
proof fn lemma_encoder_at(mode: AudioMode, device: Option<Seq<char>>)
    requires
        mode != AudioMode::Off,
        !(mode == AudioMode::Both && device is Some),
    ensures
        ({
            let steps = audio_steps(mode, device);
            let i: int = match mode {
                AudioMode::Both => 20,
                AudioMode::System => if device is Some {
                    6
                } else {
                    7
                },
                _ => 6,
            };
            &&& i + 1 < steps.len()
            &&& steps[i] == encoder_tail()[0]
            &&& steps[i + 1] == encoder_tail()[1]
        }),
{
    if mode == AudioMode::Both {
        assert(mixer().len() == 7);
    }
}

/// System sound is recorded from what the default sink plays: the capture's
/// device is the monitor that an earlier step looks up, unless a device of
/// one's own takes its place. Only the microphone is ever captured without a
/// device, and then it is the default one.
pub proof fn law_sound_comes_from_the_right_device(
    mode: AudioMode,
    device: Option<Seq<char>>,
    capture: Capture,
)
    requires
        asks_for(mode, capture),
        !(mode == AudioMode::Both && device is Some),
    ensures
        exists|e: ElementModel| makes(audio_steps(mode, device), Part::AudioSource(capture), e),
        forall|e: ElementModel| #[trigger]
            makes(audio_steps(mode, device), Part::AudioSource(capture), e) ==> {
                &&& e.factory == "pulsesrc"@
                &&& device matches Some(d) ==> is_set(
                    e,
                    "pulsesrc"@,
                    seq![("device"@, ValueModel::Text(d))],
                )
                &&& device is None && capture == Capture::System ==> is_set(
                    e,
                    "pulsesrc"@,
                    seq![("device"@, ValueModel::DefaultMonitor)],
                )
                &&& device is None && capture == Capture::Mic ==> is_set(e, "pulsesrc"@, seq![])
            },
        device is None && capture == Capture::System ==> forall|e: ElementModel, i: int|
            #[trigger] made_at(audio_steps(mode, device), Part::AudioSource(capture), e, i)
                ==> exists|j: int|
                0 <= j < i && (#[trigger] audio_steps(mode, device)[j]).action
                    == ActionModel::LookupMonitor,
{
    let steps = audio_steps(mode, device);
    let i = chain_start(mode, device, capture);
    lemma_chain_at(mode, device, capture, 0);
    let element = steps[i].action->Make_1;
    assert(made_at(steps, Part::AudioSource(capture), element, i));
    lemma_only_in_sound(mode, device, Part::AudioSource(capture), element, i);
    assert(makes(steps, Part::AudioSource(capture), element));
    if let Some(d) = device {
        assert(element.properties[0] == ("device"@, ValueModel::Text(d)));
    } else if capture == Capture::System {
        assert(element.properties[0] == ("device"@, ValueModel::DefaultMonitor));
        assert(steps[i - 1].action == ActionModel::LookupMonitor);
        assert forall|e: ElementModel, n: int| #[trigger]
            made_at(steps, Part::AudioSource(capture), e, n) implies exists|j: int|
            0 <= j < n && (#[trigger] steps[j]).action == ActionModel::LookupMonitor by {
            let start = Assembly::start(Set::empty());
            lemma_sound(start, mode, device);
            lemma_made_once(start, steps, Part::AudioSource(capture), e, n, element, i);
            assert(steps[i - 1].action == ActionModel::LookupMonitor);
        }
    }
}

/// Nothing is captured that was not asked for: no sound at all without a
/// mode, no microphone with system sound alone, and no system sound with the
/// microphone alone.
pub proof fn law_only_what_is_asked_for_is_captured(
    mode: AudioMode,
    device: Option<Seq<char>>,
    capture: Capture,
    e: ElementModel,
)
    requires
        !asks_for(mode, capture),
    ensures
        !makes(audio_steps(mode, device), Part::AudioSource(capture), e),
        mode == AudioMode::Off ==> audio_steps(mode, device).len() == 0,
{
    let steps = audio_steps(mode, device);
    assert forall|i: int| !made_at(steps, Part::AudioSource(capture), e, i) by {
        if 0 <= i < steps.len() {
            assert(encoder_tail().len() == 4);
        }
    }
}

/// Every capture is converted, resampled and pinned to one layout; what two
/// of them are mixed into keeps it; and sound is encoded as AAC.
pub proof fn law_sound_is_brought_to_one_layout(
    mode: AudioMode,
    device: Option<Seq<char>>,
    capture: Capture,
)
    requires
        asks_for(mode, capture),
        !(mode == AudioMode::Both && device is Some),
    ensures
        ({
            let steps = audio_steps(mode, device);
            &&& exists|e: ElementModel| makes(steps, Part::AudioConvert(capture), e)
            &&& forall|e: ElementModel| #[trigger]
                makes(steps, Part::AudioConvert(capture), e) ==> is_set(e, "audioconvert"@, seq![])
            &&& exists|e: ElementModel| makes(steps, Part::AudioResample(capture), e)
            &&& forall|e: ElementModel| #[trigger]
                makes(steps, Part::AudioResample(capture), e) ==> is_set(
                    e,
                    "audioresample"@,
                    seq![],
                )
            &&& exists|e: ElementModel| makes(steps, Part::AudioCaps(capture), e)
            &&& forall|e: ElementModel| #[trigger]
                makes(steps, Part::AudioCaps(capture), e) ==> pins_layout(e)
            &&& exists|e: ElementModel| makes(steps, Part::AudioEncoder, e)
            &&& forall|e: ElementModel| #[trigger]
                makes(steps, Part::AudioEncoder, e) ==> is_set(e, "voaacenc"@, seq![])
            &&& exists|e: ElementModel| makes(steps, Part::AudioParse, e)
            &&& forall|e: ElementModel| #[trigger]
                makes(steps, Part::AudioParse, e) ==> is_set(e, "aacparse"@, seq![])
            &&& mode == AudioMode::Both ==> {
                &&& exists|e: ElementModel| makes(steps, Part::Mixer, e)
                &&& forall|e: ElementModel| #[trigger]
                    makes(steps, Part::Mixer, e) ==> is_set(e, "audiomixer"@, seq![])
                &&& exists|e: ElementModel| makes(steps, Part::MixCaps, e)
                &&& forall|e: ElementModel| #[trigger]
                    makes(steps, Part::MixCaps, e) ==> pins_layout(e)
            }
        }),
{
    let steps = audio_steps(mode, device);
    let i = chain_start(mode, device, capture);
    lemma_chain_at(mode, device, capture, 1);
    lemma_chain_at(mode, device, capture, 2);
    lemma_chain_at(mode, device, capture, 3);
    lemma_encoder_at(mode, device);
    let n: int = match mode {
        AudioMode::Both => 20,
        AudioMode::System => if device is Some {
            6
        } else {
            7
        },
        _ => 6,
    };
    let convert = steps[i + 1].action->Make_1;
    let resample = steps[i + 2].action->Make_1;
    let caps = steps[i + 3].action->Make_1;
    let encoder = steps[n].action->Make_1;
    let parse = steps[n + 1].action->Make_1;
    lemma_layout(caps);
    assert(made_at(steps, Part::AudioConvert(capture), convert, i + 1));
    assert(made_at(steps, Part::AudioResample(capture), resample, i + 2));
    assert(made_at(steps, Part::AudioCaps(capture), caps, i + 3));
    assert(made_at(steps, Part::AudioEncoder, encoder, n));
    assert(made_at(steps, Part::AudioParse, parse, n + 1));
    lemma_only_in_sound(mode, device, Part::AudioConvert(capture), convert, i + 1);
    lemma_only_in_sound(mode, device, Part::AudioResample(capture), resample, i + 2);
    lemma_only_in_sound(mode, device, Part::AudioCaps(capture), caps, i + 3);
    lemma_only_in_sound(mode, device, Part::AudioEncoder, encoder, n);
    lemma_only_in_sound(mode, device, Part::AudioParse, parse, n + 1);
    assert(makes(steps, Part::AudioConvert(capture), convert));
    assert(makes(steps, Part::AudioResample(capture), resample));
    assert(makes(steps, Part::AudioCaps(capture), caps));
    assert(makes(steps, Part::AudioEncoder, encoder));
    assert(makes(steps, Part::AudioParse, parse));
    if mode == AudioMode::Both {
        assert(steps[13] == mixer()[0] && steps[17] == mixer()[4]);
        let mixing = steps[13].action->Make_1;
        let mixed = steps[17].action->Make_1;
        lemma_layout(mixed);
        assert(made_at(steps, Part::Mixer, mixing, 13));
        assert(made_at(steps, Part::MixCaps, mixed, 17));
        lemma_only_in_sound(mode, device, Part::Mixer, mixing, 13);
        lemma_only_in_sound(mode, device, Part::MixCaps, mixed, 17);
        assert(makes(steps, Part::Mixer, mixing));
        assert(makes(steps, Part::MixCaps, mixed));
    }
}

/// The sound branch is part of the recording, step for step, behind the
/// elements for the pictures.
pub proof fn law_recordings_hold_their_sound_branch(
    source: SourceModel,
    cfg: ConfigModel,
    preview: bool,
    k: int,
)
    requires
        source_element(source) is Ok,
        valid_utf8(cfg.output_path),
        0 <= k < audio_steps(cfg.audio_mode, cfg.audio_device).len(),
    ensures
        recorded(source, cfg, preview).contains(audio_steps(cfg.audio_mode, cfg.audio_device)[k]),
{
    let steps = recorded(source, cfg, preview);
    let i: int = if preview {
        16 + k
    } else {
        9 + k
    };
    assert(previewed_steps().len() == 9);
    assert(steps[i] == audio_steps(cfg.audio_mode, cfg.audio_device)[k]);
}

/// The links that lead the pictures into the file, and with a preview onto
/// it; and behind them those that lead the sound into the same file. There
/// are no others.
pub proof fn law_recording_is_linked_up(source: SourceModel, cfg: ConfigModel, preview: bool)
    requires
        source_element(source) is Ok,
        valid_utf8(cfg.output_path),
    ensures
        ({
            let links = assembled(source, cfg, preview).links;
            let sound = cfg.audio_mode != AudioMode::Off && !(cfg.audio_mode == AudioMode::Both
                && cfg.audio_device is Some);
            &&& links.contains((Part::Source, Part::VideoCaps))
            &&& links.contains((Part::VideoCaps, Part::Convert))
            &&& links.contains((Part::Encoder, Part::Parse))
            &&& links.contains((Part::Parse, Part::Mux))
            &&& links.contains((Part::Mux, Part::FileSink))
            &&& !preview ==> links.contains((Part::Convert, Part::Encoder))
            &&& preview ==> {
                &&& links.contains((Part::Convert, Part::Tee))
                &&& links.contains((Part::Tee, Part::RecordQueue))
                &&& links.contains((Part::RecordQueue, Part::Encoder))
                &&& links.contains((Part::Tee, Part::PreviewQueue))
                &&& links.contains((Part::PreviewQueue, Part::PreviewScale))
                &&& links.contains((Part::PreviewScale, Part::PreviewCaps))
                &&& links.contains((Part::PreviewCaps, Part::PreviewSink))
            }
            &&& sound ==> {
                &&& links.contains((Part::AudioEncoder, Part::AudioParse))
                &&& links.contains((Part::AudioParse, Part::Mux))
            }
            &&& forall|c: Capture| sound && #[trigger] asks_for(cfg.audio_mode, c) ==> {
                &&& links.contains((Part::AudioSource(c), Part::AudioConvert(c)))
                &&& links.contains((Part::AudioConvert(c), Part::AudioResample(c)))
                &&& links.contains((Part::AudioResample(c), Part::AudioCaps(c)))
                &&& cfg.audio_mode == AudioMode::Both ==> links.contains(
                    (Part::AudioCaps(c), Part::Mixer),
                )
                &&& cfg.audio_mode != AudioMode::Both ==> links.contains(
                    (Part::AudioCaps(c), Part::AudioEncoder),
                )
            }
            &&& sound && cfg.audio_mode == AudioMode::Both ==> {
                &&& links.contains((Part::Mixer, Part::MixCaps))
                &&& links.contains((Part::MixCaps, Part::AudioEncoder))
            }
            &&& links.len() == (if preview {
                12int
            } else {
                6
            }) + (if !sound {
                0int
            } else if cfg.audio_mode == AudioMode::Both {
                12
            } else {
                6
            })
        }),
{
    law_recording_is_assembled_in_order(source, cfg, preview);
    let links = assembled(source, cfg, preview).links;
    let video = video_links(preview);
    let mode = cfg.audio_mode;
    let v: int = if preview {
        12
    } else {
        6
    };
    assert(video.len() == v);
    if preview {
        assert(links[0] == video[0] && links[1] == video[1] && links[2] == video[2]);
        assert(links[3] == video[3] && links[4] == video[4] && links[5] == video[5]);
        assert(links[6] == video[6] && links[7] == video[7] && links[8] == video[8]);
        assert(links[9] == video[9] && links[10] == video[10] && links[11] == video[11]);
    } else {
        assert(links[0] == video[0] && links[1] == video[1] && links[2] == video[2]);
        assert(links[3] == video[3] && links[4] == video[4] && links[5] == video[5]);
    }
    if has_branch(mode, cfg.audio_device) {
        let sound = sound_links(mode);
        let into = joints(seq![Part::AudioParse, Part::Mux]);
        assert(into.len() == 1 && into[0] == (Part::AudioParse, Part::Mux));
        assert(links[v + sound.len()] == into[0]);
        if mode == AudioMode::Both {
            assert(sound.len() == 11);
            assert(links[v] == sound[0] && links[v + 1] == sound[1] && links[v + 2] == sound[2]);
            assert(links[v + 3] == sound[3] && links[v + 4] == sound[4] && links[v + 5] == sound[5]);
            assert(links[v + 6] == sound[6] && links[v + 7] == sound[7] && links[v + 8] == sound[8]);
            assert(links[v + 9] == sound[9] && links[v + 10] == sound[10]);
        } else {
            assert(sound.len() == 5);
            assert(links[v] == sound[0] && links[v + 1] == sound[1] && links[v + 2] == sound[2]);
            assert(links[v + 3] == sound[3] && links[v + 4] == sound[4]);
        }
    }
}

/// Whether a step gives up.
pub open spec fn gives_up(step: StepModel) -> bool {
    step.action is RejectPath || step.action is Refuse
}

proof fn lemma_refused(start: Assembly, steps: Seq<StepModel>, n: nat)
    requires
        n <= steps.len(),
    ensures
        start.after(steps, n).refused <==> start.refused || exists|i: int|
            0 <= i < n && gives_up(#[trigger] steps[i]),
    decreases n,
{
    if n > 0 {
        lemma_refused(start, steps, (n - 1) as nat);
        assert(gives_up(steps[n - 1]) || !gives_up(steps[n - 1]));
    }
}

/// A recording is given up exactly where its path cannot be written down, or
/// where a device is named for two captures; and a preview never is.
pub proof fn law_recordings_are_given_up_for_a_reason(
    source: SourceModel,
    cfg: ConfigModel,
    preview: bool,
)
    requires
        source_element(source) is Ok,
    ensures
        (exists|i: int|
            0 <= i < recorded(source, cfg, preview).len() && gives_up(
                #[trigger] recorded(source, cfg, preview)[i],
            )) <==> (!valid_utf8(cfg.output_path) || (cfg.audio_mode == AudioMode::Both
            && cfg.audio_device is Some)),
        !valid_utf8(cfg.output_path) ==> recorded(source, cfg, preview).last().action
            == ActionModel::RejectPath,
        valid_utf8(cfg.output_path) && cfg.audio_mode == AudioMode::Both && cfg.audio_device is Some
            ==> recorded(source, cfg, preview).last().action == ActionModel::Refuse,
{
    let steps = recorded(source, cfg, preview);
    law_recording_is_assembled_in_order(source, cfg, preview);
    lemma_refused(Assembly::start(at_hand(preview)), steps, steps.len());
}

/// A frame rate that does not fit in 31 bits is handed on as the same 32
/// bits, read with a sign.
pub proof fn law_large_frame_rates_keep_their_bits(
    source: SourceModel,
    cfg: ConfigModel,
    preview: bool,
)
    requires
        source_element(source) is Ok,
        cfg.framerate > i32::MAX,
    ensures
        exists|e: ElementModel| makes(recorded(source, cfg, preview), Part::VideoCaps, e),
        forall|e: ElementModel| #[trigger]
            makes(recorded(source, cfg, preview), Part::VideoCaps, e) ==> {
                &&& e.factory == "capsfilter"@
                &&& e.properties.len() == 1 && e.properties[0].0 == "caps"@
                &&& e.properties[0].1 matches ValueModel::Caps(caps) && {
                    &&& caps.media == "video/x-raw"@
                    &&& caps.fields.len() == 1 && caps.fields[0].0 == "framerate"@
                    &&& caps.fields[0].1 matches CapsValueModel::Fraction(n, d) && n
                        == cfg.framerate - 0x1_0000_0000 && d == 1
                }
            },
{
    let steps = recorded(source, cfg, preview);
    lemma_video_at(source, cfg, preview, 1);
    let element = steps[1].action->Make_1;
    assert(made_at(steps, Part::VideoCaps, element, 1));
    lemma_only_in_recording(source, cfg, preview, Part::VideoCaps, element, 1);
    assert(makes(steps, Part::VideoCaps, element));
    let rate: u32 = cfg.framerate;
    assert(rate > 0x7fff_ffffu32 ==> (#[verifier::truncate]
    (rate as i32)) == rate - 0x1_0000_0000) by (bit_vector);
}

/// Whether a step that creates an element names it only if it is one of the
/// two queues behind the tee, and then after its branch.
pub open spec fn named_as_it_should_be(step: StepModel) -> bool {
    step.action matches ActionModel::Make(part, element) ==> element.name == (if part
        == Part::RecordQueue {
        Some("record-queue"@)
    } else if part == Part::PreviewQueue {
        Some("preview-queue"@)
    } else {
        None
    })
}

/// The two queues behind the tee are told apart by name; nothing else has a
/// name of its own, so that no two elements share one.
pub proof fn law_only_queues_are_named(
    source: SourceModel,
    cfg: ConfigModel,
    preview: bool,
    i: int,
)
    requires
        source_element(source) is Ok,
    ensures
        0 <= i < recorded(source, cfg, preview).len() ==> named_as_it_should_be(
            recorded(source, cfg, preview)[i],
        ),
        0 <= i < preview_only_steps(source_element(source)->Ok_0).len() ==> named_as_it_should_be(
            preview_only_steps(source_element(source)->Ok_0)[i],
        ),
{
    let alone = preview_only_steps(source_element(source)->Ok_0);
    if 2 <= i < 4 {
        assert(alone[i] == preview_scale_chain()[i - 2]);
    }
    let steps = recorded(source, cfg, preview);
    let pictures = video_elements(source_element(source)->Ok_0, cfg);
    let joined = if preview {
        previewed_steps()
    } else {
        plain_steps()
    };
    let sound = audio_steps(cfg.audio_mode, cfg.audio_device);
    if 0 <= i < steps.len() {
        if i < 6 {
            assert(steps[i] == pictures[i]);
        } else if valid_utf8(cfg.output_path) && i > 6 {
            if i < 7 + joined.len() {
                assert(steps[i] == joined[i - 7]);
                if preview && 10 <= i < 12 {
                    assert(steps[i] == preview_scale_chain()[i - 10]);
                }
            } else if i < 7 + joined.len() + sound.len() {
                assert(steps[i] == sound[i - 7 - joined.len()]);
                lemma_sound_is_unnamed(
                    cfg.audio_mode,
                    cfg.audio_device,
                    i - 7 - joined.len(),
                );
            }
        }
    }
}

proof fn lemma_sound_is_unnamed(mode: AudioMode, device: Option<Seq<char>>, i: int)
    requires
        0 <= i < audio_steps(mode, device).len(),
    ensures
        named_as_it_should_be(audio_steps(mode, device)[i]),
{
    let steps = audio_steps(mode, device);
    match mode {
        AudioMode::Off => {},
        AudioMode::Mic => {
            let chain = capture_chain(
                Capture::Mic,
                match device {
                    Some(d) => Some(ValueModel::Text(d)),
                    None => None,
                },
            );
            if i < 6 {
                assert(steps[i] == chain[i]);
            } else if i < 10 {
                assert(steps[i] == encoder_tail()[i - 6]);
            }
        },
        AudioMode::System => {
            if device is Some {
                let chain = capture_chain(Capture::System, Some(ValueModel::Text(device->0)));
                if i < 6 {
                    assert(steps[i] == chain[i]);
                } else if i < 10 {
                    assert(steps[i] == encoder_tail()[i - 6]);
                }
            } else {
                let chain = capture_chain(Capture::System, Some(ValueModel::DefaultMonitor));
                if 0 < i < 7 {
                    assert(steps[i] == chain[i - 1]);
                } else if 7 <= i < 11 {
                    assert(steps[i] == encoder_tail()[i - 7]);
                }
            }
        },
        AudioMode::Both => {
            if device is None {
                let mic = capture_chain(Capture::Mic, None);
                let system = capture_chain(Capture::System, Some(ValueModel::DefaultMonitor));
                if i < 6 {
                    assert(steps[i] == mic[i]);
                } else if 7 <= i < 13 {
                    assert(steps[i] == system[i - 7]);
                } else if 13 <= i < 20 {
                    assert(steps[i] == mixer()[i - 13]);
                } else if 20 <= i < 24 {
                    assert(steps[i] == encoder_tail()[i - 20]);
                }
            }
        },
    }
}

} // verus!
