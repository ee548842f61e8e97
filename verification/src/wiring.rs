//! How the pipelines come out when their plans are carried out.
use vstd::prelude::*;
use vstd::utf8::valid_utf8;
use crate::audio::{
    audio_capsfilter, audio_steps, capture_chain, capture_parts, encoder_tail, has_branch, mixer, pulsesrc,
};
use crate::cli::AudioMode;
use crate::pipeline::{
    file_sink, plain_route, plain_steps, preview_only_route, preview_only_steps, preview_route,
    preview_scale_chain, previewed_parts, previewed_steps, record_route, recording_steps, shared_route,
    sound_link, video_elements, ConfigModel,
};
use crate::plan::{
    joints, lemma_run_in_turn, link, lookup_monitor, reject_path, ActionModel, Assembly, Capture, ElementModel, Part, StepModel,
    ValueModel,
};
use crate::source::{source_element, SourceModel};

verus! {

/// One capture comes out whole, in order, and linked through.
proof fn lemma_capture_chain(a: Assembly, capture: Capture, device: Option<ValueModel>)
    requires
        a.orderly,
        device == Some(ValueModel::DefaultMonitor) ==> a.monitor,
        forall|j: int|
            0 <= j < 4 ==> !a.created.contains(#[trigger] capture_parts(capture)[j])
                && !a.added.contains(capture_parts(capture)[j]),
    ensures
        a.run(capture_chain(capture, device)) == (Assembly {
            created: a.created.union(capture_parts(capture).to_set()),
            added: a.added.union(capture_parts(capture).to_set()),
            links: a.links + joints(capture_parts(capture)),
            ..a
        }),
{
    reveal_with_fuel(Assembly::after, 8);
    let steps = capture_chain(capture, device);
    let parts = capture_parts(capture);
    assert(parts[0] == Part::AudioSource(capture));
    assert(parts[1] == Part::AudioConvert(capture));
    assert(parts[2] == Part::AudioResample(capture));
    assert(parts[3] == Part::AudioCaps(capture));
    let a1 = a.after(steps, 1);
    if pulsesrc(device).uses_monitor() {
        let i = choose|i: int|
            0 <= i < pulsesrc(device).properties.len() && (#[trigger] pulsesrc(device).properties[i]).1
                == ValueModel::DefaultMonitor;
        assert(device is Some);
        assert(pulsesrc(device).properties[i].1 == device->0);
    }
    assert(a1.orderly);
    let a4 = a.after(steps, 4);
    assert(a4.orderly);
    assert(a4.created =~= a.created.union(parts.to_set())) by {
        assert forall|p: Part| a4.created.contains(p) == a.created.union(parts.to_set()).contains(p) by {
            assert(parts.contains(p) <==> (p == parts[0] || p == parts[1] || p == parts[2] || p == parts[3]));
        }
    }
    let a5 = a.after(steps, 5);
    assert(a5.orderly);
    let a6 = a.after(steps, 6);
    assert(a6.orderly);
    assert(steps.len() == 6);
}

/// The parts that encode sound.
pub open spec fn encoder_parts() -> Seq<Part> {
    seq![Part::AudioEncoder, Part::AudioParse]
}

/// The encoder comes out whole, in order, and linked through.
proof fn lemma_encoder_tail(a: Assembly)
    requires
        a.orderly,
        forall|j: int|
            0 <= j < 2 ==> !a.created.contains(#[trigger] encoder_parts()[j]) && !a.added.contains(
                encoder_parts()[j],
            ),
    ensures
        a.run(encoder_tail()) == (Assembly {
            created: a.created.union(encoder_parts().to_set()),
            added: a.added.union(encoder_parts().to_set()),
            links: a.links + joints(encoder_parts()),
            ..a
        }),
{
    reveal_with_fuel(Assembly::after, 6);
    let steps = encoder_tail();
    let parts = encoder_parts();
    assert(parts[0] == Part::AudioEncoder);
    assert(parts[1] == Part::AudioParse);
    let a2 = a.after(steps, 2);
    assert(a2.orderly);
    assert(a2.created =~= a.created.union(parts.to_set())) by {
        assert forall|p: Part| a2.created.contains(p) == a.created.union(parts.to_set()).contains(p) by {
            assert(parts.contains(p) <==> (p == parts[0] || p == parts[1]));
        }
    }
    let a3 = a.after(steps, 3);
    assert(a3.orderly);
    let a4 = a.after(steps, 4);
    assert(a4.orderly);
    assert(steps.len() == 4);
}

/// The mixer comes out in order, fed by both captures.
proof fn lemma_mixer(a: Assembly)
    requires
        a.orderly,
        a.added.contains(Part::AudioCaps(Capture::Mic)),
        a.added.contains(Part::AudioCaps(Capture::System)),
        !a.created.contains(Part::Mixer) && !a.added.contains(Part::Mixer),
        !a.created.contains(Part::MixCaps) && !a.added.contains(Part::MixCaps),
    ensures
        a.run(mixer()) == (Assembly {
            created: a.created.insert(Part::Mixer).insert(Part::MixCaps),
            added: a.added.insert(Part::Mixer).insert(Part::MixCaps),
            links: a.links + joints(seq![Part::AudioCaps(Capture::Mic), Part::Mixer]) + joints(
                seq![Part::AudioCaps(Capture::System), Part::Mixer],
            ) + joints(seq![Part::Mixer, Part::MixCaps]),
            ..a
        }),
{
    reveal_with_fuel(Assembly::after, 9);
    let steps = mixer();
    let just_mixer = seq![Part::Mixer];
    let just_caps = seq![Part::MixCaps];
    assert(just_mixer[0] == Part::Mixer);
    assert(just_caps[0] == Part::MixCaps);
    let a1 = a.after(steps, 1);
    assert(a1.orderly);
    let a2 = a.after(steps, 2);
    assert(a2.orderly);
    assert(a2.added =~= a.added.insert(Part::Mixer)) by {
        assert forall|p: Part| a2.added.contains(p) == a.added.insert(Part::Mixer).contains(p) by {
            assert(just_mixer.contains(p) <==> p == just_mixer[0]);
        }
    }
    let a4 = a.after(steps, 4);
    assert(a4.orderly);
    let a5 = a.after(steps, 5);
    assert(a5.orderly);
    let a6 = a.after(steps, 6);
    assert(a6.orderly);
    assert(a6.added =~= a.added.insert(Part::Mixer).insert(Part::MixCaps)) by {
        assert forall|p: Part|
            a6.added.contains(p) == a.added.insert(Part::Mixer).insert(Part::MixCaps).contains(p) by {
            assert(just_caps.contains(p) <==> p == just_caps[0]);
        }
    }
    let a7 = a.after(steps, 7);
    assert(a7.orderly);
    assert(steps.len() == 7);
}

/// The links of the sound branch, up to the muxer.
pub open spec fn sound_links(mode: AudioMode) -> Seq<(Part, Part)> {
    match mode {
        AudioMode::Off => seq![],
        AudioMode::Mic => joints(capture_parts(Capture::Mic)) + joints(encoder_parts()) + joints(
            seq![Part::AudioCaps(Capture::Mic), Part::AudioEncoder],
        ),
        AudioMode::System => joints(capture_parts(Capture::System)) + joints(encoder_parts())
            + joints(seq![Part::AudioCaps(Capture::System), Part::AudioEncoder]),
        AudioMode::Both => joints(capture_parts(Capture::Mic)) + joints(
            capture_parts(Capture::System),
        ) + joints(seq![Part::AudioCaps(Capture::Mic), Part::Mixer]) + joints(
            seq![Part::AudioCaps(Capture::System), Part::Mixer],
        ) + joints(seq![Part::Mixer, Part::MixCaps]) + joints(encoder_parts()) + joints(
            seq![Part::MixCaps, Part::AudioEncoder],
        ),
    }
}

/// Whether a part belongs to the sound branch.
pub open spec fn is_sound(p: Part) -> bool {
    match p {
        Part::AudioSource(_) => true,
        Part::AudioConvert(_) => true,
        Part::AudioResample(_) => true,
        Part::AudioCaps(_) => true,
        Part::Mixer => true,
        Part::MixCaps => true,
        Part::AudioEncoder => true,
        Part::AudioParse => true,
        _ => false,
    }
}

proof fn lemma_one_step(a: Assembly, step: StepModel)
    ensures
        a.run(seq![step]) == a.apply(step),
{
    reveal_with_fuel(Assembly::after, 2);
    assert(seq![step].len() == 1 && seq![step][0] == step);
}

/// A capture followed by the encoder.
proof fn lemma_single_capture(
    a: Assembly,
    capture: Capture,
    device: Option<ValueModel>,
    context: Seq<char>,
)
    requires
        a.orderly,
        device == Some(ValueModel::DefaultMonitor) ==> a.monitor,
        a.created =~= a.added,
        forall|p: Part| is_sound(p) ==> !#[trigger] a.created.contains(p),
    ensures
        ({
            let b = a.run(
                capture_chain(capture, device) + encoder_tail() + seq![
                    link(seq![Part::AudioCaps(capture), Part::AudioEncoder], context),
                ],
            );
            &&& b.orderly
            &&& b.created == b.added
            &&& b.refused == a.refused
            &&& b.links == a.links + (joints(capture_parts(capture)) + joints(encoder_parts())
                + joints(seq![Part::AudioCaps(capture), Part::AudioEncoder]))
            &&& b.added.contains(Part::AudioParse)
            &&& forall|p: Part| !is_sound(p) ==> (#[trigger] b.added.contains(p) == a.added.contains(p))
        }),
{
    let chain = capture_chain(capture, device);
    let last = link(seq![Part::AudioCaps(capture), Part::AudioEncoder], context);
    let parts = capture_parts(capture);
    let enc = encoder_parts();
    assert(parts[0] == Part::AudioSource(capture) && parts[1] == Part::AudioConvert(capture));
    assert(parts[2] == Part::AudioResample(capture) && parts[3] == Part::AudioCaps(capture));
    assert(enc[0] == Part::AudioEncoder && enc[1] == Part::AudioParse);
    lemma_run_in_turn(a, chain, encoder_tail());
    lemma_run_in_turn(a, chain + encoder_tail(), seq![last]);
    lemma_capture_chain(a, capture, device);
    let a1 = a.run(chain);
    assert forall|j: int| 0 <= j < 2 implies !a1.created.contains(#[trigger] enc[j]) && !a1.added.contains(enc[j]) by {
        assert(!parts.contains(enc[j]));
    }
    lemma_encoder_tail(a1);
    let a2 = a1.run(encoder_tail());
    lemma_one_step(a2, last);
    let ends = seq![Part::AudioCaps(capture), Part::AudioEncoder];
    assert(ends[0] == Part::AudioCaps(capture) && ends[1] == Part::AudioEncoder);
    assert(a2.added.contains(parts[3]));
    assert(a2.added.contains(enc[0]));
    assert(a2.added.contains(enc[1]));
    let b = a2.apply(last);
    assert(b.links =~= a.links + (joints(parts) + joints(enc) + joints(ends)));
    assert(b.created =~= b.added);
    assert forall|p: Part| !is_sound(p) implies (#[trigger] b.added.contains(p) == a.added.contains(p)) by {
        assert(!parts.contains(p));
        assert(!enc.contains(p));
    }
}

/// The whole sound branch comes out in order, complete and linked through.
pub proof fn lemma_sound(a: Assembly, mode: AudioMode, device: Option<Seq<char>>)
    requires
        a.orderly,
        a.created =~= a.added,
        forall|p: Part| is_sound(p) ==> !#[trigger] a.created.contains(p),
    ensures
        ({
            let b = a.run(audio_steps(mode, device));
            &&& b.orderly
            &&& b.created == b.added
            &&& b.refused == (a.refused || (mode == AudioMode::Both && device is Some))
            &&& has_branch(mode, device) ==> b.links == a.links + sound_links(mode)
            &&& !has_branch(mode, device) ==> b.links == a.links
            &&& has_branch(mode, device) ==> b.added.contains(Part::AudioParse)
            &&& forall|p: Part| !is_sound(p) ==> (#[trigger] b.added.contains(p) == a.added.contains(p))
        }),
{
    match mode {
        AudioMode::Off => {
            assert(audio_steps(mode, device).len() == 0);
        },
        AudioMode::Mic => {
            let d = match device {
                Some(d) => Some(ValueModel::Text(d)),
                None => None,
            };
            lemma_single_capture(a, Capture::Mic, d, "failed to link mic capture chain to AAC encoder"@);
        },
        AudioMode::System => {
            let context = "failed to link system-audio capture chain to AAC encoder"@;
            match device {
                Some(d) => {
                    lemma_single_capture(a, Capture::System, Some(ValueModel::Text(d)), context);
                },
                None => {
                    let rest = capture_chain(Capture::System, Some(ValueModel::DefaultMonitor))
                        + encoder_tail() + seq![
                        link(seq![Part::AudioCaps(Capture::System), Part::AudioEncoder], context),
                    ];
                    lemma_run_in_turn(a, seq![lookup_monitor()], rest);
                    lemma_one_step(a, lookup_monitor());
                    let a1 = a.apply(lookup_monitor());
                    lemma_single_capture(
                        a1,
                        Capture::System,
                        Some(ValueModel::DefaultMonitor),
                        context,
                    );
                    assert(audio_steps(mode, device) =~= seq![lookup_monitor()] + rest);
                },
            }
        },
        AudioMode::Both => {
            match device {
                Some(_) => {
                    let steps = audio_steps(mode, device);
                    reveal_with_fuel(Assembly::after, 2);
                    assert(steps.len() == 1);
                },
                None => {
                    lemma_mixed(a);
                },
            }
        },
    }
}

/// Both captures, mixed.
proof fn lemma_mixed(a: Assembly)
    requires
        a.orderly,
        a.created =~= a.added,
        forall|p: Part| is_sound(p) ==> !#[trigger] a.created.contains(p),
    ensures
        ({
            let b = a.run(audio_steps(AudioMode::Both, None));
            &&& b.orderly
            &&& b.created == b.added
            &&& b.refused == a.refused
            &&& b.links == a.links + sound_links(AudioMode::Both)
            &&& b.added.contains(Part::AudioParse)
            &&& forall|p: Part| !is_sound(p) ==> (#[trigger] b.added.contains(p) == a.added.contains(p))
        }),
{
    let mic = capture_chain(Capture::Mic, None);
    let found = seq![lookup_monitor()];
    let system = capture_chain(Capture::System, Some(ValueModel::DefaultMonitor));
    let last = link(
        seq![Part::MixCaps, Part::AudioEncoder],
        "failed to link post-mixer capsfilter to AAC encoder"@,
    );
    let mic_parts = capture_parts(Capture::Mic);
    let sys_parts = capture_parts(Capture::System);
    let enc = encoder_parts();
    assert(mic_parts[0] == Part::AudioSource(Capture::Mic) && mic_parts[1] == Part::AudioConvert(Capture::Mic));
    assert(mic_parts[2] == Part::AudioResample(Capture::Mic) && mic_parts[3] == Part::AudioCaps(Capture::Mic));
    assert(sys_parts[0] == Part::AudioSource(Capture::System) && sys_parts[1] == Part::AudioConvert(Capture::System));
    assert(sys_parts[2] == Part::AudioResample(Capture::System) && sys_parts[3] == Part::AudioCaps(Capture::System));
    assert(enc[0] == Part::AudioEncoder && enc[1] == Part::AudioParse);
    lemma_run_in_turn(a, mic, found);
    lemma_run_in_turn(a, mic + found, system);
    lemma_run_in_turn(a, mic + found + system, mixer());
    lemma_run_in_turn(a, mic + found + system + mixer(), encoder_tail());
    lemma_run_in_turn(a, mic + found + system + mixer() + encoder_tail(), seq![last]);
    lemma_capture_chain(a, Capture::Mic, None);
    let a1 = a.run(mic);
    lemma_one_step(a1, lookup_monitor());
    let a2 = a1.apply(lookup_monitor());
    assert forall|j: int| 0 <= j < 4 implies !a2.created.contains(#[trigger] sys_parts[j])
        && !a2.added.contains(sys_parts[j]) by {
        assert(!mic_parts.contains(sys_parts[j]));
    }
    lemma_capture_chain(a2, Capture::System, Some(ValueModel::DefaultMonitor));
    let a3 = a2.run(system);
    assert(a3.added.contains(mic_parts[3]));
    assert(a3.added.contains(sys_parts[3]));
    assert(!mic_parts.contains(Part::Mixer) && !sys_parts.contains(Part::Mixer));
    assert(!mic_parts.contains(Part::MixCaps) && !sys_parts.contains(Part::MixCaps));
    lemma_mixer(a3);
    let a4 = a3.run(mixer());
    assert forall|j: int| 0 <= j < 2 implies !a4.created.contains(#[trigger] enc[j]) && !a4.added.contains(enc[j]) by {
        assert(!mic_parts.contains(enc[j]) && !sys_parts.contains(enc[j]));
    }
    lemma_encoder_tail(a4);
    let a5 = a4.run(encoder_tail());
    lemma_one_step(a5, last);
    let ends = seq![Part::MixCaps, Part::AudioEncoder];
    assert(ends[0] == Part::MixCaps && ends[1] == Part::AudioEncoder);
    assert(a5.added.contains(enc[0]) && a5.added.contains(enc[1]) && a5.added.contains(Part::MixCaps));
    let b = a5.apply(last);
    assert(b.links =~= a.links + sound_links(AudioMode::Both));
    assert(b.created =~= b.added);
    assert forall|p: Part| !is_sound(p) implies (#[trigger] b.added.contains(p) == a.added.contains(p)) by {
        assert(!mic_parts.contains(p) && !sys_parts.contains(p) && !enc.contains(p));
    }
}

/// The elements that exist before a pipeline is assembled.
pub open spec fn at_hand(preview: bool) -> Set<Part> {
    if preview {
        set![Part::PreviewSink]
    } else {
        Set::empty()
    }
}

/// What carrying out the plan of a recording leaves behind.
pub open spec fn assembled(source: SourceModel, cfg: ConfigModel, preview: bool) -> Assembly {
    Assembly::start(at_hand(preview)).run(
        recording_steps(source_element(source)->Ok_0, cfg, preview),
    )
}

/// No source is set up with a sound device.
proof fn lemma_source_needs_no_monitor(source: SourceModel)
    requires
        source_element(source) is Ok,
    ensures
        !source_element(source)->Ok_0.0.uses_monitor(),
{
}

/// Creating the elements of a recording leaves all of them at hand.
proof fn lemma_video_elements(source: SourceModel, cfg: ConfigModel, preview: bool)
    requires
        source_element(source) is Ok,
    ensures
        ({
            let a = Assembly::start(at_hand(preview)).run(
                video_elements(source_element(source)->Ok_0, cfg),
            );
            &&& a.orderly
            &&& !a.refused
            &&& a.added == Set::<Part>::empty()
            &&& a.links == Seq::<(Part, Part)>::empty()
            &&& a.created == at_hand(preview).insert(Part::Source).insert(Part::VideoCaps).insert(
                Part::Convert,
            ).insert(Part::Encoder).insert(Part::Parse).insert(Part::Mux)
        }),
{
    reveal_with_fuel(Assembly::after, 8);
    lemma_source_needs_no_monitor(source);
    let start = Assembly::start(at_hand(preview));
    let steps = video_elements(source_element(source)->Ok_0, cfg);
    assert(start.after(steps, 1).orderly);
    let a2 = start.after(steps, 2);
    assert(a2.orderly);
    let a4 = start.after(steps, 4);
    assert(a4.orderly);
    let a6 = start.after(steps, 6);
    assert(a6.orderly);
    assert(steps.len() == 6);
}

/// The video side of a recording, from the sink on, without a preview.
proof fn lemma_plain(a: Assembly, location: Seq<char>)
    requires
        a.orderly,
        a.added == Set::<Part>::empty(),
        a.links == Seq::<(Part, Part)>::empty(),
        a.created == at_hand(false).insert(Part::Source).insert(Part::VideoCaps).insert(
            Part::Convert,
        ).insert(Part::Encoder).insert(Part::Parse).insert(Part::Mux),
    ensures
        ({
            let b = a.run(seq![file_sink(location)] + plain_steps());
            &&& b.orderly
            &&& b.refused == a.refused
            &&& b.created =~= b.added
            &&& b.links == joints(plain_route())
            &&& b.added.contains(Part::Mux)
            &&& forall|p: Part| is_sound(p) ==> !#[trigger] b.created.contains(p)
        }),
{
    reveal_with_fuel(Assembly::after, 5);
    let steps = seq![file_sink(location)] + plain_steps();
    let parts = plain_route();
    assert(parts[0] == Part::Source && parts[1] == Part::VideoCaps && parts[2] == Part::Convert);
    assert(parts[3] == Part::Encoder && parts[4] == Part::Parse && parts[5] == Part::Mux);
    assert(parts[6] == Part::FileSink);
    assert(steps.len() == 3);
    assert(steps[0] == file_sink(location) && steps[1] == plain_steps()[0] && steps[2] == plain_steps()[1]);
    let a1 = a.after(steps, 1);
    assert(a1.orderly);
    let a2 = a.after(steps, 2);
    assert(a2.orderly);
    let a3 = a.after(steps, 3);
    assert(a3.orderly);
    assert(a3.links =~= joints(parts));
    assert forall|p: Part| a3.created.contains(p) == a3.added.contains(p) by {
        assert(parts.contains(p) <==> (p == parts[0] || p == parts[1] || p == parts[2] || p == parts[3]
            || p == parts[4] || p == parts[5] || p == parts[6]));
    }
    assert(parts.contains(parts[5]));
}

/// The video side of a recording, from the sink on, with a preview.
proof fn lemma_previewed(a: Assembly, location: Seq<char>)
    requires
        a.orderly,
        a.added == Set::<Part>::empty(),
        a.links == Seq::<(Part, Part)>::empty(),
        a.created == at_hand(true).insert(Part::Source).insert(Part::VideoCaps).insert(
            Part::Convert,
        ).insert(Part::Encoder).insert(Part::Parse).insert(Part::Mux),
    ensures
        ({
            let b = a.run(seq![file_sink(location)] + previewed_steps());
            &&& b.orderly
            &&& b.refused == a.refused
            &&& b.created =~= b.added
            &&& b.links == joints(shared_route()) + joints(record_route()) + joints(preview_route())
            &&& b.added.contains(Part::Mux)
            &&& forall|p: Part| is_sound(p) ==> !#[trigger] b.created.contains(p)
        }),
{
    reveal_with_fuel(Assembly::after, 12);
    let steps = seq![file_sink(location)] + previewed_steps();
    let parts = previewed_parts();
    assert(parts[0] == Part::Source && parts[1] == Part::VideoCaps && parts[2] == Part::Convert);
    assert(parts[3] == Part::Tee && parts[4] == Part::RecordQueue && parts[5] == Part::Encoder);
    assert(parts[6] == Part::Parse && parts[7] == Part::Mux && parts[8] == Part::FileSink);
    assert(parts[9] == Part::PreviewQueue && parts[10] == Part::PreviewScale);
    assert(parts[11] == Part::PreviewCaps && parts[12] == Part::PreviewSink);
    assert(previewed_steps().len() == 9);
    assert(steps.len() == 10);
    assert(steps[0] == file_sink(location));
    assert(forall|k: int| 0 <= k < 9 ==> #[trigger] steps[k + 1] == previewed_steps()[k]);
    assert(steps[1] == previewed_steps()[0] && steps[2] == previewed_steps()[1] && steps[3]
        == previewed_steps()[2]);
    assert(steps[4] == preview_scale_chain()[0] && steps[5] == preview_scale_chain()[1]);
    let a3 = a.after(steps, 3);
    assert(a3.orderly);
    let a4 = a.after(steps, 4);
    assert(a4.orderly);
    let a6 = a.after(steps, 6);
    assert(a6.orderly);
    assert(a6.added =~= Set::<Part>::empty());
    assert forall|p: Part| a6.created.contains(p) == parts.contains(p) by {
        assert(parts.contains(p) <==> (p == parts[0] || p == parts[1] || p == parts[2] || p == parts[3]
            || p == parts[4] || p == parts[5] || p == parts[6] || p == parts[7] || p == parts[8] || p
            == parts[9] || p == parts[10] || p == parts[11] || p == parts[12]));
    }
    let a7 = a.after(steps, 7);
    assert(a7.orderly);
    assert(a7.created =~= a7.added);
    let shared = shared_route();
    assert(shared[0] == parts[0] && shared[1] == parts[1] && shared[2] == parts[2] && shared[3] == parts[3]);
    let a8 = a.after(steps, 8);
    assert(a8.orderly);
    let rec = record_route();
    assert(rec[0] == parts[3] && rec[1] == parts[4] && rec[2] == parts[5] && rec[3] == parts[6]);
    assert(rec[4] == parts[7] && rec[5] == parts[8]);
    let a9 = a.after(steps, 9);
    assert(a9.orderly);
    let pre = preview_route();
    assert(pre[0] == parts[3] && pre[1] == parts[9] && pre[2] == parts[10] && pre[3] == parts[11]);
    assert(pre[4] == parts[12]);
    let a10 = a.after(steps, 10);
    assert(a10.orderly);
    assert(a10.links =~= joints(shared) + joints(rec) + joints(pre));
    assert(parts.contains(parts[7]));
}

/// The links between the video side's elements.
pub open spec fn video_links(preview: bool) -> Seq<(Part, Part)> {
    if preview {
        joints(shared_route()) + joints(record_route()) + joints(preview_route())
    } else {
        joints(plain_route())
    }
}

/// A recording's plan can be carried out as it stands: nothing is created
/// or added twice, only what is in the pipeline is linked, and a device is
/// used only after it was looked up. It gives up exactly where the path is
/// not UTF-8 or a device is named for both captures; otherwise everything
/// that was created is in the pipeline in the end, with exactly these links.
pub proof fn law_recording_is_assembled_in_order(source: SourceModel, cfg: ConfigModel, preview: bool)
    requires
        source_element(source) is Ok,
    ensures
        ({
            let a = assembled(source, cfg, preview);
            let branch = has_branch(cfg.audio_mode, cfg.audio_device);
            &&& a.orderly
            &&& a.refused <==> (!valid_utf8(cfg.output_path) || (cfg.audio_mode == AudioMode::Both
                && cfg.audio_device is Some))
            &&& valid_utf8(cfg.output_path) ==> a.created == a.added
            &&& valid_utf8(cfg.output_path) && branch ==> a.links == video_links(preview)
                + sound_links(cfg.audio_mode) + joints(seq![Part::AudioParse, Part::Mux])
            &&& valid_utf8(cfg.output_path) && !branch ==> a.links == video_links(preview)
        }),
{
    let start = Assembly::start(at_hand(preview));
    let chosen = source_element(source)->Ok_0;
    let video = video_elements(chosen, cfg);
    lemma_video_elements(source, cfg, preview);
    let a1 = start.run(video);
    if valid_utf8(cfg.output_path) {
        let location = vstd::utf8::decode_utf8(cfg.output_path);
        let sink = seq![file_sink(location)];
        let rest = if preview {
            previewed_steps()
        } else {
            plain_steps()
        };
        let sound = audio_steps(cfg.audio_mode, cfg.audio_device);
        let tail = if has_branch(cfg.audio_mode, cfg.audio_device) {
            seq![sound_link()]
        } else {
            seq![]
        };
        let all = recording_steps(chosen, cfg, preview);
        assert(all =~= video + (sink + rest) + sound + tail);
        lemma_run_in_turn(start, video, sink + rest);
        lemma_run_in_turn(start, video + (sink + rest), sound);
        lemma_run_in_turn(start, video + (sink + rest) + sound, tail);
        if preview {
            lemma_previewed(a1, location);
        } else {
            lemma_plain(a1, location);
        }
        let a2 = a1.run(sink + rest);
        lemma_sound(a2, cfg.audio_mode, cfg.audio_device);
        let a3 = a2.run(sound);
        if has_branch(cfg.audio_mode, cfg.audio_device) {
            lemma_one_step(a3, sound_link());
            let ends = seq![Part::AudioParse, Part::Mux];
            assert(ends[0] == Part::AudioParse && ends[1] == Part::Mux);
            assert(a3.added.contains(Part::Mux));
            assert(assembled(source, cfg, preview) == a3.apply(sound_link()));
        } else {
            assert(tail.len() == 0);
            assert(assembled(source, cfg, preview) == a3);
        }
    } else {
        let last = crate::plan::reject_path();
        assert(video.push(last) =~= video + seq![last]);
        lemma_run_in_turn(start, video, seq![last]);
        lemma_one_step(a1, last);
    }
}

/// The way of the pictures into the file.
pub open spec fn video_route(preview: bool) -> Seq<Part> {
    if preview {
        seq![
            Part::Source,
            Part::VideoCaps,
            Part::Convert,
            Part::Tee,
            Part::RecordQueue,
            Part::Encoder,
            Part::Parse,
            Part::Mux,
            Part::FileSink,
        ]
    } else {
        plain_route()
    }
}

/// Whether a mode captures from the given place.
pub open spec fn captures(mode: AudioMode, capture: Capture) -> bool {
    match capture {
        Capture::Mic => mode == AudioMode::Mic || mode == AudioMode::Both,
        Capture::System => mode == AudioMode::System || mode == AudioMode::Both,
    }
}

/// The way of a capture's sound into the file.
pub open spec fn sound_route(mode: AudioMode, capture: Capture) -> Seq<Part> {
    capture_parts(capture) + (if mode == AudioMode::Both {
        seq![Part::Mixer, Part::MixCaps]
    } else {
        seq![]
    }) + seq![Part::AudioEncoder, Part::AudioParse, Part::Mux, Part::FileSink]
}

/// What stands in a part of a list stands in the list.
proof fn lemma_within(all: Seq<(Part, Part)>, from: int, part: Seq<(Part, Part)>)
    requires
        0 <= from,
        from + part.len() <= all.len(),
        all.subrange(from, from + part.len()) == part,
    ensures
        forall|j: int| 0 <= j < part.len() ==> all.contains(#[trigger] part[j]),
{
    assert forall|j: int| 0 <= j < part.len() implies all.contains(#[trigger] part[j]) by {
        assert(all.subrange(from, from + part.len())[j] == all[from + j]);
    }
}

/// The pictures find their way from the source into the file, and with a
/// preview also onto it.
pub proof fn law_pictures_reach_the_file(source: SourceModel, cfg: ConfigModel, preview: bool)
    requires
        source_element(source) is Ok,
        valid_utf8(cfg.output_path),
    ensures
        assembled(source, cfg, preview).leads(video_route(preview)),
        preview ==> assembled(source, cfg, preview).leads(shared_route()),
        preview ==> assembled(source, cfg, preview).leads(preview_route()),
{
    law_recording_is_assembled_in_order(source, cfg, preview);
    let a = assembled(source, cfg, preview);
    let links = a.links;
    if preview {
        let shared = joints(shared_route());
        let rec = joints(record_route());
        let pre = joints(preview_route());
        assert(links.subrange(0, 0int + shared.len()) =~= shared);
        lemma_within(links, 0, shared);
        assert(links.subrange(3, 3int + rec.len()) =~= rec);
        lemma_within(links, 3, rec);
        assert(links.subrange(8, 8int + pre.len()) =~= pre);
        lemma_within(links, 8, pre);
        let all = joints(video_route(true));
        assert forall|j: int| 0 <= j < all.len() implies links.contains(#[trigger] all[j]) by {
            if j < 3 {
                assert(all[j] == shared[j]);
            } else {
                assert(all[j] == rec[j - 3]);
            }
        }
    } else {
        let all = joints(plain_route());
        assert(links.subrange(0, 0int + all.len()) =~= all);
        lemma_within(links, 0, all);
    }
}

/// Every joint on the way of a capture's sound is a link of the sound
/// branch, the link into the muxer, or the link into the file.
proof fn lemma_sound_route(mode: AudioMode, capture: Capture, j: int)
    requires
        captures(mode, capture),
        0 <= j < joints(sound_route(mode, capture)).len(),
    ensures
        ({
            let joint = joints(sound_route(mode, capture))[j];
            ||| sound_links(mode).contains(joint)
            ||| joint == (Part::AudioParse, Part::Mux)
            ||| joint == (Part::Mux, Part::FileSink)
        }),
{
    let route = sound_route(mode, capture);
    let joint = joints(route)[j];
    let sound = sound_links(mode);
    let chain = joints(capture_parts(capture));
    assert(joint == (route[j], route[j + 1]));
    if mode == AudioMode::Both {
        assert(route.len() == 10 && sound.len() == 11);
        if j < 3 {
            assert(joint == chain[j]);
            if capture == Capture::Mic {
                assert(sound[j] == chain[j]);
            } else {
                assert(sound[3 + j] == chain[j]);
            }
        } else if j == 3 {
            if capture == Capture::Mic {
                assert(sound[6] == joint);
            } else {
                assert(sound[7] == joint);
            }
        } else if j == 4 {
            assert(sound[8] == joint);
        } else if j == 5 {
            assert(sound[10] == joint);
        } else if j == 6 {
            assert(sound[9] == joint);
        }
    } else {
        assert(route.len() == 8 && sound.len() == 5);
        if j < 3 {
            assert(sound[j] == chain[j]);
            assert(joint == chain[j]);
        } else if j == 3 {
            assert(sound[4] == joint);
        } else if j == 4 {
            assert(sound[3] == joint);
        }
    }
}

/// The sound of every capture that a recording asks for finds its way from
/// its source into the file.
pub proof fn law_sound_reaches_the_file(
    source: SourceModel,
    cfg: ConfigModel,
    preview: bool,
    capture: Capture,
)
    requires
        source_element(source) is Ok,
        valid_utf8(cfg.output_path),
        has_branch(cfg.audio_mode, cfg.audio_device),
        captures(cfg.audio_mode, capture),
    ensures
        assembled(source, cfg, preview).leads(sound_route(cfg.audio_mode, capture)),
{
    law_recording_is_assembled_in_order(source, cfg, preview);
    law_pictures_reach_the_file(source, cfg, preview);
    let links = assembled(source, cfg, preview).links;
    let mode = cfg.audio_mode;
    let sound = sound_links(mode);
    let v = video_links(preview).len() as int;
    let n = sound.len() as int;
    assert(links.subrange(v, v + n) =~= sound);
    lemma_within(links, v, sound);
    let into_mux = joints(seq![Part::AudioParse, Part::Mux]);
    assert(links[v + n] == into_mux[0] && into_mux[0] == (Part::AudioParse, Part::Mux));
    let video = joints(video_route(preview));
    assert(video[video.len() - 1] == (Part::Mux, Part::FileSink));
    assert(links.contains(video[video.len() - 1]));
    let all = joints(sound_route(mode, capture));
    assert forall|j: int| 0 <= j < all.len() implies links.contains(#[trigger] all[j]) by {
        lemma_sound_route(mode, capture, j);
        if sound.contains(all[j]) {
            let k = choose|k: int| 0 <= k < sound.len() && sound[k] == all[j];
            assert(links.contains(sound[k]));
        }
    }
}

/// Whatever the tee feeds directly is a queue, so that neither recording
/// nor preview waits for the other; and the two have queues of their own.
pub proof fn law_each_branch_of_the_tee_has_a_queue(source: SourceModel, cfg: ConfigModel)
    requires
        source_element(source) is Ok,
        valid_utf8(cfg.output_path),
    ensures
        forall|i: int|
            0 <= i < assembled(source, cfg, true).links.len() && (
            #[trigger] assembled(source, cfg, true).links[i]).0 == Part::Tee ==> (assembled(
                source,
                cfg,
                true,
            ).links[i].1 == Part::RecordQueue || assembled(source, cfg, true).links[i].1
                == Part::PreviewQueue),
        forall|i: int|
            0 <= i < assembled(source, cfg, true).links.len() && (
            #[trigger] assembled(source, cfg, true).links[i]).1 == Part::Encoder ==> assembled(
                source,
                cfg,
                true,
            ).links[i].0 == Part::RecordQueue,
        forall|i: int|
            0 <= i < assembled(source, cfg, true).links.len() && (
            #[trigger] assembled(source, cfg, true).links[i]).1 == Part::PreviewScale ==> assembled(
                source,
                cfg,
                true,
            ).links[i].0 == Part::PreviewQueue,
{
    law_recording_is_assembled_in_order(source, cfg, true);
}

/// What leaves the mixer goes through a filter that pins the very layout
/// that every capture was brought to before it.
pub proof fn law_mix_keeps_the_layout(source: SourceModel, cfg: ConfigModel, preview: bool)
    requires
        source_element(source) is Ok,
        valid_utf8(cfg.output_path),
    ensures
        forall|i: int|
            0 <= i < assembled(source, cfg, preview).links.len() && (
            #[trigger] assembled(source, cfg, preview).links[i]).0 == Part::Mixer ==> assembled(
                source,
                cfg,
                preview,
            ).links[i].1 == Part::MixCaps,
        forall|i: int|
            0 <= i < audio_steps(cfg.audio_mode, cfg.audio_device).len() ==> ((
            #[trigger] audio_steps(cfg.audio_mode, cfg.audio_device)[i]).action matches ActionModel::Make(
                part,
                element,
            ) ==> (part == Part::MixCaps || part == Part::AudioCaps(Capture::Mic) || part
                == Part::AudioCaps(Capture::System) ==> element == audio_capsfilter())),
{
    law_recording_is_assembled_in_order(source, cfg, preview);
}

/// Before a path is rejected nothing is linked.
proof fn lemma_rejected_has_no_links(source: SourceModel, cfg: ConfigModel, preview: bool)
    requires
        source_element(source) is Ok,
        !valid_utf8(cfg.output_path),
    ensures
        assembled(source, cfg, preview).links == Seq::<(Part, Part)>::empty(),
{
    let start = Assembly::start(at_hand(preview));
    let video = video_elements(source_element(source)->Ok_0, cfg);
    let rejected = seq![reject_path()];
    lemma_video_elements(source, cfg, preview);
    lemma_run_in_turn(start, video, rejected);
    lemma_one_step(start.run(video), reject_path());
    assert(video.push(reject_path()) =~= video + rejected);
}

/// A preview adds to a recording and changes nothing of it: every element
/// that is created without one is created with one, in the same way, and
/// every link without one is there with one. The one exception is the link
/// that the tee and the recording's queue go in between.
pub proof fn law_preview_leaves_the_recording_alone(source: SourceModel, cfg: ConfigModel)
    requires
        source_element(source) is Ok,
    ensures
        ({
            let element = source_element(source)->Ok_0;
            forall|i: int|
                0 <= i < recording_steps(element, cfg, false).len() && (
                #[trigger] recording_steps(element, cfg, false)[i]).action is Make
                    ==> recording_steps(element, cfg, true).contains(
                    recording_steps(element, cfg, false)[i],
                )
        }),
        forall|j: int|
            0 <= j < assembled(source, cfg, false).links.len() && (#[trigger] assembled(
                source,
                cfg,
                false,
            ).links[j]) != (Part::Convert, Part::Encoder) ==> assembled(
                source,
                cfg,
                true,
            ).links.contains(assembled(source, cfg, false).links[j]),
        assembled(source, cfg, true).links.contains((Part::Convert, Part::Tee))
            == valid_utf8(cfg.output_path),
{
    let element = source_element(source)->Ok_0;
    assert forall|i: int|
        0 <= i < recording_steps(element, cfg, false).len() && (
        #[trigger] recording_steps(element, cfg, false)[i]).action is Make implies recording_steps(
        element,
        cfg,
        true,
    ).contains(recording_steps(element, cfg, false)[i]) by {
        lemma_made_with_a_preview_too(element, cfg, i);
    }
    let plain = assembled(source, cfg, false).links;
    let shown = assembled(source, cfg, true).links;
    if valid_utf8(cfg.output_path) {
        law_recording_is_assembled_in_order(source, cfg, false);
        law_recording_is_assembled_in_order(source, cfg, true);
        let before = video_links(false);
        let after = video_links(true);
        assert(before.len() == 6 && after.len() == 12);
        assert(after[2] == (Part::Convert, Part::Tee));
        assert(shown[2] == after[2]);
        assert forall|j: int|
            0 <= j < plain.len() && #[trigger] plain[j] != (
                Part::Convert,
                Part::Encoder,
            ) implies shown.contains(plain[j]) by {
            if j < 2 {
                assert(plain[j] == before[j] && shown[j] == after[j] && before[j] == after[j]);
            } else if j == 2 {
                assert(plain[j] == before[j]);
            } else if j < 6 {
                assert(plain[j] == before[j] && shown[j + 2] == after[j + 2] && before[j] == after[j
                    + 2]);
            } else {
                assert(shown[j + 6] == plain[j]);
            }
        }
    } else {
        lemma_rejected_has_no_links(source, cfg, false);
        lemma_rejected_has_no_links(source, cfg, true);
    }
}

proof fn lemma_made_with_a_preview_too(source: (ElementModel, Seq<char>), cfg: ConfigModel, i: int)
    requires
        0 <= i < recording_steps(source, cfg, false).len(),
        recording_steps(source, cfg, false)[i].action is Make,
    ensures
        recording_steps(source, cfg, true).contains(recording_steps(source, cfg, false)[i]),
{
    let plain = recording_steps(source, cfg, false);
    let shown = recording_steps(source, cfg, true);
    if valid_utf8(cfg.output_path) {
        if i < 7 {
            assert(shown[i] == plain[i]);
        } else {
            assert(i >= 9);
            assert(shown[i + 7] == plain[i]);
        }
    } else {
        assert(shown[i] == plain[i]);
    }
}

/// A preview on its own can be assembled as its plan stands, is complete
/// and leads from the source to the preview.
pub proof fn law_preview_alone_is_assembled_in_order(source: SourceModel)
    requires
        source_element(source) is Ok,
    ensures
        ({
            let a = Assembly::start(at_hand(true)).run(
                preview_only_steps(source_element(source)->Ok_0),
            );
            &&& a.orderly
            &&& !a.refused
            &&& a.created == a.added
            &&& a.links == joints(preview_only_route())
        }),
{
    reveal_with_fuel(Assembly::after, 8);
    lemma_source_needs_no_monitor(source);
    let start = Assembly::start(at_hand(true));
    let steps = preview_only_steps(source_element(source)->Ok_0);
    let parts = preview_only_route();
    assert(parts[0] == Part::Source && parts[1] == Part::VideoCaps && parts[2] == Part::PreviewScale);
    assert(parts[3] == Part::PreviewCaps && parts[4] == Part::PreviewSink);
    assert(steps.len() == 6);
    assert(steps[2] == preview_scale_chain()[0] && steps[3] == preview_scale_chain()[1]);
    let a2 = start.after(steps, 2);
    assert(a2.orderly);
    let a4 = start.after(steps, 4);
    assert(a4.orderly);
    assert forall|p: Part| a4.created.contains(p) == parts.contains(p) by {
        assert(parts.contains(p) <==> (p == parts[0] || p == parts[1] || p == parts[2] || p == parts[3]
            || p == parts[4]));
    }
    let a5 = start.after(steps, 5);
    assert(a5.orderly);
    assert(a5.created =~= a5.added);
    let a6 = start.after(steps, 6);
    assert(a6.orderly);
    assert(a6.links =~= joints(parts));
}

} // verus!
