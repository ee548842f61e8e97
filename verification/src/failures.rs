//! What the steps of a plan say when they fail.
use vstd::prelude::*;
use vstd::utf8::valid_utf8;
use crate::audio::{audio_steps, capture_chain, encoder_tail, mixer};
use crate::cli::{AudioMode, Container};
use crate::made::recorded;
use crate::pipeline::{
    plain_steps, preview_only_steps, preview_scale_chain, previewed_steps, video_elements,
    ConfigModel,
};
use crate::plan::{ActionModel, Capture, StepModel, ValueModel};
use crate::source::{source_element, SourceModel};
use crate::text::{lemma_mentions, mentions, part_at};

verus! {

/// The name of a kind of element, in quotes.
pub open spec fn quoted(name: Seq<char>) -> Seq<char> {
    seq!['\''] + name + seq!['\'']
}

/// Whether a message names a kind of element.
pub open spec fn blames(message: Seq<char>, factory: Seq<char>) -> bool {
    mentions(message, quoted(factory))
}

/// Whether a message begins with `words`.
pub open spec fn starts_with(message: Seq<char>, words: Seq<char>) -> bool {
    message.len() >= words.len() && message.take(words.len() as int) == words
}

/// Whether a step says what it could not do, should it fail: which kind of
/// element it could not create, or else that it could not add or link any.
pub open spec fn names_its_element(step: StepModel) -> bool {
    match step.action {
        ActionModel::Make(_, element) => blames(step.context, element.factory),
        ActionModel::Add(_) => starts_with(step.context, "failed to add "@),
        ActionModel::Link(_) => starts_with(step.context, "failed to link "@),
        _ => true,
    }
}

/// Whether every one of `steps` does.
pub open spec fn all_name(steps: Seq<StepModel>) -> bool {
    forall|i: int| 0 <= i < steps.len() ==> names_its_element(#[trigger] steps[i])
}

proof fn lemma_source_is_named(source: SourceModel)
    requires
        source_element(source) is Ok,
    ensures
        blames(source_element(source)->Ok_0.1, source_element(source)->Ok_0.0.factory),
{
    assert(blames("failed to create 'ximagesrc' element (is gstreamer1.0-plugins-good installed?)"@, "ximagesrc"@)) by {
        reveal_strlit("failed to create 'ximagesrc' element (is gstreamer1.0-plugins-good installed?)");
        reveal_strlit("ximagesrc");
        let s = "failed to create 'ximagesrc' element (is gstreamer1.0-plugins-good installed?)"@;
        assert(s.subrange(17, 28) =~= quoted("ximagesrc"@));
        assert(part_at(s, quoted("ximagesrc"@), 17));
    }
    assert(blames("failed to create 'pipewiresrc' element (is gstreamer1.0-pipewire installed?)"@, "pipewiresrc"@)) by {
        reveal_strlit("failed to create 'pipewiresrc' element (is gstreamer1.0-pipewire installed?)");
        reveal_strlit("pipewiresrc");
        let s = "failed to create 'pipewiresrc' element (is gstreamer1.0-pipewire installed?)"@;
        assert(s.subrange(17, 30) =~= quoted("pipewiresrc"@));
        assert(part_at(s, quoted("pipewiresrc"@), 17));
    }
}

proof fn lemma_pictures_are_named(source: SourceModel, cfg: ConfigModel)
    requires
        source_element(source) is Ok,
    ensures
        all_name(video_elements(source_element(source)->Ok_0, cfg)),
{
    lemma_source_is_named(source);
    assert(blames("failed to create 'capsfilter' element"@, "capsfilter"@)) by {
        reveal_strlit("failed to create 'capsfilter' element");
        reveal_strlit("capsfilter");
        let s = "failed to create 'capsfilter' element"@;
        assert(s.subrange(17, 29) =~= quoted("capsfilter"@));
        assert(part_at(s, quoted("capsfilter"@), 17));
    }
    assert(blames("failed to create 'videoconvert' element (is gstreamer1.0-plugins-base installed?)"@, "videoconvert"@)) by {
        reveal_strlit("failed to create 'videoconvert' element (is gstreamer1.0-plugins-base installed?)");
        reveal_strlit("videoconvert");
        let s = "failed to create 'videoconvert' element (is gstreamer1.0-plugins-base installed?)"@;
        assert(s.subrange(17, 31) =~= quoted("videoconvert"@));
        assert(part_at(s, quoted("videoconvert"@), 17));
    }
    assert(blames("failed to create 'x264enc' element (is gstreamer1.0-plugins-ugly installed?)"@, "x264enc"@)) by {
        reveal_strlit("failed to create 'x264enc' element (is gstreamer1.0-plugins-ugly installed?)");
        reveal_strlit("x264enc");
        let s = "failed to create 'x264enc' element (is gstreamer1.0-plugins-ugly installed?)"@;
        assert(s.subrange(17, 26) =~= quoted("x264enc"@));
        assert(part_at(s, quoted("x264enc"@), 17));
    }
    assert(blames("failed to create 'h264parse' element"@, "h264parse"@)) by {
        reveal_strlit("failed to create 'h264parse' element");
        reveal_strlit("h264parse");
        let s = "failed to create 'h264parse' element"@;
        assert(s.subrange(17, 28) =~= quoted("h264parse"@));
        assert(part_at(s, quoted("h264parse"@), 17));
    }
    lemma_muxer_is_named(cfg.container);
}

proof fn lemma_muxer_is_named(container: Container)
    ensures
        blames("failed to create '"@ + container.muxer() + "' muxer element"@, container.muxer()),
{
    reveal_strlit("failed to create '");
    reveal_strlit("' muxer element");
    let before = "failed to create '"@.take(17);
    let after = "' muxer element"@.skip(1);
    let part = quoted(container.muxer());
    assert("failed to create '"@ + container.muxer() + "' muxer element"@ =~= before + part
        + after);
    lemma_mentions(before, part, after);
}

proof fn lemma_file_is_named()
    ensures
        blames("failed to create 'filesink' element"@, "filesink"@),
{
    assert(blames("failed to create 'filesink' element"@, "filesink"@)) by {
        reveal_strlit("failed to create 'filesink' element");
        reveal_strlit("filesink");
        let s = "failed to create 'filesink' element"@;
        assert(s.subrange(17, 27) =~= quoted("filesink"@));
        assert(part_at(s, quoted("filesink"@), 17));
    }
}

proof fn lemma_shrinking_is_named()
    ensures
        all_name(preview_scale_chain()),
{
    assert(blames("failed to create 'videoconvertscale' element (is gstreamer1.0-plugins-base installed?)"@, "videoconvertscale"@)) by {
        reveal_strlit("failed to create 'videoconvertscale' element (is gstreamer1.0-plugins-base installed?)");
        reveal_strlit("videoconvertscale");
        let s = "failed to create 'videoconvertscale' element (is gstreamer1.0-plugins-base installed?)"@;
        assert(s.subrange(17, 36) =~= quoted("videoconvertscale"@));
        assert(part_at(s, quoted("videoconvertscale"@), 17));
    }
    assert(blames("failed to create preview 'capsfilter' element"@, "capsfilter"@)) by {
        reveal_strlit("failed to create preview 'capsfilter' element");
        reveal_strlit("capsfilter");
        let s = "failed to create preview 'capsfilter' element"@;
        assert(s.subrange(25, 37) =~= quoted("capsfilter"@));
        assert(part_at(s, quoted("capsfilter"@), 25));
    }
}

proof fn lemma_preview_is_named()
    ensures
        all_name(previewed_steps()),
        all_name(plain_steps()),
{
    assert(starts_with("failed to add elements to pipeline"@, "failed to add "@)) by {
        reveal_strlit("failed to add elements to pipeline");
        reveal_strlit("failed to add ");
        assert("failed to add elements to pipeline"@.take(14) =~= "failed to add "@);
    }
    assert(starts_with("failed to link pipeline elements"@, "failed to link "@)) by {
        reveal_strlit("failed to link pipeline elements");
        reveal_strlit("failed to link ");
        assert("failed to link pipeline elements"@.take(15) =~= "failed to link "@);
    }
    assert(starts_with("failed to link capture chain to tee"@, "failed to link "@)) by {
        reveal_strlit("failed to link capture chain to tee");
        reveal_strlit("failed to link ");
        assert("failed to link capture chain to tee"@.take(15) =~= "failed to link "@);
    }
    assert(starts_with("failed to link record branch"@, "failed to link "@)) by {
        reveal_strlit("failed to link record branch");
        reveal_strlit("failed to link ");
        assert("failed to link record branch"@.take(15) =~= "failed to link "@);
    }
    assert(starts_with("failed to link preview branch"@, "failed to link "@)) by {
        reveal_strlit("failed to link preview branch");
        reveal_strlit("failed to link ");
        assert("failed to link preview branch"@.take(15) =~= "failed to link "@);
    }
    lemma_shrinking_is_named();
    assert(blames("failed to create 'tee' element"@, "tee"@)) by {
        reveal_strlit("failed to create 'tee' element");
        reveal_strlit("tee");
        let s = "failed to create 'tee' element"@;
        assert(s.subrange(17, 22) =~= quoted("tee"@));
        assert(part_at(s, quoted("tee"@), 17));
    }
    assert(blames("failed to create record-branch 'queue' element"@, "queue"@)) by {
        reveal_strlit("failed to create record-branch 'queue' element");
        reveal_strlit("queue");
        let s = "failed to create record-branch 'queue' element"@;
        assert(s.subrange(31, 38) =~= quoted("queue"@));
        assert(part_at(s, quoted("queue"@), 31));
    }
    assert(blames("failed to create preview-branch 'queue' element"@, "queue"@)) by {
        reveal_strlit("failed to create preview-branch 'queue' element");
        reveal_strlit("queue");
        let s = "failed to create preview-branch 'queue' element"@;
        assert(s.subrange(32, 39) =~= quoted("queue"@));
        assert(part_at(s, quoted("queue"@), 32));
    }
    let steps = previewed_steps();
    assert forall|i: int| 0 <= i < steps.len() implies names_its_element(#[trigger] steps[i]) by {
        if 3 <= i < 5 {
            assert(steps[i] == preview_scale_chain()[i - 3]);
        }
    }
}

proof fn lemma_capture_is_named(capture: Capture, device: Option<ValueModel>)
    ensures
        all_name(capture_chain(capture, device)),
{
    assert(starts_with("failed to add audio capture elements to pipeline"@, "failed to add "@)) by {
        reveal_strlit("failed to add audio capture elements to pipeline");
        reveal_strlit("failed to add ");
        assert("failed to add audio capture elements to pipeline"@.take(14) =~= "failed to add "@);
    }
    assert(starts_with("failed to link audio capture chain"@, "failed to link "@)) by {
        reveal_strlit("failed to link audio capture chain");
        reveal_strlit("failed to link ");
        assert("failed to link audio capture chain"@.take(15) =~= "failed to link "@);
    }
    assert(blames("failed to create 'pulsesrc' element (is gstreamer1.0-plugins-good installed, and is PulseAudio running?)"@, "pulsesrc"@)) by {
        reveal_strlit("failed to create 'pulsesrc' element (is gstreamer1.0-plugins-good installed, and is PulseAudio running?)");
        reveal_strlit("pulsesrc");
        let s = "failed to create 'pulsesrc' element (is gstreamer1.0-plugins-good installed, and is PulseAudio running?)"@;
        assert(s.subrange(17, 27) =~= quoted("pulsesrc"@));
        assert(part_at(s, quoted("pulsesrc"@), 17));
    }
    assert(blames("failed to create 'audioconvert' element"@, "audioconvert"@)) by {
        reveal_strlit("failed to create 'audioconvert' element");
        reveal_strlit("audioconvert");
        let s = "failed to create 'audioconvert' element"@;
        assert(s.subrange(17, 31) =~= quoted("audioconvert"@));
        assert(part_at(s, quoted("audioconvert"@), 17));
    }
    assert(blames("failed to create 'audioresample' element"@, "audioresample"@)) by {
        reveal_strlit("failed to create 'audioresample' element");
        reveal_strlit("audioresample");
        let s = "failed to create 'audioresample' element"@;
        assert(s.subrange(17, 32) =~= quoted("audioresample"@));
        assert(part_at(s, quoted("audioresample"@), 17));
    }
    assert(blames("failed to create audio 'capsfilter' element"@, "capsfilter"@)) by {
        reveal_strlit("failed to create audio 'capsfilter' element");
        reveal_strlit("capsfilter");
        let s = "failed to create audio 'capsfilter' element"@;
        assert(s.subrange(23, 35) =~= quoted("capsfilter"@));
        assert(part_at(s, quoted("capsfilter"@), 23));
    }
}

proof fn lemma_mix_is_named()
    ensures
        all_name(encoder_tail()),
        all_name(mixer()),
{
    assert(starts_with("failed to add AAC encoder elements to pipeline"@, "failed to add "@)) by {
        reveal_strlit("failed to add AAC encoder elements to pipeline");
        reveal_strlit("failed to add ");
        assert("failed to add AAC encoder elements to pipeline"@.take(14) =~= "failed to add "@);
    }
    assert(starts_with("failed to link voaacenc to aacparse"@, "failed to link "@)) by {
        reveal_strlit("failed to link voaacenc to aacparse");
        reveal_strlit("failed to link ");
        assert("failed to link voaacenc to aacparse"@.take(15) =~= "failed to link "@);
    }
    assert(starts_with("failed to add 'audiomixer' to pipeline"@, "failed to add "@)) by {
        reveal_strlit("failed to add 'audiomixer' to pipeline");
        reveal_strlit("failed to add ");
        assert("failed to add 'audiomixer' to pipeline"@.take(14) =~= "failed to add "@);
    }
    assert(starts_with("failed to link mic branch into audiomixer"@, "failed to link "@)) by {
        reveal_strlit("failed to link mic branch into audiomixer");
        reveal_strlit("failed to link ");
        assert("failed to link mic branch into audiomixer"@.take(15) =~= "failed to link "@);
    }
    assert(starts_with("failed to link system-audio branch into audiomixer"@, "failed to link "@)) by {
        reveal_strlit("failed to link system-audio branch into audiomixer");
        reveal_strlit("failed to link ");
        assert("failed to link system-audio branch into audiomixer"@.take(15) =~= "failed to link "@);
    }
    assert(starts_with("failed to add post-mixer capsfilter to pipeline"@, "failed to add "@)) by {
        reveal_strlit("failed to add post-mixer capsfilter to pipeline");
        reveal_strlit("failed to add ");
        assert("failed to add post-mixer capsfilter to pipeline"@.take(14) =~= "failed to add "@);
    }
    assert(starts_with("failed to link audiomixer to post-mixer capsfilter"@, "failed to link "@)) by {
        reveal_strlit("failed to link audiomixer to post-mixer capsfilter");
        reveal_strlit("failed to link ");
        assert("failed to link audiomixer to post-mixer capsfilter"@.take(15) =~= "failed to link "@);
    }
    assert(blames("failed to create 'voaacenc' element (is gstreamer1.0-plugins-bad installed?)"@, "voaacenc"@)) by {
        reveal_strlit("failed to create 'voaacenc' element (is gstreamer1.0-plugins-bad installed?)");
        reveal_strlit("voaacenc");
        let s = "failed to create 'voaacenc' element (is gstreamer1.0-plugins-bad installed?)"@;
        assert(s.subrange(17, 27) =~= quoted("voaacenc"@));
        assert(part_at(s, quoted("voaacenc"@), 17));
    }
    assert(blames("failed to create 'aacparse' element"@, "aacparse"@)) by {
        reveal_strlit("failed to create 'aacparse' element");
        reveal_strlit("aacparse");
        let s = "failed to create 'aacparse' element"@;
        assert(s.subrange(17, 27) =~= quoted("aacparse"@));
        assert(part_at(s, quoted("aacparse"@), 17));
    }
    assert(blames("failed to create 'audiomixer' element"@, "audiomixer"@)) by {
        reveal_strlit("failed to create 'audiomixer' element");
        reveal_strlit("audiomixer");
        let s = "failed to create 'audiomixer' element"@;
        assert(s.subrange(17, 29) =~= quoted("audiomixer"@));
        assert(part_at(s, quoted("audiomixer"@), 17));
    }
    assert(blames("failed to create post-mixer 'capsfilter' element"@, "capsfilter"@)) by {
        reveal_strlit("failed to create post-mixer 'capsfilter' element");
        reveal_strlit("capsfilter");
        let s = "failed to create post-mixer 'capsfilter' element"@;
        assert(s.subrange(28, 40) =~= quoted("capsfilter"@));
        assert(part_at(s, quoted("capsfilter"@), 28));
    }
}

proof fn lemma_sound_is_named(mode: AudioMode, device: Option<Seq<char>>)
    ensures
        all_name(audio_steps(mode, device)),
{
    assert(starts_with("failed to link mic capture chain to AAC encoder"@, "failed to link "@)) by {
        reveal_strlit("failed to link mic capture chain to AAC encoder");
        reveal_strlit("failed to link ");
        assert("failed to link mic capture chain to AAC encoder"@.take(15) =~= "failed to link "@);
    }
    assert(starts_with("failed to link system-audio capture chain to AAC encoder"@, "failed to link "@)) by {
        reveal_strlit("failed to link system-audio capture chain to AAC encoder");
        reveal_strlit("failed to link ");
        assert("failed to link system-audio capture chain to AAC encoder"@.take(15) =~= "failed to link "@);
    }
    assert(starts_with("failed to link post-mixer capsfilter to AAC encoder"@, "failed to link "@)) by {
        reveal_strlit("failed to link post-mixer capsfilter to AAC encoder");
        reveal_strlit("failed to link ");
        assert("failed to link post-mixer capsfilter to AAC encoder"@.take(15) =~= "failed to link "@);
    }
    lemma_mix_is_named();
    lemma_capture_is_named(Capture::Mic, None);
    lemma_capture_is_named(Capture::System, Some(ValueModel::DefaultMonitor));
    if let Some(d) = device {
        lemma_capture_is_named(Capture::Mic, Some(ValueModel::Text(d)));
        lemma_capture_is_named(Capture::System, Some(ValueModel::Text(d)));
    }
}

/// Whatever element cannot be created, the message names its kind, for every
/// recording and every preview; and where elements cannot be added or linked
/// it says that.
pub proof fn law_failures_name_the_element(source: SourceModel, cfg: ConfigModel, preview: bool)
    requires
        source_element(source) is Ok,
    ensures
        all_name(recorded(source, cfg, preview)),
        all_name(preview_only_steps(source_element(source)->Ok_0)),
{
    assert(starts_with("failed to add elements to preview pipeline"@, "failed to add "@)) by {
        reveal_strlit("failed to add elements to preview pipeline");
        reveal_strlit("failed to add ");
        assert("failed to add elements to preview pipeline"@.take(14) =~= "failed to add "@);
    }
    assert(starts_with("failed to link preview pipeline"@, "failed to link "@)) by {
        reveal_strlit("failed to link preview pipeline");
        reveal_strlit("failed to link ");
        assert("failed to link preview pipeline"@.take(15) =~= "failed to link "@);
    }
    assert(starts_with("failed to link audio branch into muxer"@, "failed to link "@)) by {
        reveal_strlit("failed to link audio branch into muxer");
        reveal_strlit("failed to link ");
        assert("failed to link audio branch into muxer"@.take(15) =~= "failed to link "@);
    }
    lemma_pictures_are_named(source, cfg);
    lemma_file_is_named();
    lemma_preview_is_named();
    lemma_sound_is_named(cfg.audio_mode, cfg.audio_device);
    lemma_shrinking_is_named();
    lemma_source_is_named(source);
    let alone = preview_only_steps(source_element(source)->Ok_0);
    assert(blames("failed to create 'capsfilter' element"@, "capsfilter"@)) by {
        reveal_strlit("failed to create 'capsfilter' element");
        reveal_strlit("capsfilter");
        let s = "failed to create 'capsfilter' element"@;
        assert(s.subrange(17, 29) =~= quoted("capsfilter"@));
        assert(part_at(s, quoted("capsfilter"@), 17));
    }
    assert forall|i: int| 0 <= i < alone.len() implies names_its_element(#[trigger] alone[i]) by {
        if 2 <= i < 4 {
            assert(alone[i] == preview_scale_chain()[i - 2]);
        }
    }
    let pictures = video_elements(source_element(source)->Ok_0, cfg);
    let steps = recorded(source, cfg, preview);
    let joined = if preview {
        previewed_steps()
    } else {
        plain_steps()
    };
    let sound = audio_steps(cfg.audio_mode, cfg.audio_device);
    assert forall|i: int| 0 <= i < steps.len() implies names_its_element(#[trigger] steps[i]) by {
        if i < 6 {
            assert(steps[i] == pictures[i]);
        } else if valid_utf8(cfg.output_path) && i > 6 {
            if i < 7 + joined.len() {
                assert(steps[i] == joined[i - 7]);
            } else if i < 7 + joined.len() + sound.len() {
                assert(steps[i] == sound[i - 7 - joined.len()]);
            }
        }
    }
}

} // verus!
