//! The choices that the graphical interface offers.
use vstd::prelude::*;
use crate::cli::{AudioMode, DEFAULT_SPEED_PRESET};
use crate::commands::{full_screen_source, region_source};
use crate::config::text_of;
use crate::source::{CaptureSource, Region, ScreenModel, SourceModel, X11ScreenConfig};
use crate::text::{decimal, lemma_mentions, mentions, push_decimal, same_text};
use crate::x11_query::{MonitorInfo, MonitorModel, WindowInfo, WindowModel};

verus! {

/// The audio modes, in the order of the dropdown.
pub const AUDIO_MODES: [AudioMode; 4] = [
    AudioMode::Off,
    AudioMode::Mic,
    AudioMode::System,
    AudioMode::Both,
];

/// The names of the audio modes, in the same order.
pub const AUDIO_LABELS: [&'static str; 4] = [
    "No audio",
    "Microphone",
    "System audio",
    "Mic + System audio",
];

/// x264's speed presets, fastest first.
pub const PRESETS: [&'static str; 10] = [
    "ultrafast",
    "superfast",
    "veryfast",
    "faster",
    "fast",
    "medium",
    "slow",
    "slower",
    "veryslow",
    "placebo",
];

/// The place of the default preset.
pub const DEFAULT_PRESET_INDEX: u32 = 2;

/// What each preset trades off, in the order of the presets.
pub const PRESET_DESCRIPTIONS: [&'static str; 10] = [
    "Fastest encoding, least CPU -- needs the most bitrate for a given quality.",
    "Very fast; only slightly better compression than ultrafast.",
    "Default. Fast enough to keep up with live screen capture without dropping frames.",
    "A little slower than veryfast for a little better compression.",
    "Noticeably more CPU than faster for fairly modest compression gains.",
    "x264's own default balance of speed and compression -- may drop frames on a busy screen.",
    "Better compression, higher CPU load -- real-time capture may start dropping frames.",
    "High CPU load -- real-time capture is likely to drop frames.",
    "Very high CPU load -- not recommended for live capture.",
    "Extremely slow for negligible gains over veryslow -- effectively unusable live.",
];

/// The label of a row of the preset dropdown.
pub fn preset_label(row: usize) -> (label: &'static str)
    ensures
        label@ == if row < 10 {
            PRESETS[row as int]@
        } else {
            ""@
        },
{
    if row < 10 {
        PRESETS[row]
    } else {
        ""
    }
}

/// The tooltip of a row of the preset dropdown.
pub fn preset_tooltip(row: usize) -> (tooltip: Option<&'static str>)
    ensures
        match tooltip {
            Some(t) => row < 10 && t@ == PRESET_DESCRIPTIONS[row as int]@,
            None => row >= 10,
        },
{
    if row < 10 {
        Some(PRESET_DESCRIPTIONS[row])
    } else {
        None
    }
}

/// An entry of the source dropdown.
#[derive(Debug, Clone, Copy, PartialEq, Eq, Structural)]
pub enum SourceChoice {
    FullScreen,
    Monitor(Region),
    Window(u64),
}

/// The source dropdown: a label for each choice, and what to tell the user
/// of monitors and the log of windows that could not be listed.
#[derive(Debug)]
pub struct SourceList {
    pub labels: Vec<String>,
    pub choices: Vec<SourceChoice>,
    pub toast: Option<String>,
    pub warning: Option<String>,
}

/// The label of the full screen.
pub const FULL_SCREEN_LABEL: &'static str = "Full screen (all monitors)";

/// The label of a monitor.
pub open spec fn monitor_label(m: MonitorModel) -> Seq<char> {
    "Monitor "@ + decimal(m.index as nat) + ": "@ + m.name + (if m.primary {
        " (primary)"@
    } else {
        ""@
    }) + " \u{2014} "@ + decimal(m.region.width as nat) + "x"@ + decimal(m.region.height as nat)
}

/// The label of a window.
pub open spec fn window_label(w: WindowModel) -> Seq<char> {
    "Window: ["@ + w.class + "] "@ + w.title
}

/// How many monitors were listed.
pub open spec fn monitor_count(monitors: Result<Vec<MonitorInfo>, String>) -> int {
    match monitors {
        Ok(list) => list@.len() as int,
        Err(_) => 0,
    }
}

/// How many windows were listed.
pub open spec fn window_count(windows: Result<Vec<WindowInfo>, String>) -> int {
    match windows {
        Ok(list) => list@.len() as int,
        Err(_) => 0,
    }
}

/// Whether `label` and `choice` are entry `i` of the dropdown: the full
/// screen, then the monitors, then the windows.
pub open spec fn is_entry(
    monitors: Result<Vec<MonitorInfo>, String>,
    windows: Result<Vec<WindowInfo>, String>,
    i: int,
    label: Seq<char>,
    choice: SourceChoice,
) -> bool {
    let first_window = 1 + monitor_count(monitors);
    if i == 0 {
        label == FULL_SCREEN_LABEL@ && choice == SourceChoice::FullScreen
    } else if i < first_window {
        let m = monitors->Ok_0@[i - 1];
        label == monitor_label(m@) && choice == SourceChoice::Monitor(m.region)
    } else {
        let w = windows->Ok_0@[i - first_window];
        label == window_label(w@) && choice == SourceChoice::Window(w.xid)
    }
}

fn monitor_entry(m: &MonitorInfo) -> (label: String)
    ensures
        label@ == monitor_label(m@),
{
    let mut label = String::new();
    label.append("Monitor ");
    push_decimal(&mut label, m.index as u64);
    label.append(": ");
    label.append(m.name.as_str());
    label.append(
        if m.primary {
            " (primary)"
        } else {
            ""
        },
    );
    label.append(" \u{2014} ");
    push_decimal(&mut label, m.region.width as u64);
    label.append("x");
    push_decimal(&mut label, m.region.height as u64);
    assert(label@ =~= monitor_label(m@));
    label
}

fn window_entry(w: &WindowInfo) -> (label: String)
    ensures
        label@ == window_label(w@),
{
    let mut label = String::new();
    label.append("Window: [");
    label.append(w.class.as_str());
    label.append("] ");
    label.append(w.title.as_str());
    assert(label@ =~= window_label(w@));
    label
}

/// `lead` with a reason behind it.
fn with_reason(lead: &str, reason: &str) -> (text: String)
    ensures
        text@ == lead@ + reason@,
{
    let mut text = String::new();
    text.append(lead);
    text.append(reason);
    assert(text@ =~= lead@ + reason@);
    text
}

/// Builds the source dropdown. Monitors or windows that could not be listed
/// come as the reason why.
pub fn build_source_choices(
    monitors: &Result<Vec<MonitorInfo>, String>,
    windows: &Result<Vec<WindowInfo>, String>,
) -> (list: SourceList)
    ensures
        list.labels@.len() == 1 + monitor_count(*monitors) + window_count(*windows),
        list.choices@.len() == list.labels@.len(),
        forall|i: int|
            0 <= i < list.labels@.len() ==> is_entry(
                *monitors,
                *windows,
                i,
                (#[trigger] list.labels@[i])@,
                list.choices@[i],
            ),
        text_of(list.toast) == match *monitors {
            Ok(_) => None::<Seq<char>>,
            Err(reason) => Some("Could not list monitors: "@ + reason@),
        },
        text_of(list.warning) == match *windows {
            Ok(_) => None::<Seq<char>>,
            Err(reason) => Some("warning: could not list windows: "@ + reason@),
        },
{
    let mut labels: Vec<String> = Vec::new();
    let mut choices: Vec<SourceChoice> = Vec::new();
    let mut toast: Option<String> = None;
    let mut warning: Option<String> = None;
    labels.push(FULL_SCREEN_LABEL.to_owned());
    choices.push(SourceChoice::FullScreen);
    match monitors {
        Ok(list) => {
            let mut i: usize = 0;
            while i < list.len()
                invariant
                    i <= list.len(),
                    *monitors == Ok::<Vec<MonitorInfo>, String>(*list),
                    labels@.len() == 1 + i,
                    choices@.len() == labels@.len(),
                    forall|k: int|
                        0 <= k < labels@.len() ==> is_entry(
                            *monitors,
                            *windows,
                            k,
                            (#[trigger] labels@[k])@,
                            choices@[k],
                        ),
                decreases list.len() - i,
            {
                labels.push(monitor_entry(&list[i]));
                choices.push(SourceChoice::Monitor(list[i].region));
                assert(is_entry(*monitors, *windows, i + 1, labels@[i + 1]@, choices@[i + 1]));
                i = i + 1;
            }
        },
        Err(reason) => {
            toast = Some(with_reason("Could not list monitors: ", reason.as_str()));
        },
    }
    let ghost first = labels@.len();
    assert(first == 1 + monitor_count(*monitors));
    match windows {
        Ok(list) => {
            let mut i: usize = 0;
            while i < list.len()
                invariant
                    i <= list.len(),
                    *windows == Ok::<Vec<WindowInfo>, String>(*list),
                    first == 1 + monitor_count(*monitors),
                    labels@.len() == first + i,
                    choices@.len() == labels@.len(),
                    forall|k: int|
                        0 <= k < labels@.len() ==> is_entry(
                            *monitors,
                            *windows,
                            k,
                            (#[trigger] labels@[k])@,
                            choices@[k],
                        ),
                decreases list.len() - i,
            {
                labels.push(window_entry(&list[i]));
                choices.push(SourceChoice::Window(list[i].xid));
                assert(is_entry(
                    *monitors,
                    *windows,
                    first + i,
                    labels@[first + i]@,
                    choices@[first + i],
                ));
                i = i + 1;
            }
        },
        Err(reason) => {
            warning = Some(with_reason("warning: could not list windows: ", reason.as_str()));
        },
    }
    SourceList { labels, choices, toast, warning }
}

/// The source that a choice stands for.
pub open spec fn source_of(choice: SourceChoice) -> SourceModel {
    SourceModel::X11Screen(
        match choice {
            SourceChoice::FullScreen => ScreenModel::full_screen(),
            SourceChoice::Monitor(region) => ScreenModel {
                region: Some(region),
                ..ScreenModel::full_screen()
            },
            SourceChoice::Window(xid) => ScreenModel {
                xid: Some(xid),
                ..ScreenModel::full_screen()
            },
        },
    )
}

/// The source that a choice stands for.
pub fn build_capture_source(choice: SourceChoice) -> (source: CaptureSource)
    ensures
        source@ == source_of(choice),
{
    match choice {
        SourceChoice::FullScreen => full_screen_source(),
        SourceChoice::Monitor(region) => region_source(region),
        SourceChoice::Window(xid) => {
            let mut cfg = X11ScreenConfig::default();
            cfg.xid = Some(xid);
            CaptureSource::X11Screen(cfg)
        },
    }
}

/// The choice at a place of the dropdown; the full screen where there is
/// none.
pub open spec fn choice_at(choices: Seq<SourceChoice>, selected: u32) -> SourceChoice {
    if selected < choices.len() {
        choices[selected as int]
    } else {
        SourceChoice::FullScreen
    }
}

/// The choice at a place of the dropdown; the full screen where there is
/// none.
pub fn selected_source_choice(choices: &Vec<SourceChoice>, selected: u32) -> (choice: SourceChoice)
    ensures
        choice == choice_at(choices@, selected),
{
    if (selected as usize) < choices.len() {
        choices[selected as usize]
    } else {
        SourceChoice::FullScreen
    }
}

/// The monitor to save for a place of the dropdown: full screen and windows
/// are not monitors.
pub open spec fn monitor_to_save(choices: Seq<SourceChoice>, selected: u32) -> Option<u32> {
    if choice_at(choices, selected) is Monitor && selected > 0 {
        Some((selected - 1) as u32)
    } else {
        None
    }
}

/// The monitor to save for a place of the dropdown.
pub fn settings_source_monitor(choices: &Vec<SourceChoice>, selected: u32) -> (monitor: Option<u32>)
    ensures
        monitor == monitor_to_save(choices@, selected),
{
    match selected_source_choice(choices, selected) {
        SourceChoice::Monitor(_) => if selected > 0 {
            Some(selected - 1)
        } else {
            None
        },
        _ => None,
    }
}

/// The place of a saved monitor in the dropdown; that of the full screen
/// where the monitor is gone.
pub open spec fn place_of_monitor(choices: Seq<SourceChoice>, monitor: Option<u32>) -> u32 {
    match monitor {
        Some(index) => if index + 1 < choices.len() && index < u32::MAX && choices[index + 1]
            is Monitor {
            (index + 1) as u32
        } else {
            0
        },
        None => 0,
    }
}

/// The place of a saved monitor in the dropdown.
pub fn source_dropdown_index(choices: &Vec<SourceChoice>, monitor: Option<u32>) -> (place: u32)
    ensures
        place == place_of_monitor(choices@, monitor),
{
    match monitor {
        Some(index) => {
            if index < u32::MAX && ((index + 1) as usize) < choices.len() {
                match choices[(index + 1) as usize] {
                    SourceChoice::Monitor(_) => index + 1,
                    _ => 0,
                }
            } else {
                0
            }
        },
        None => 0,
    }
}

/// The place of an audio mode in the dropdown.
pub fn audio_dropdown_index(mode: AudioMode) -> (place: u32)
    ensures
        place < 4,
        AUDIO_MODES[place as int] == mode,
{
    match mode {
        AudioMode::Off => 0,
        AudioMode::Mic => 1,
        AudioMode::System => 2,
        AudioMode::Both => 3,
    }
}

/// Whether a text names one of the presets.
pub open spec fn is_preset(name: Seq<char>) -> bool {
    exists|i: int| 0 <= i < 10 && (#[trigger] PRESETS[i])@ == name
}

/// The place of a preset in the dropdown; that of the default where there
/// is no such preset.
pub fn preset_dropdown_index(name: &str) -> (place: u32)
    ensures
        place < 10,
        if is_preset(name@) {
            PRESETS[place as int]@ == name@
        } else {
            place == DEFAULT_PRESET_INDEX
        },
{
    let mut i: usize = 0;
    while i < 10
        invariant
            i <= 10,
            forall|j: int| 0 <= j < i ==> (#[trigger] PRESETS[j])@ != name@,
        decreases 10 - i,
    {
        if same_text(PRESETS[i], name) {
            return i as u32;
        }
        i = i + 1;
    }
    DEFAULT_PRESET_INDEX
}

/// No two places of the preset dropdown hold the same name.
pub proof fn law_presets_differ(i: int, j: int)
    requires
        0 <= i < 10,
        0 <= j < 10,
        PRESETS[i]@ == PRESETS[j]@,
    ensures
        i == j,
{
    reveal_strlit("ultrafast");
    reveal_strlit("superfast");
    reveal_strlit("veryfast");
    reveal_strlit("faster");
    reveal_strlit("fast");
    reveal_strlit("medium");
    reveal_strlit("slow");
    reveal_strlit("slower");
    reveal_strlit("veryslow");
    reveal_strlit("placebo");
    assert("ultrafast"@.len() == 9 && "superfast"@.len() == 9 && "veryfast"@.len() == 8);
    assert("faster"@.len() == 6 && "fast"@.len() == 4 && "medium"@.len() == 6);
    assert("slow"@.len() == 4 && "slower"@.len() == 6 && "veryslow"@.len() == 8);
    assert("placebo"@.len() == 7);
    assert("ultrafast"@[0] == 'u' && "superfast"@[0] == 's');
    assert("faster"@[0] == 'f' && "medium"@[0] == 'm' && "slower"@[0] == 's');
    assert("fast"@[0] == 'f' && "slow"@[0] == 's');
    assert("veryfast"@[4] == 'f' && "veryslow"@[4] == 's');
}

/// The places of the audio dropdown, and the words for them, in their order.
pub proof fn law_audio_places()
    ensures
        AUDIO_MODES[0] == AudioMode::Off && AUDIO_LABELS[0]@ == "No audio"@,
        AUDIO_MODES[1] == AudioMode::Mic && AUDIO_LABELS[1]@ == "Microphone"@,
        AUDIO_MODES[2] == AudioMode::System && AUDIO_LABELS[2]@ == "System audio"@,
        AUDIO_MODES[3] == AudioMode::Both && AUDIO_LABELS[3]@ == "Mic + System audio"@,
{
}

/// The places of the preset dropdown hold x264's presets, fastest first, and
/// the default place holds the default preset.
pub proof fn law_preset_places()
    ensures
        PRESETS[0]@ == "ultrafast"@ && PRESETS[1]@ == "superfast"@ && PRESETS[2]@ == "veryfast"@,
        PRESETS[3]@ == "faster"@ && PRESETS[4]@ == "fast"@ && PRESETS[5]@ == "medium"@,
        PRESETS[6]@ == "slow"@ && PRESETS[7]@ == "slower"@ && PRESETS[8]@ == "veryslow"@,
        PRESETS[9]@ == "placebo"@,
        PRESETS[DEFAULT_PRESET_INDEX as int]@ == DEFAULT_SPEED_PRESET@,
        DEFAULT_SPEED_PRESET@ == "veryfast"@,
{
}

/// A choice captures what it names and nothing else: the region of its
/// monitor, the window with its id, or neither. The pointer is in the
/// picture, and the display is the default one.
pub proof fn law_choices_capture_what_they_name(choice: SourceChoice)
    ensures
        source_of(choice) matches SourceModel::X11Screen(screen) && screen.display_name is None
            && screen.show_pointer && (screen.region matches Some(r) ==> choice
            == SourceChoice::Monitor(r)) && (screen.xid matches Some(id) ==> choice
            == SourceChoice::Window(id)) && (screen.region is Some <==> choice is Monitor) && (
        screen.xid is Some <==> choice is Window),
{
}

/// The selected place of the dropdown is the choice that is taken. Only a
/// place that there is not stands for the full screen.
pub proof fn law_selected_choice_is_taken(choices: Seq<SourceChoice>, selected: u32)
    ensures
        0 <= selected < choices.len() ==> choice_at(choices, selected) == choices[selected as int],
        choices.len() <= selected ==> choice_at(choices, selected) == SourceChoice::FullScreen,
{
}

/// A monitor is saved by how many monitors stand in front of it in the
/// dropdown, and found again by that; a window or the full screen is not
/// saved as any monitor, and nothing saved leads to a window.
pub proof fn law_saved_monitor_is_found_again(choices: Seq<SourceChoice>, selected: u32, saved: u32)
    requires
        choices.len() > 0 && choices[0] == SourceChoice::FullScreen,
    ensures
        monitor_to_save(choices, selected) == Some(saved) <==> saved + 1 == selected && selected
            < choices.len() && choices[selected as int] is Monitor,
        monitor_to_save(choices, selected) is Some ==> place_of_monitor(
            choices,
            monitor_to_save(choices, selected),
        ) == selected,
        place_of_monitor(choices, None) == 0,
        place_of_monitor(choices, Some(saved)) == if saved + 1 < choices.len() && saved + 1
            <= u32::MAX && choices[saved + 1] is Monitor {
            saved + 1
        } else {
            0
        },
{
}

/// The dropdown begins with the full screen. Behind it every monitor that
/// was listed has an entry that captures its region, in their order, and
/// behind those every window one that captures it by its id.
pub proof fn law_every_source_has_its_entry(
    monitors: Vec<MonitorInfo>,
    windows: Vec<WindowInfo>,
    i: int,
    label: Seq<char>,
    choice: SourceChoice,
)
    requires
        0 <= i < 1 + monitors@.len() + windows@.len(),
        is_entry(Ok(monitors), Ok(windows), i, label, choice),
    ensures
        i == 0 ==> choice == SourceChoice::FullScreen && label == "Full screen (all monitors)"@,
        forall|k: int|
            0 <= k < monitors@.len() && i == 1 + k ==> choice == SourceChoice::Monitor(
                (#[trigger] monitors@[k]).region,
            ) && label == monitor_label(monitors@[k]@),
        forall|k: int|
            0 <= k < windows@.len() && i == 1 + monitors@.len() + k ==> choice
                == SourceChoice::Window((#[trigger] windows@[k]).xid) && label == window_label(
                windows@[k]@,
            ),
{
}

/// Monitors that could not be listed leave no entry, and neither do windows.
pub proof fn law_unlisted_sources_have_no_entry(
    monitors: Result<Vec<MonitorInfo>, String>,
    windows: Result<Vec<WindowInfo>, String>,
    i: int,
    label: Seq<char>,
    choice: SourceChoice,
)
    requires
        0 <= i < 1 + monitor_count(monitors) + window_count(windows),
        is_entry(monitors, windows, i, label, choice),
    ensures
        monitor_count(monitors) == (if monitors is Ok {
            monitors->Ok_0@.len()
        } else {
            0
        }),
        window_count(windows) == (if windows is Ok {
            windows->Ok_0@.len()
        } else {
            0
        }),
        monitors is Err ==> !(choice is Monitor),
        windows is Err ==> !(choice is Window),
        choice is FullScreen <==> i == 0,
        windows matches Ok(list) ==> forall|k: int|
            0 <= k < list@.len() && i == 1 + monitor_count(monitors) + k ==> choice
                == SourceChoice::Window((#[trigger] list@[k]).xid),
{
}

/// A monitor's label tells its index, its name, its size, and whether it is
/// the primary one.
pub proof fn law_monitor_labels_tell_monitors_apart(m: MonitorModel)
    requires
        0 <= m.index,
    ensures
        ({
            let front = "Monitor "@ + decimal(m.index as nat) + ": "@ + m.name;
            let size = " \u{2014} "@ + decimal(m.region.width as nat) + "x"@ + decimal(
                m.region.height as nat,
            );
            &&& m.primary ==> monitor_label(m) == front + " (primary)"@ + size
            &&& !m.primary ==> monitor_label(m) == front + size
        }),
{
    reveal_strlit("");
    let front = "Monitor "@ + decimal(m.index as nat) + ": "@ + m.name;
    let size = " \u{2014} "@ + decimal(m.region.width as nat) + "x"@ + decimal(
        m.region.height as nat,
    );
    if m.primary {
        assert(monitor_label(m) =~= front + " (primary)"@ + size);
    } else {
        assert(monitor_label(m) =~= front + size);
    }
}

/// A window's label tells its class and its title.
pub proof fn law_window_labels_tell_windows_apart(w: WindowModel)
    ensures
        mentions(window_label(w), "["@ + w.class + "]"@),
        window_label(w).skip(window_label(w).len() - w.title.len()) == w.title,
        window_label(w).take("Window: "@.len() as int) == "Window: "@,
        window_label(w).len() == "Window: []"@.len() + w.class.len() + 1 + w.title.len(),
{
    reveal_strlit("Window: [");
    reveal_strlit("Window: ");
    reveal_strlit("Window: []");
    reveal_strlit("[");
    reveal_strlit("]");
    reveal_strlit("] ");
    let part = "["@ + w.class + "]"@;
    let after = " "@ + w.title;
    reveal_strlit(" ");
    assert(window_label(w) =~= "Window: "@ + part + after);
    lemma_mentions("Window: "@, part, after);
    assert(window_label(w).skip(window_label(w).len() - w.title.len()) =~= w.title);
    assert(window_label(w).take("Window: "@.len() as int) =~= "Window: "@);
}

/// A preset is one of the ten that are offered.
pub proof fn law_presets_are_those_offered(name: Seq<char>)
    ensures
        is_preset(name) <==> name == "ultrafast"@ || name == "superfast"@ || name == "veryfast"@
            || name == "faster"@ || name == "fast"@ || name == "medium"@ || name == "slow"@ || name
            == "slower"@ || name == "veryslow"@ || name == "placebo"@,
{
    law_preset_places();
    if is_preset(name) {
        let i = choose|i: int| 0 <= i < 10 && (#[trigger] PRESETS[i])@ == name;
        assert(0 <= i < 10);
        if i == 0 || i == 1 || i == 2 || i == 3 || i == 4 {
        } else {
            assert(i == 5 || i == 6 || i == 7 || i == 8 || i == 9);
        }
    }
}

} // verus!
