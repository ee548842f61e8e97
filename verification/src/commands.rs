//! What the commands of the command line decide and print.
use vstd::prelude::*;
use crate::cli::{
    container_for, ends_like_mp4, law_container_goes_by_how_the_path_ends,
    law_listed_window_id_is_accepted, push_window_id, window_id, window_id_text, AudioMode,
    Container, RecordArgs, Span,
};
use crate::config::{copy_text, text_of};
use crate::duration::{duration_of, DurationError};
use crate::outside::{
    from_utf8_lossy, humantime_format, humantime_reading, humantime_text, lossy_text,
};
use crate::paths::copy_bytes;
use crate::pipeline::{ConfigModel, RecordConfig};
use crate::source::{
    CaptureSource, PortalConfig, Region, ScreenModel, SourceModel, X11ScreenConfig,
};
use crate::text::{
    decimal, decimal_text, law_decimal_reads_back, lemma_mentions, lemma_mentions_within,
    lemma_radix_reads_back, mentions, pad_end, positional, push_decimal, push_padded, push_radix,
    radix,
};
use crate::x11_query::{MonitorInfo, MonitorModel, WindowInfo, WindowModel};

verus! {

/// Why a command is refused.
#[derive(Debug, Clone, Copy, PartialEq, Eq, Structural)]
pub enum CommandError {
    /// Both a monitor and a window were asked for.
    TwoSources,
    /// The window that was asked for is not there.
    NoWindow(u64),
    /// The graphical interface was asked for in a Wayland session.
    GuiOnWayland,
}

impl CommandError {
    /// What to tell the user.
    pub open spec fn text(self) -> Seq<char> {
        match self {
            CommandError::TwoSources => "--monitor and --window can't be combined; pick one capture source"@,
            CommandError::NoWindow(xid) => "no window with id 0x"@ + radix(xid as nat, 16)
                + " (see `list-sources`)"@,
            CommandError::GuiOnWayland => "this looks like a Wayland session (WAYLAND_DISPLAY is set) -- the GUI only supports X11 for now.\n"@
                + "`desktoprecorder record` supports Wayland via xdg-desktop-portal; the GUI doesn't yet.\n"@
                + "If you're actually running under X11 and WAYLAND_DISPLAY is just left over from something else, unset it and try again."@,
        }
    }

    /// What to tell the user.
    pub fn message(&self) -> (message: String)
        ensures
            message@ == self.text(),
    {
        let mut message = String::new();
        match self {
            CommandError::TwoSources => {
                message.append("--monitor and --window can't be combined; pick one capture source");
            },
            CommandError::NoWindow(xid) => {
                message.append("no window with id 0x");
                push_radix(&mut message, *xid, 16);
                message.append(" (see `list-sources`)");
            },
            CommandError::GuiOnWayland => {
                message.append(
                    "this looks like a Wayland session (WAYLAND_DISPLAY is set) -- the GUI only supports X11 for now.\n",
                );
                message.append(
                    "`desktoprecorder record` supports Wayland via xdg-desktop-portal; the GUI doesn't yet.\n",
                );
                message.append(
                    "If you're actually running under X11 and WAYLAND_DISPLAY is just left over from something else, unset it and try again.",
                );
            },
        }
        assert(message@ =~= self.text());
        message
    }
}

/// The graphical interface is for X11 sessions only.
pub fn gui_command(wayland: bool) -> (allowed: Result<(), CommandError>)
    ensures
        allowed == if wayland {
            Err::<(), CommandError>(CommandError::GuiOnWayland)
        } else {
            Ok::<(), CommandError>(())
        },
{
    if wayland {
        Err(CommandError::GuiOnWayland)
    } else {
        Ok(())
    }
}

/// What has to be found out before there is a source to record.
#[derive(Debug, Clone, Copy, PartialEq, Eq, Structural)]
pub enum SourceRequest {
    /// Nothing: the full screen.
    FullScreen,
    /// The region of the monitor with this index.
    Monitor(u32),
    /// Whether the window with this id is there.
    Window(u64),
    /// What the user picks in the desktop portal's own dialog. With `true`,
    /// a monitor or window was asked for, which the portal has no use for.
    Portal(bool),
}

/// The note on a monitor or window that the portal has no use for.
pub const IGNORED_NOTE: &'static str = "note: --monitor/--window are ignored under Wayland -- the system picker will ask you to choose instead";

/// The hint that the portal's dialog is waiting.
pub const WAITING_HINT: &'static str = "waiting for you to choose what to share (look for a system dialog)...";

/// What has to be found out before there is a source to record.
pub fn record_command(args: &RecordArgs, wayland: bool) -> (request: Result<
    SourceRequest,
    CommandError,
>)
    ensures
        request == match (args.monitor, args.window) {
            (Some(_), Some(_)) => Err::<SourceRequest, CommandError>(CommandError::TwoSources),
            (monitor, window) => Ok::<SourceRequest, CommandError>(
                if wayland {
                    SourceRequest::Portal(monitor is Some || window is Some)
                } else {
                    match (monitor, window) {
                        (Some(index), _) => SourceRequest::Monitor(index),
                        (_, Some(xid)) => SourceRequest::Window(xid),
                        _ => SourceRequest::FullScreen,
                    }
                },
            ),
        },
{
    if args.monitor.is_some() && args.window.is_some() {
        return Err(CommandError::TwoSources);
    }
    if wayland {
        return Ok(SourceRequest::Portal(args.monitor.is_some() || args.window.is_some()));
    }
    match args.monitor {
        Some(index) => Ok(SourceRequest::Monitor(index)),
        None => match args.window {
            Some(xid) => Ok(SourceRequest::Window(xid)),
            None => Ok(SourceRequest::FullScreen),
        },
    }
}

/// The full screen as a source.
pub fn full_screen_source() -> (source: CaptureSource)
    ensures
        source@ == SourceModel::X11Screen(ScreenModel::full_screen()),
{
    CaptureSource::X11Screen(X11ScreenConfig::default())
}

/// A part of the screen as a source.
pub fn region_source(region: Region) -> (source: CaptureSource)
    ensures
        source@ == SourceModel::X11Screen(
            ScreenModel { region: Some(region), ..ScreenModel::full_screen() },
        ),
{
    let mut cfg = X11ScreenConfig::default();
    cfg.region = Some(region);
    CaptureSource::X11Screen(cfg)
}

/// A window as a source, if it is there.
pub fn window_source(xid: u64, there: bool) -> (source: Result<CaptureSource, CommandError>)
    ensures
        match source {
            Ok(s) => there && s@ == SourceModel::X11Screen(
                ScreenModel { xid: Some(xid), ..ScreenModel::full_screen() },
            ),
            Err(e) => !there && e == CommandError::NoWindow(xid),
        },
{
    if !there {
        return Err(CommandError::NoWindow(xid));
    }
    let mut cfg = X11ScreenConfig::default();
    cfg.xid = Some(xid);
    Ok(CaptureSource::X11Screen(cfg))
}

/// What the portal is going to hand over as a source.
pub fn portal_source() -> (source: CaptureSource)
    ensures
        source@ == SourceModel::Portal(PortalConfig { show_pointer: true, negotiated: None }),
{
    CaptureSource::Portal(PortalConfig::default())
}

/// The container to record into: the one that is asked for, or the one that
/// goes with the output path.
pub open spec fn chosen_container(args: RecordArgs) -> Container {
    match args.container {
        Some(container) => container,
        None => container_for(args.output@),
    }
}

/// What a recording pipeline needs to know of the command line.
pub fn record_config(args: &RecordArgs) -> (cfg: RecordConfig)
    ensures
        cfg@ == (ConfigModel {
            output_path: args.output@,
            framerate: args.framerate,
            bitrate_kbps: args.bitrate,
            speed_preset: args.speed_preset@,
            container: chosen_container(*args),
            audio_mode: args.audio,
            audio_device: text_of(args.audio_device),
        }),
{
    let container = match args.container {
        Some(container) => container,
        None => Container::infer_from_path(args.output.as_slice()),
    };
    RecordConfig {
        output_path: copy_bytes(args.output.as_slice()),
        framerate: args.framerate,
        bitrate_kbps: args.bitrate,
        speed_preset: args.speed_preset.clone(),
        container,
        audio_mode: args.audio,
        audio_device: copy_text(&args.audio_device),
    }
}

/// The audio mode in words.
pub open spec fn audio_words(mode: AudioMode) -> Seq<char> {
    match mode {
        AudioMode::Off => "no audio"@,
        AudioMode::Mic => "mic audio"@,
        AudioMode::System => "system audio"@,
        AudioMode::Both => "mic+system audio"@,
    }
}

/// What is printed when a recording begins, where `duration` is its length
/// in words.
pub open spec fn banner_text(cfg: ConfigModel, duration: Seq<char>) -> Seq<char> {
    "recording to "@ + lossy_text(cfg.output_path) + " for "@ + duration + " ("@ + decimal(
        cfg.framerate as nat,
    ) + "fps, "@ + decimal(cfg.bitrate_kbps as nat) + "kbps, "@ + cfg.container.muxer() + ", "@
        + audio_words(cfg.audio_mode) + ")... press Ctrl+C to stop early"@
}

/// What is printed when a recording begins, with its length in words.
pub fn banner_with(cfg: &RecordConfig, duration: &str) -> (text: String)
    ensures
        text@ == banner_text(cfg@, duration@),
{
    let mut text = String::new();
    text.append("recording to ");
    text.append(from_utf8_lossy(cfg.output_path.as_slice()).as_str());
    text.append(" for ");
    text.append(duration);
    text.append(" (");
    push_decimal(&mut text, cfg.framerate as u64);
    text.append("fps, ");
    push_decimal(&mut text, cfg.bitrate_kbps as u64);
    text.append("kbps, ");
    text.append(cfg.container.mux_element_name());
    text.append(", ");
    text.append(
        match cfg.audio_mode {
            AudioMode::Off => "no audio",
            AudioMode::Mic => "mic audio",
            AudioMode::System => "system audio",
            AudioMode::Both => "mic+system audio",
        },
    );
    text.append(")... press Ctrl+C to stop early");
    assert(text@ =~= banner_text(cfg@, duration@));
    text
}

/// What is printed when a recording begins. The length in it can be given
/// back as a duration.
pub fn banner(cfg: &RecordConfig, duration: Span) -> (text: String)
    requires
        duration.valid(),
    ensures
        text@ == banner_text(cfg@, humantime_text(duration.secs, duration.nanos)),
        ({
            let words = humantime_text(duration.secs, duration.nanos);
            duration_of(words, humantime_reading(words)) == Ok::<Span, DurationError>(duration)
        }),
{
    let words = humantime_format(duration.secs, duration.nanos);
    banner_with(cfg, words.as_str())
}

/// What is printed when a recording has ended well.
pub fn closing_text(stopped: bool, output: &[u8]) -> (text: String)
    ensures
        text@ == (if stopped {
            "stopped early: "@
        } else {
            "done: "@
        }) + lossy_text(output@),
{
    let mut text = String::new();
    text.append(
        if stopped {
            "stopped early: "
        } else {
            "done: "
        },
    );
    text.append(from_utf8_lossy(output).as_str());
    assert(text@ =~= (if stopped {
        "stopped early: "@
    } else {
        "done: "@
    }) + lossy_text(output@));
    text
}

/// What list-sources prints in a Wayland session.
pub const WAYLAND_LISTING: &'static str = "This is a Wayland session -- xdg-desktop-portal doesn't expose monitor/window enumeration ahead of time (by design, for privacy), so there's no --monitor/--window list to show. `desktoprecorder record` will show the compositor's own picker dialog instead.\n";

/// What list-sources prints above the monitors.
pub const MONITORS_HEADING: &'static str = "(no --monitor/--window)  Full virtual screen (all monitors combined) \u{2014} default\n\nMonitors (--monitor <index>):\n";

/// What list-sources prints above the windows.
pub const WINDOWS_HEADING: &'static str = "\nWindows (--window <id>):\n";

/// A region as list-sources prints it.
pub open spec fn region_text(r: Region) -> Seq<char> {
    decimal(r.width as nat) + "x"@ + decimal(r.height as nat) + "+"@ + decimal(r.x as nat) + "+"@
        + decimal(r.y as nat)
}

/// A region as list-sources prints it: "WxH+X+Y".
pub fn format_region(r: &Region) -> (text: String)
    ensures
        text@ == region_text(*r),
{
    let mut text = String::new();
    push_decimal(&mut text, r.width as u64);
    text.append("x");
    push_decimal(&mut text, r.height as u64);
    text.append("+");
    push_decimal(&mut text, r.x as u64);
    text.append("+");
    push_decimal(&mut text, r.y as u64);
    assert(text@ =~= region_text(*r));
    text
}

/// The mark of the primary monitor.
pub open spec fn primary_mark(primary: bool) -> Seq<char> {
    if primary {
        " (primary)"@
    } else {
        ""@
    }
}

/// The line that list-sources prints for a monitor.
pub open spec fn monitor_line(m: MonitorModel) -> Seq<char> {
    "  "@ + pad_end(decimal(m.index as nat), 3) + " "@ + pad_end(m.name, 12) + primary_mark(
        m.primary,
    ) + "  "@ + region_text(m.region) + "\n"@
}

/// The lines that list-sources prints for monitors.
pub open spec fn monitor_lines(monitors: Seq<MonitorModel>) -> Seq<char>
    decreases monitors.len(),
{
    if monitors.len() == 0 {
        seq![]
    } else {
        monitor_lines(monitors.drop_last()) + monitor_line(monitors.last())
    }
}

/// The line that list-sources prints for a window.
pub open spec fn window_line(w: WindowModel) -> Seq<char> {
    "  "@ + window_id_text(w.xid) + "  ["@ + w.class + "] "@ + w.title + "  "@ + (match w.region {
        Some(r) => region_text(r),
        None => "position/size unknown"@,
    }) + "\n"@
}

/// The lines that list-sources prints for windows.
pub open spec fn window_lines(windows: Seq<WindowModel>) -> Seq<char>
    decreases windows.len(),
{
    if windows.len() == 0 {
        seq![]
    } else {
        window_lines(windows.drop_last()) + window_line(windows.last())
    }
}

/// The models of monitors.
pub open spec fn monitor_models(monitors: Seq<MonitorInfo>) -> Seq<MonitorModel> {
    monitors.map_values(|m: MonitorInfo| m@)
}

/// The models of windows.
pub open spec fn window_models(windows: Seq<WindowInfo>) -> Seq<WindowModel> {
    windows.map_values(|w: WindowInfo| w@)
}

fn push_monitor_line(out: &mut String, m: &MonitorInfo)
    ensures
        final(out)@ == old(out)@ + monitor_line(m@),
{
    let index = decimal_text(m.index as u64);
    let region = format_region(&m.region);
    out.append("  ");
    push_padded(out, index.as_str(), 3);
    out.append(" ");
    push_padded(out, m.name.as_str(), 12);
    out.append(
        if m.primary {
            " (primary)"
        } else {
            ""
        },
    );
    out.append("  ");
    out.append(region.as_str());
    out.append("\n");
    assert(out@ =~= old(out)@ + monitor_line(m@));
}

fn push_window_line(out: &mut String, w: &WindowInfo)
    ensures
        final(out)@ == old(out)@ + window_line(w@),
{
    let place = match &w.region {
        Some(region) => format_region(region),
        None => "position/size unknown".to_owned(),
    };
    out.append("  ");
    push_window_id(out, w.xid);
    out.append("  [");
    out.append(w.class.as_str());
    out.append("] ");
    out.append(w.title.as_str());
    out.append("  ");
    out.append(place.as_str());
    out.append("\n");
    assert(out@ =~= old(out)@ + window_line(w@));
}

/// What list-sources prints for monitors.
pub fn monitors_listing(monitors: &Vec<MonitorInfo>) -> (text: String)
    ensures
        text@ == monitor_lines(monitor_models(monitors@)),
{
    let mut text = String::new();
    let mut i: usize = 0;
    let ghost models = monitor_models(monitors@);
    assert(models.take(0) =~= seq![]);
    assert(text@ =~= monitor_lines(models.take(0)));
    while i < monitors.len()
        invariant
            i <= monitors.len(),
            models == monitor_models(monitors@),
            text@ == monitor_lines(models.take(i as int)),
        decreases monitors.len() - i,
    {
        push_monitor_line(&mut text, &monitors[i]);
        i = i + 1;
        assert(models.take(i as int).drop_last() =~= models.take(i - 1));
        assert(models.take(i as int).last() == monitors@[i - 1]@);
    }
    assert(models.take(i as int) =~= models);
    text
}

/// What list-sources prints for windows.
pub fn windows_listing(windows: &Vec<WindowInfo>) -> (text: String)
    ensures
        text@ == if windows@.len() == 0 {
            "  (none found)\n"@
        } else {
            window_lines(window_models(windows@))
        },
{
    if windows.len() == 0 {
        return "  (none found)\n".to_owned();
    }
    let mut text = String::new();
    let mut i: usize = 0;
    let ghost models = window_models(windows@);
    assert(models.take(0) =~= seq![]);
    assert(text@ =~= window_lines(models.take(0)));
    while i < windows.len()
        invariant
            i <= windows.len(),
            models == window_models(windows@),
            text@ == window_lines(models.take(i as int)),
        decreases windows.len() - i,
    {
        push_window_line(&mut text, &windows[i]);
        i = i + 1;
        assert(models.take(i as int).drop_last() =~= models.take(i - 1));
        assert(models.take(i as int).last() == windows@[i - 1]@);
    }
    assert(models.take(i as int) =~= models);
    text
}

/// What list-sources warns of when there is no telling the windows.
pub fn windows_warning(reason: &str) -> (text: String)
    ensures
        text@ == "  warning: could not list windows: "@ + reason@,
{
    let mut text = String::new();
    text.append("  warning: could not list windows: ");
    text.append(reason);
    assert(text@ =~= "  warning: could not list windows: "@ + reason@);
    text
}

/// Whether list-sources asks the X server for monitors: not in a Wayland
/// session.
pub fn asks_monitors(wayland: bool) -> (asks: bool)
    ensures
        asks == !wayland,
{
    !wayland
}

/// Whether list-sources asks the X server for windows: not in a Wayland
/// session, nor where the monitors could not be listed.
pub fn asks_windows(wayland: bool, monitors_listed: bool) -> (asks: bool)
    ensures
        asks == (!wayland && monitors_listed),
{
    !wayland && monitors_listed
}

/// What list-sources does as a whole.
#[derive(Debug)]
pub struct Listing {
    /// What is printed.
    pub text: String,
    /// What is warned of after that.
    pub warning: Option<String>,
    /// What the command fails with after that.
    pub error: Option<String>,
}

/// What list-sources prints for windows, if they could be listed.
pub open spec fn windows_part(windows: Result<Vec<WindowInfo>, String>) -> Seq<char> {
    match windows {
        Ok(list) => if list@.len() == 0 {
            "  (none found)\n"@
        } else {
            window_lines(window_models(list@))
        },
        Err(_) => seq![],
    }
}

/// What list-sources prints.
pub open spec fn listing_text(
    wayland: bool,
    monitors: Result<Vec<MonitorInfo>, String>,
    windows: Result<Vec<WindowInfo>, String>,
) -> Seq<char> {
    if wayland {
        WAYLAND_LISTING@
    } else {
        match monitors {
            Ok(list) => MONITORS_HEADING@ + monitor_lines(monitor_models(list@)) + WINDOWS_HEADING@
                + windows_part(windows),
            Err(_) => MONITORS_HEADING@,
        }
    }
}

/// What list-sources does. Monitors or windows that could not be listed come
/// as the reason why. Without monitors the command fails; without windows it
/// only warns. In a Wayland session, where the portal's own dialog does the
/// asking, neither is looked at, and windows are not where monitors failed.
pub fn sources_listing(
    wayland: bool,
    monitors: &Result<Vec<MonitorInfo>, String>,
    windows: &Result<Vec<WindowInfo>, String>,
) -> (listing: Listing)
    ensures
        listing.text@ == listing_text(wayland, *monitors, *windows),
        text_of(listing.warning) == match (wayland, *monitors, *windows) {
            (false, Ok(_), Err(reason)) => Some(
                "  warning: could not list windows: "@ + reason@,
            ),
            _ => None::<Seq<char>>,
        },
        text_of(listing.error) == match (wayland, *monitors) {
            (false, Err(reason)) => Some("failed to list monitors: "@ + reason@),
            _ => None::<Seq<char>>,
        },
{
    if wayland {
        return Listing { text: WAYLAND_LISTING.to_owned(), warning: None, error: None };
    }
    let mut text = MONITORS_HEADING.to_owned();
    match monitors {
        Ok(list) => {
            text.append(monitors_listing(list).as_str());
        },
        Err(reason) => {
            let mut error = String::new();
            error.append("failed to list monitors: ");
            error.append(reason.as_str());
            assert(error@ =~= "failed to list monitors: "@ + reason@);
            return Listing { text, warning: None, error: Some(error) };
        },
    }
    text.append(WINDOWS_HEADING);
    let warning = match windows {
        Ok(list) => {
            text.append(windows_listing(list).as_str());
            None
        },
        Err(reason) => Some(windows_warning(reason.as_str())),
    };
    assert(text@ =~= listing_text(wayland, *monitors, *windows));
    Listing { text, warning, error: None }
}

/// The container that is asked for is the one that is taken; where none is,
/// it goes by how the output path ends.
pub proof fn law_container_is_as_asked(args: RecordArgs)
    ensures
        args.container matches Some(c) ==> chosen_container(args) == c,
        args.container is None && args.output@.len() > 0 && args.output@.last() != 0x2f
            && args.output@.last() != 0x2e ==> {
            &&& chosen_container(args) == Container::Mp4 <==> ends_like_mp4(args.output@)
                && args.output@.len() > 4 && args.output@[args.output@.len() - 5] != 0x2f
            &&& chosen_container(args) == Container::Mkv || chosen_container(args)
                == Container::Mp4
        },
{
    if args.output@.len() > 0 && args.output@.last() != 0x2f && args.output@.last() != 0x2e {
        law_container_goes_by_how_the_path_ends(args.output@);
    }
}

/// The banner tells where the recording goes, how long it lasts, and what it
/// is made with.
pub proof fn law_banner_tells_the_settings(cfg: ConfigModel, duration: Seq<char>)
    ensures
        mentions(
            banner_text(cfg, duration),
            "recording to "@ + lossy_text(cfg.output_path) + " for "@ + duration + " ("@,
        ),
        mentions(
            banner_text(cfg, duration),
            " ("@ + decimal(cfg.framerate as nat) + "fps, "@ + decimal(cfg.bitrate_kbps as nat)
                + "kbps, "@,
        ),
        cfg.container == Container::Mp4 ==> mentions(banner_text(cfg, duration), "kbps, qtmux, "@),
        cfg.container == Container::Mkv ==> mentions(
            banner_text(cfg, duration),
            "kbps, matroskamux, "@,
        ),
{
    let all = banner_text(cfg, duration);
    let front = "recording to "@ + lossy_text(cfg.output_path) + " for "@ + duration;
    let rates = decimal(cfg.framerate as nat) + "fps, "@ + decimal(cfg.bitrate_kbps as nat);
    let words = audio_words(cfg.audio_mode) + ")... press Ctrl+C to stop early"@;
    let one = front + " ("@;
    let after_one = rates + "kbps, "@ + cfg.container.muxer() + ", "@ + words;
    assert(all =~= Seq::<char>::empty() + one + after_one);
    lemma_mentions(seq![], one, after_one);
    let two = " ("@ + rates + "kbps, "@;
    let after_two = cfg.container.muxer() + ", "@ + words;
    assert(two =~= " ("@ + decimal(cfg.framerate as nat) + "fps, "@ + decimal(
        cfg.bitrate_kbps as nat,
    ) + "kbps, "@);
    assert(all =~= front + two + after_two);
    lemma_mentions(front, two, after_two);
    reveal_strlit("kbps, ");
    reveal_strlit("qtmux");
    reveal_strlit("matroskamux");
    reveal_strlit(", ");
    reveal_strlit("kbps, qtmux, ");
    reveal_strlit("kbps, matroskamux, ");
    let three = "kbps, "@ + cfg.container.muxer() + ", "@;
    let before_three = front + " ("@ + rates;
    assert(all =~= before_three + three + words);
    lemma_mentions(before_three, three, words);
    if cfg.container == Container::Mp4 {
        assert(three =~= "kbps, qtmux, "@);
    } else {
        assert(three =~= "kbps, matroskamux, "@);
    }
}

/// The banner ends with what is recorded of sound.
pub proof fn law_banner_tells_the_sound(cfg: ConfigModel, duration: Seq<char>)
    ensures
        cfg.audio_mode == AudioMode::Off ==> mentions(
            banner_text(cfg, duration),
            ", no audio)... "@,
        ),
        cfg.audio_mode == AudioMode::Mic ==> mentions(
            banner_text(cfg, duration),
            ", mic audio)... "@,
        ),
        cfg.audio_mode == AudioMode::System ==> mentions(
            banner_text(cfg, duration),
            ", system audio)... "@,
        ),
        cfg.audio_mode == AudioMode::Both ==> mentions(
            banner_text(cfg, duration),
            ", mic+system audio)... "@,
        ),
{
    let all = banner_text(cfg, duration);
    let front = "recording to "@ + lossy_text(cfg.output_path) + " for "@ + duration + " ("@
        + decimal(cfg.framerate as nat) + "fps, "@ + decimal(cfg.bitrate_kbps as nat) + "kbps, "@
        + cfg.container.muxer();
    reveal_strlit(", ");
    reveal_strlit(")... press Ctrl+C to stop early");
    let end = ")... press Ctrl+C to stop early"@;
    let part = ", "@ + audio_words(cfg.audio_mode) + end.take(5);
    assert(all =~= front + part + end.skip(5));
    lemma_mentions(front, part, end.skip(5));
    reveal_strlit("no audio");
    reveal_strlit("mic audio");
    reveal_strlit("system audio");
    reveal_strlit("mic+system audio");
    reveal_strlit(", no audio)... ");
    reveal_strlit(", mic audio)... ");
    reveal_strlit(", system audio)... ");
    reveal_strlit(", mic+system audio)... ");
    match cfg.audio_mode {
        AudioMode::Off => assert(part =~= ", no audio)... "@),
        AudioMode::Mic => assert(part =~= ", mic audio)... "@),
        AudioMode::System => assert(part =~= ", system audio)... "@),
        AudioMode::Both => assert(part =~= ", mic+system audio)... "@),
    }
}

/// A region is printed by its width, height and place, in this order.
pub proof fn law_regions_are_printed_in_full(r: Region)
    ensures
        ({
            let text = region_text(r);
            let a = decimal(r.width as nat).len() as int;
            let b = a + 1 + decimal(r.height as nat).len();
            let c = b + 1 + decimal(r.x as nat).len();
            &&& text.len() == c + 1 + decimal(r.y as nat).len()
            &&& positional(text.take(a), 10) == r.width
            &&& text[a] == 'x'
            &&& positional(text.subrange(a + 1, b), 10) == r.height
            &&& text[b] == '+'
            &&& positional(text.subrange(b + 1, c), 10) == r.x
            &&& text[c] == '+'
            &&& positional(text.skip(c + 1), 10) == r.y
        }),
{
    reveal_strlit("x");
    reveal_strlit("+");
    let text = region_text(r);
    let a = decimal(r.width as nat).len() as int;
    let b = a + 1 + decimal(r.height as nat).len();
    let c = b + 1 + decimal(r.x as nat).len();
    law_decimal_reads_back(r.width as nat);
    law_decimal_reads_back(r.height as nat);
    law_decimal_reads_back(r.x as nat);
    law_decimal_reads_back(r.y as nat);
    assert(text.take(a) =~= decimal(r.width as nat));
    assert(text.subrange(a + 1, b) =~= decimal(r.height as nat));
    assert(text.subrange(b + 1, c) =~= decimal(r.x as nat));
    assert(text.skip(c + 1) =~= decimal(r.y as nat));
}

/// A monitor's line tells its index, its name, its region, and whether it is
/// the primary one.
pub proof fn law_monitor_lines_tell_monitors_apart(m: MonitorModel)
    requires
        0 <= m.index,
    ensures
        ({
            let line = monitor_line(m);
            let front = "  "@ + pad_end(decimal(m.index as nat), 3) + " "@ + pad_end(m.name, 12);
            let end = "  "@ + region_text(m.region) + "\n"@;
            &&& line.take(front.len() as int) == front
            &&& line.skip(line.len() - end.len()) == end
            &&& m.primary ==> line == front + " (primary)"@ + end
            &&& !m.primary ==> line == front + end
        }),
{
    reveal_strlit("");
    let line = monitor_line(m);
    let front = "  "@ + pad_end(decimal(m.index as nat), 3) + " "@ + pad_end(m.name, 12);
    let end = "  "@ + region_text(m.region) + "\n"@;
    assert(line.take(front.len() as int) =~= front);
    assert(line.skip(line.len() - end.len()) =~= end);
    if m.primary {
        assert(line =~= front + " (primary)"@ + end);
    } else {
        assert(line =~= front + end);
    }
}

/// A window's line tells its id as `--window` takes it, its class, its title,
/// and its region if that is known.
pub proof fn law_window_lines_tell_windows_apart(w: WindowModel)
    ensures
        ({
            let line = window_line(w);
            let id = window_id_text(w.xid);
            &&& line.subrange(2, 2int + id.len()) == id
            &&& window_id(id) == Some(w.xid as nat)
            &&& mentions(line, "  ["@ + w.class + "] "@ + w.title + "  "@)
            &&& w.region matches Some(r) ==> mentions(line, "  "@ + region_text(r) + "\n"@)
            &&& w.region is None ==> mentions(line, "  position/size unknown\n"@)
        }),
{
    law_listed_window_id_is_accepted(w.xid);
    let place = match w.region {
        Some(r) => region_text(r),
        None => "position/size unknown"@,
    };
    lemma_window_line(window_id_text(w.xid), w.class, w.title, place);
    if w.region is None {
        assert("  "@ + place + "\n"@ == "  position/size unknown\n"@) by {
            reveal_strlit("  ");
            reveal_strlit("position/size unknown");
            reveal_strlit("\n");
            reveal_strlit("  position/size unknown\n");
            assert("  "@ + place + "\n"@ =~= "  position/size unknown\n"@);
        }
    }
}

proof fn lemma_window_line(id: Seq<char>, class: Seq<char>, title: Seq<char>, place: Seq<char>)
    ensures
        ({
            let line = "  "@ + id + "  ["@ + class + "] "@ + title + "  "@ + place + "\n"@;
            &&& line.subrange(2, 2int + id.len()) == id
            &&& mentions(line, "  ["@ + class + "] "@ + title + "  "@)
            &&& mentions(line, "  "@ + place + "\n"@)
        }),
{
    let line = "  "@ + id + "  ["@ + class + "] "@ + title + "  "@ + place + "\n"@;
    let front = "  "@ + id;
    let middle = "  ["@ + class + "] "@ + title + "  "@;
    let end = place + "\n"@;
    assert(line =~= front + middle + end);
    lemma_mentions(front, middle, end);
    let before = "  "@ + id + "  ["@ + class + "] "@ + title;
    let last = "  "@ + place + "\n"@;
    assert(line =~= before + last + Seq::<char>::empty());
    lemma_mentions(before, last, seq![]);
    assert("  "@.len() == 2) by {
        reveal_strlit("  ");
    }
    assert(line.subrange(2, 2int + id.len()) =~= id);
}

proof fn lemma_monitor_line_is_there(monitors: Seq<MonitorModel>, i: int)
    requires
        0 <= i < monitors.len(),
    ensures
        mentions(monitor_lines(monitors), monitor_line(monitors[i])),
    decreases monitors.len(),
{
    let before = monitor_lines(monitors.drop_last());
    let last = monitor_line(monitors.last());
    if i == monitors.len() - 1 {
        assert(before + last =~= before + last + Seq::<char>::empty());
        lemma_mentions(before, last, seq![]);
    } else {
        lemma_monitor_line_is_there(monitors.drop_last(), i);
        assert(before + last =~= Seq::<char>::empty() + before + last);
        lemma_mentions_within(seq![], before, last, monitor_line(monitors[i]));
    }
}

proof fn lemma_window_line_is_there(windows: Seq<WindowModel>, i: int)
    requires
        0 <= i < windows.len(),
    ensures
        mentions(window_lines(windows), window_line(windows[i])),
    decreases windows.len(),
{
    let before = window_lines(windows.drop_last());
    let last = window_line(windows.last());
    if i == windows.len() - 1 {
        assert(before + last =~= before + last + Seq::<char>::empty());
        lemma_mentions(before, last, seq![]);
    } else {
        lemma_window_line_is_there(windows.drop_last(), i);
        assert(before + last =~= Seq::<char>::empty() + before + last);
        lemma_mentions_within(seq![], before, last, window_line(windows[i]));
    }
}

/// Every monitor that was listed has its line, and so has every window, if
/// those could be listed.
pub proof fn law_every_source_has_its_line(
    monitors: Vec<MonitorInfo>,
    windows: Result<Vec<WindowInfo>, String>,
    i: int,
)
    ensures
        0 <= i < monitors@.len() ==> mentions(
            listing_text(false, Ok(monitors), windows),
            monitor_line(monitors@[i]@),
        ),
        windows matches Ok(list) ==> (0 <= i < list@.len() ==> mentions(
            listing_text(false, Ok(monitors), windows),
            window_line(list@[i]@),
        )),
{
    let m = monitor_lines(monitor_models(monitors@));
    let w = windows_part(windows);
    let all = listing_text(false, Ok(monitors), windows);
    if 0 <= i < monitors@.len() {
        lemma_monitor_line_is_there(monitor_models(monitors@), i);
        assert(all =~= MONITORS_HEADING@ + m + (WINDOWS_HEADING@ + w));
        lemma_mentions_within(
            MONITORS_HEADING@,
            m,
            WINDOWS_HEADING@ + w,
            monitor_line(monitors@[i]@),
        );
    }
    if let Ok(list) = windows {
        if 0 <= i < list@.len() {
            lemma_window_line_is_there(window_models(list@), i);
            let front = MONITORS_HEADING@ + m + WINDOWS_HEADING@;
            assert(all =~= front + w + Seq::<char>::empty());
            lemma_mentions_within(front, w, seq![], window_line(list@[i]@));
        }
    }
}

/// The lines of monitors, and those of windows, stand in their order with
/// nothing between them.
pub proof fn law_lines_follow_each_other(
    monitors: Seq<MonitorModel>,
    m: MonitorModel,
    windows: Seq<WindowModel>,
    w: WindowModel,
)
    ensures
        monitor_lines(monitors.push(m)) == monitor_lines(monitors) + monitor_line(m),
        monitor_lines(Seq::<MonitorModel>::empty()).len() == 0,
        window_lines(windows.push(w)) == window_lines(windows) + window_line(w),
        window_lines(Seq::<WindowModel>::empty()).len() == 0,
{
    assert(monitors.push(m).drop_last() =~= monitors);
    assert(windows.push(w).drop_last() =~= windows);
}

/// The listing has the headings and the lines of monitors and windows, and
/// nothing besides. A session without windows says so; one where monitors
/// could not be listed stops behind their heading.
pub proof fn law_listing_is_headings_and_lines(
    monitors: Vec<MonitorInfo>,
    windows: Vec<WindowInfo>,
    reason: String,
    either: Result<Vec<WindowInfo>, String>,
)
    ensures
        windows@.len() > 0 ==> listing_text(false, Ok(monitors), Ok(windows)) == MONITORS_HEADING@
            + monitor_lines(monitor_models(monitors@)) + WINDOWS_HEADING@ + window_lines(
            window_models(windows@),
        ),
        windows@.len() == 0 ==> listing_text(false, Ok(monitors), Ok(windows)) == MONITORS_HEADING@
            + monitor_lines(monitor_models(monitors@)) + WINDOWS_HEADING@ + "  (none found)\n"@,
        listing_text(false, Ok(monitors), Err(reason)) == MONITORS_HEADING@ + monitor_lines(
            monitor_models(monitors@),
        ) + WINDOWS_HEADING@,
        listing_text(false, Err(reason), either) == MONITORS_HEADING@,
        listing_text(true, Ok(monitors), either) == WAYLAND_LISTING@,
        listing_text(true, Err(reason), either) == WAYLAND_LISTING@,
{
    let front = MONITORS_HEADING@ + monitor_lines(monitor_models(monitors@)) + WINDOWS_HEADING@;
    assert(front + Seq::<char>::empty() =~= front);
}

/// A window that is not there is named by its id in hexadecimal.
pub proof fn law_missing_windows_are_named(xid: u64)
    ensures
        mentions(
            CommandError::NoWindow(xid).text(),
            "no window with id 0x"@ + radix(xid as nat, 16) + " "@,
        ),
        positional(radix(xid as nat, 16), 16) == xid,
{
    reveal_strlit(" (see `list-sources`)");
    reveal_strlit(" ");
    lemma_radix_reads_back(xid as nat, 16);
    let part = "no window with id 0x"@ + radix(xid as nat, 16) + " "@;
    let after = " (see `list-sources`)"@.skip(1);
    assert(CommandError::NoWindow(xid).text() =~= Seq::<char>::empty() + part + after);
    lemma_mentions(seq![], part, after);
}

} // verus!
