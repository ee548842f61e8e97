//! The settings that the graphical interface keeps from one launch to the
//! next.
use vstd::prelude::*;
use vstd::utf8::encode_utf8;
use crate::cli::{
    law_audio_spelling_names_the_mode, AudioMode, DEFAULT_BITRATE_KBPS, DEFAULT_FRAMERATE,
    DEFAULT_SPEED_PRESET,
};
use crate::outside::{from_utf8_lossy, lossy_text};
use crate::paths::{join, joined, law_joined_is_in_the_directory};

verus! {

/// The settings of the graphical interface. Neither a window nor the output
/// path is among them: window ids do not outlive a session, and a path that
/// came back could have an earlier recording overwritten.
#[derive(Debug, Clone, PartialEq)]
pub struct Settings {
    /// The monitor to capture; `None` is the full screen.
    pub source_monitor: Option<u32>,
    pub audio_mode: AudioMode,
    pub audio_device: Option<String>,
    pub framerate: u32,
    pub bitrate_kbps: u32,
    pub speed_preset: String,
}

/// What a settings file holds. Every field may be missing.
#[derive(Debug)]
pub struct StoredSettings {
    pub source_monitor: Option<u32>,
    pub audio_mode: Option<String>,
    pub audio_device: Option<String>,
    pub framerate: Option<u32>,
    pub bitrate_kbps: Option<u32>,
    pub speed_preset: Option<String>,
}

/// The model of `Settings`.
pub ghost struct SettingsModel {
    pub source_monitor: Option<u32>,
    pub audio_mode: AudioMode,
    pub audio_device: Option<Seq<char>>,
    pub framerate: u32,
    pub bitrate_kbps: u32,
    pub speed_preset: Seq<char>,
}

/// The model of `StoredSettings`.
pub ghost struct StoredModel {
    pub source_monitor: Option<u32>,
    pub audio_mode: Option<Seq<char>>,
    pub audio_device: Option<Seq<char>>,
    pub framerate: Option<u32>,
    pub bitrate_kbps: Option<u32>,
    pub speed_preset: Option<Seq<char>>,
}

/// The characters of a text that may be missing.
pub open spec fn text_of(s: Option<String>) -> Option<Seq<char>> {
    match s {
        Some(text) => Some(text@),
        None => None,
    }
}

impl View for Settings {
    type V = SettingsModel;

    open spec fn view(&self) -> SettingsModel {
        SettingsModel {
            source_monitor: self.source_monitor,
            audio_mode: self.audio_mode,
            audio_device: text_of(self.audio_device),
            framerate: self.framerate,
            bitrate_kbps: self.bitrate_kbps,
            speed_preset: self.speed_preset@,
        }
    }
}

impl View for StoredSettings {
    type V = StoredModel;

    open spec fn view(&self) -> StoredModel {
        StoredModel {
            source_monitor: self.source_monitor,
            audio_mode: text_of(self.audio_mode),
            audio_device: text_of(self.audio_device),
            framerate: self.framerate,
            bitrate_kbps: self.bitrate_kbps,
            speed_preset: text_of(self.speed_preset),
        }
    }
}

/// The settings of a fresh installation.
pub open spec fn default_settings() -> SettingsModel {
    SettingsModel {
        source_monitor: None,
        audio_mode: AudioMode::Off,
        audio_device: None,
        framerate: DEFAULT_FRAMERATE,
        bitrate_kbps: DEFAULT_BITRATE_KBPS,
        speed_preset: DEFAULT_SPEED_PRESET@,
    }
}

/// The settings that a file stands for: its own values, and the defaults
/// for those that are missing. A file with an audio mode that there is not
/// stands for none.
pub open spec fn restored(stored: StoredModel, settings: SettingsModel) -> bool {
    let d = default_settings();
    &&& settings.source_monitor == stored.source_monitor
    &&& match stored.audio_mode {
        Some(name) => name == settings.audio_mode.spelling(),
        None => settings.audio_mode == d.audio_mode,
    }
    &&& settings.audio_device == stored.audio_device
    &&& settings.framerate == stored.framerate.unwrap_or(d.framerate)
    &&& settings.bitrate_kbps == stored.bitrate_kbps.unwrap_or(d.bitrate_kbps)
    &&& settings.speed_preset == stored.speed_preset.unwrap_or(d.speed_preset)
}

/// Whether a file can stand for settings: it does not name an audio mode
/// that there is not.
pub open spec fn restorable(stored: StoredModel) -> bool {
    stored.audio_mode matches Some(name) ==> exists|m: AudioMode| name == #[trigger] m.spelling()
}

/// What is written to a file for settings.
pub open spec fn to_store(settings: SettingsModel) -> StoredModel {
    StoredModel {
        source_monitor: settings.source_monitor,
        audio_mode: Some(settings.audio_mode.spelling()),
        audio_device: settings.audio_device,
        framerate: Some(settings.framerate),
        bitrate_kbps: Some(settings.bitrate_kbps),
        speed_preset: Some(settings.speed_preset),
    }
}

impl Default for Settings {
    fn default() -> (settings: Self)
        ensures
            settings@ == default_settings(),
    {
        Settings {
            source_monitor: None,
            audio_mode: AudioMode::Off,
            audio_device: None,
            framerate: DEFAULT_FRAMERATE,
            bitrate_kbps: DEFAULT_BITRATE_KBPS,
            speed_preset: DEFAULT_SPEED_PRESET.to_owned(),
        }
    }
}

/// A copy of a text that may be missing.
pub fn copy_text(text: &Option<String>) -> (copy: Option<String>)
    ensures
        text_of(copy) == text_of(*text),
{
    match text {
        Some(t) => Some(t.clone()),
        None => None,
    }
}

impl StoredSettings {
    /// The settings that a file stands for.
    pub fn restore(&self) -> (settings: Option<Settings>)
        ensures
            match settings {
                Some(s) => restored(self@, s@),
                None => !restorable(self@),
            },
    {
        let audio_mode = match &self.audio_mode {
            Some(name) => match AudioMode::from_name(name.as_str()) {
                Some(mode) => mode,
                None => return None,
            },
            None => AudioMode::Off,
        };
        let speed_preset = match &self.speed_preset {
            Some(preset) => preset.clone(),
            None => DEFAULT_SPEED_PRESET.to_owned(),
        };
        Some(
            Settings {
                source_monitor: self.source_monitor,
                audio_mode,
                audio_device: copy_text(&self.audio_device),
                framerate: self.framerate.unwrap_or(DEFAULT_FRAMERATE),
                bitrate_kbps: self.bitrate_kbps.unwrap_or(DEFAULT_BITRATE_KBPS),
                speed_preset,
            },
        )
    }
}

impl Settings {
    /// What is written to a file for these settings.
    pub fn store(&self) -> (stored: StoredSettings)
        ensures
            stored@ == to_store(self@),
    {
        StoredSettings {
            source_monitor: self.source_monitor,
            audio_mode: Some(self.audio_mode.name().to_owned()),
            audio_device: copy_text(&self.audio_device),
            framerate: Some(self.framerate),
            bitrate_kbps: Some(self.bitrate_kbps),
            speed_preset: Some(self.speed_preset.clone()),
        }
    }
}

/// Settings come back from a file as they were written to it, and as no
/// others.
pub proof fn law_settings_come_back(written: SettingsModel, read: SettingsModel)
    ensures
        restorable(to_store(written)),
        restored(to_store(written), written),
        restored(to_store(written), read) ==> read == written,
{
    if restored(to_store(written), read) {
        law_audio_spelling_names_the_mode(written.audio_mode, read.audio_mode);
    }
}

/// The settings to start with, from what could be read: `None` where there
/// was no file, or none that could be made sense of. A broken file never
/// keeps the interface from starting.
pub fn load(stored: Option<StoredSettings>) -> (settings: Settings)
    ensures
        match stored {
            Some(s) => if restorable(s@) {
                restored(s@, settings@)
            } else {
                settings@ == default_settings()
            },
            None => settings@ == default_settings(),
        },
{
    match stored {
        Some(s) => match s.restore() {
            Some(settings) => {
                assert(s@.audio_mode matches Some(name) ==> name
                    == settings@.audio_mode.spelling());
                settings
            },
            None => Settings::default(),
        },
        None => Settings::default(),
    }
}

/// Whether a base directory counts. One that is empty or relative is to be
/// ignored, as if the variable were not set.
pub open spec fn is_base(xdg: Option<Seq<u8>>) -> bool {
    xdg matches Some(base) && base.len() > 0 && base[0] == 0x2f
}

/// The directory for settings files, from the values of `XDG_CONFIG_HOME`
/// and `HOME`.
pub open spec fn config_directory(xdg: Option<Seq<u8>>, home: Option<Seq<u8>>) -> Option<Seq<u8>> {
    let name = encode_utf8("desktoprecorder"@);
    if is_base(xdg) {
        Some(joined(xdg->0, name))
    } else {
        match home {
            Some(h) => Some(joined(joined(h, encode_utf8(".config"@)), name)),
            None => None,
        }
    }
}

/// The bytes of a value that may be missing.
pub open spec fn bytes_of(value: Option<&[u8]>) -> Option<Seq<u8>> {
    match value {
        Some(bytes) => Some(bytes@),
        None => None,
    }
}

/// The directory for settings files, from the values of `XDG_CONFIG_HOME`
/// and `HOME`.
pub fn config_dir(xdg: Option<&[u8]>, home: Option<&[u8]>) -> (directory: Option<Vec<u8>>)
    ensures
        match directory {
            Some(d) => config_directory(bytes_of(xdg), bytes_of(home)) == Some(d@),
            None => config_directory(bytes_of(xdg), bytes_of(home)) is None,
        },
{
    let name = "desktoprecorder".as_bytes();
    if let Some(base) = xdg {
        if base.len() > 0 && base[0] == 0x2f {
            return Some(join(base, name));
        }
    }
    match home {
        Some(h) => {
            let base = join(h, ".config".as_bytes());
            Some(join(base.as_slice(), name))
        },
        None => None,
    }
}

/// The settings file, from the values of `XDG_CONFIG_HOME` and `HOME`.
pub fn config_path(xdg: Option<&[u8]>, home: Option<&[u8]>) -> (path: Option<Vec<u8>>)
    ensures
        match path {
            Some(p) => config_directory(bytes_of(xdg), bytes_of(home)) matches Some(d) && p@
                == joined(d, encode_utf8("config.toml"@)),
            None => !is_base(bytes_of(xdg)) && home is None,
        },
{
    match config_dir(xdg, home) {
        Some(directory) => Some(join(directory.as_slice(), "config.toml".as_bytes())),
        None => None,
    }
}

/// Why settings cannot be saved.
#[derive(Debug, Clone, Copy, PartialEq, Eq, Structural)]
pub enum ConfigError {
    /// Neither variable is set to anything that counts.
    NoDirectory,
}

impl ConfigError {
    /// What to tell the user.
    pub fn message(&self) -> (message: &'static str)
        ensures
            message@ == "couldn't determine a config directory (no $XDG_CONFIG_HOME or $HOME set)"@,
    {
        "couldn't determine a config directory (no $XDG_CONFIG_HOME or $HOME set)"
    }
}

/// What to do to save settings: create the directory, then write the file.
/// Each comes with the message for when it fails.
#[derive(Debug)]
pub struct SavePlan {
    pub directory: Vec<u8>,
    pub directory_context: String,
    pub file: Vec<u8>,
    pub file_context: String,
    pub contents: StoredSettings,
}

/// How to save settings.
pub fn save(settings: &Settings, xdg: Option<&[u8]>, home: Option<&[u8]>) -> (plan: Result<
    SavePlan,
    ConfigError,
>)
    ensures
        match plan {
            Ok(p) => {
                &&& config_directory(bytes_of(xdg), bytes_of(home)) == Some(p.directory@)
                &&& p.directory_context@ == "failed to create '"@ + lossy_text(p.directory@) + "'"@
                &&& p.file@ == joined(p.directory@, encode_utf8("config.toml"@))
                &&& p.file_context@ == "failed to write '"@ + lossy_text(p.file@) + "'"@
                &&& p.contents@ == to_store(settings@)
            },
            Err(_) => !is_base(bytes_of(xdg)) && home is None,
        },
{
    let directory = match config_dir(xdg, home) {
        Some(directory) => directory,
        None => return Err(ConfigError::NoDirectory),
    };
    let file = join(directory.as_slice(), "config.toml".as_bytes());
    let mut directory_context = String::new();
    directory_context.append("failed to create '");
    directory_context.append(from_utf8_lossy(directory.as_slice()).as_str());
    directory_context.append("'");
    assert(directory_context@ =~= "failed to create '"@ + lossy_text(directory@) + "'"@);
    let mut file_context = String::new();
    file_context.append("failed to write '");
    file_context.append(from_utf8_lossy(file.as_slice()).as_str());
    file_context.append("'");
    assert(file_context@ =~= "failed to write '"@ + lossy_text(file@) + "'"@);
    Ok(SavePlan { directory, directory_context, file, file_context, contents: settings.store() })
}

/// The settings of a fresh installation: thirty frames a second at 8000
/// kbps with the preset veryfast, the full screen, and no sound.
pub proof fn law_fresh_settings()
    ensures
        default_settings().framerate == 30,
        default_settings().bitrate_kbps == 8000,
        default_settings().speed_preset == "veryfast"@,
        default_settings().audio_mode == AudioMode::Off,
        default_settings().audio_device is None,
        default_settings().source_monitor is None,
{
}

/// Whatever a file holds is taken as it stands, and what it does not hold is
/// as in a fresh installation.
pub proof fn law_stored_values_win(stored: StoredModel, settings: SettingsModel)
    requires
        restored(stored, settings),
    ensures
        settings.source_monitor == stored.source_monitor,
        settings.audio_device == stored.audio_device,
        stored.framerate matches Some(v) ==> settings.framerate == v,
        stored.framerate is None ==> settings.framerate == 30,
        stored.bitrate_kbps matches Some(v) ==> settings.bitrate_kbps == v,
        stored.bitrate_kbps is None ==> settings.bitrate_kbps == 8000,
        stored.speed_preset matches Some(v) ==> settings.speed_preset == v,
        stored.speed_preset is None ==> settings.speed_preset == "veryfast"@,
        stored.audio_mode is None ==> settings.audio_mode == AudioMode::Off,
        stored.audio_mode == Some("none"@) ==> settings.audio_mode == AudioMode::Off,
        stored.audio_mode == Some("mic"@) ==> settings.audio_mode == AudioMode::Mic,
        stored.audio_mode == Some("system"@) ==> settings.audio_mode == AudioMode::System,
        stored.audio_mode == Some("both"@) ==> settings.audio_mode == AudioMode::Both,
{
    law_fresh_settings();
    if stored.audio_mode == Some("none"@) {
        law_audio_spelling_names_the_mode(AudioMode::Off, settings.audio_mode);
    }
    if stored.audio_mode == Some("mic"@) {
        law_audio_spelling_names_the_mode(AudioMode::Mic, settings.audio_mode);
    }
    if stored.audio_mode == Some("system"@) {
        law_audio_spelling_names_the_mode(AudioMode::System, settings.audio_mode);
    }
    if stored.audio_mode == Some("both"@) {
        law_audio_spelling_names_the_mode(AudioMode::Both, settings.audio_mode);
    }
}

/// The only thing in a file that cannot be made sense of is an audio mode
/// that there is not.
pub proof fn law_files_fail_on_the_audio_mode_alone(stored: StoredModel)
    ensures
        restorable(stored) <==> stored.audio_mode is None || stored.audio_mode == Some("none"@)
            || stored.audio_mode == Some("mic"@) || stored.audio_mode == Some("system"@)
            || stored.audio_mode == Some("both"@),
{
    assert(AudioMode::Off.spelling() == "none"@);
    assert(AudioMode::Mic.spelling() == "mic"@);
    assert(AudioMode::System.spelling() == "system"@);
    assert(AudioMode::Both.spelling() == "both"@);
}

/// Settings are written out in full, the audio mode by its name.
pub proof fn law_settings_are_written_in_full(settings: SettingsModel)
    ensures
        to_store(settings).source_monitor == settings.source_monitor,
        to_store(settings).audio_device == settings.audio_device,
        to_store(settings).framerate == Some(settings.framerate),
        to_store(settings).bitrate_kbps == Some(settings.bitrate_kbps),
        to_store(settings).speed_preset == Some(settings.speed_preset),
        settings.audio_mode == AudioMode::Off ==> to_store(settings).audio_mode == Some("none"@),
        settings.audio_mode == AudioMode::Mic ==> to_store(settings).audio_mode == Some("mic"@),
        settings.audio_mode == AudioMode::System ==> to_store(settings).audio_mode == Some(
            "system"@,
        ),
        settings.audio_mode == AudioMode::Both ==> to_store(settings).audio_mode == Some("both"@),
{
}

/// An absolute `XDG_CONFIG_HOME` is where the recorder's own directory is,
/// wherever the home directory is.
pub proof fn law_absolute_base_directory_wins(base: Seq<u8>, home: Option<Seq<u8>>)
    requires
        base.len() > 0 && base[0] == 0x2f,
    ensures
        ({
            let name = encode_utf8("desktoprecorder"@);
            config_directory(Some(base), home) matches Some(d) && d.take(base.len() as int) == base
                && d.skip(d.len() - name.len()) == name && d.len() == base.len() + name.len() + (
            if base.last() == 0x2f {
                0int
            } else {
                1int
            }) && (base.last() != 0x2f ==> d[base.len() as int] == 0x2f)
        }),
{
    law_joined_is_in_the_directory(base, encode_utf8("desktoprecorder"@));
}

/// Without an absolute `XDG_CONFIG_HOME` the recorder's directory is under
/// `.config` in the home directory; without a home directory either there is
/// none.
pub proof fn law_home_directory_stands_in(xdg: Option<Seq<u8>>, home: Seq<u8>)
    requires
        xdg matches Some(base) ==> base.len() == 0 || base[0] != 0x2f,
    ensures
        config_directory(xdg, None) is None,
        config_directory(xdg, Some(home)) == config_directory(None, Some(home)),
        ({
            let dot_config = encode_utf8(".config"@);
            let name = encode_utf8("desktoprecorder"@);
            config_directory(xdg, Some(home)) matches Some(d) && d.take(home.len() as int) == home
                && d == joined(joined(home, dot_config), name)
        }),
{
    let dot_config = encode_utf8(".config"@);
    let name = encode_utf8("desktoprecorder"@);
    law_joined_is_in_the_directory(home, dot_config);
    let c = joined(home, dot_config);
    law_joined_is_in_the_directory(c, name);
    assert(joined(c, name).take(home.len() as int) =~= c.take(home.len() as int));
}

/// Only an absolute path counts as a base directory.
pub proof fn law_only_absolute_base_directories_count(xdg: Option<Seq<u8>>)
    ensures
        is_base(xdg) <==> (xdg matches Some(base) && base.len() > 0 && base[0] == 0x2f),
{
}

/// The bytes of a value are what they are.
pub proof fn law_values_are_their_bytes(value: Option<&[u8]>)
    ensures
        value matches Some(bytes) ==> bytes_of(value) == Some(bytes@),
        value is None ==> bytes_of(value) is None,
{
}

} // verus!
