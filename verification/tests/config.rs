use desktoprecorder::cli::AudioMode;
use desktoprecorder::config::{config_path, load, save, Settings, StoredSettings};

fn sample() -> Settings {
    Settings {
        source_monitor: Some(1),
        audio_mode: AudioMode::Both,
        audio_device: Some("alsa_input.foo".to_string()),
        framerate: 60,
        bitrate_kbps: 12_000,
        speed_preset: "fast".to_string(),
    }
}

fn to_toml(stored: &StoredSettings) -> String {
    let mut table = toml::Table::new();
    let mut number = |name: &str, value: Option<u32>| {
        if let Some(n) = value {
            table.insert(name.to_string(), toml::Value::Integer(i64::from(n)));
        }
    };
    number("source_monitor", stored.source_monitor);
    number("framerate", stored.framerate);
    number("bitrate_kbps", stored.bitrate_kbps);
    let mut text = |name: &str, value: &Option<String>| {
        if let Some(s) = value {
            table.insert(name.to_string(), toml::Value::String(s.clone()));
        }
    };
    text("audio_mode", &stored.audio_mode);
    text("audio_device", &stored.audio_device);
    text("speed_preset", &stored.speed_preset);
    toml::to_string_pretty(&table).unwrap()
}

fn from_toml(text: &str) -> Result<StoredSettings, toml::de::Error> {
    let table: toml::Table = toml::from_str(text)?;
    let number = |name: &str| table.get(name).and_then(|v| v.as_integer()).map(|n| n as u32);
    let text = |name: &str| table.get(name).and_then(|v| v.as_str()).map(str::to_string);
    Ok(StoredSettings {
        source_monitor: number("source_monitor"),
        audio_mode: text("audio_mode"),
        audio_device: text("audio_device"),
        framerate: number("framerate"),
        bitrate_kbps: number("bitrate_kbps"),
        speed_preset: text("speed_preset"),
    })
}

#[test]
fn round_trips_through_toml() {
    let settings = sample();
    let text = to_toml(&settings.store());
    let parsed = from_toml(&text).unwrap().restore().unwrap();
    assert_eq!(parsed, settings);
}

#[test]
fn lowercase_enum_value_matches_cli_flag_spelling() {
    let text = to_toml(&sample().store());
    assert!(text.contains("audio_mode = \"both\""));
}

#[test]
fn missing_fields_fall_back_to_per_field_defaults() {
    let parsed = from_toml("framerate = 60\n").unwrap().restore().unwrap();
    assert_eq!(parsed.framerate, 60);
    assert_eq!(parsed.audio_mode, Settings::default().audio_mode);
    assert_eq!(parsed.bitrate_kbps, Settings::default().bitrate_kbps);
    assert_eq!(parsed.source_monitor, Settings::default().source_monitor);
}

#[test]
fn corrupt_toml_fails_to_parse_so_load_can_fall_back() {
    let result = from_toml("not valid toml {{{");
    assert!(result.is_err());
    assert_eq!(load(result.ok()), Settings::default());
}

#[test]
fn config_path_is_none_without_any_resolvable_base() {
    let path = config_path(None, None);
    assert!(path.is_none());
}

#[test]
fn config_path_prefers_the_xdg_directory() {
    assert_eq!(config_path(Some(b"/xdg"), Some(b"/home/me")).unwrap(), b"/xdg/desktoprecorder/config.toml");
    assert_eq!(config_path(None, Some(b"/home/me/")).unwrap(), b"/home/me/.config/desktoprecorder/config.toml");
    assert_eq!(config_path(Some(b"/"), None).unwrap(), b"/desktoprecorder/config.toml");
}

#[test]
fn an_empty_or_relative_xdg_directory_counts_as_unset() {
    for xdg in [&b""[..], b"relative", b"./here", b"~/.config"] {
        assert_eq!(config_path(Some(xdg), Some(b"/home/u")).unwrap(), b"/home/u/.config/desktoprecorder/config.toml");
        assert!(config_path(Some(xdg), None).is_none());
        assert!(save(&sample(), Some(xdg), None).is_err());
    }
}

#[test]
fn an_unknown_audio_mode_spoils_the_whole_file() {
    let mut stored = sample().store();
    stored.audio_mode = Some("loud".to_string());
    assert!(stored.restore().is_none());
    assert_eq!(load(Some(stored)), Settings::default());
}

#[test]
fn loading_nothing_gives_the_defaults() {
    let settings = load(None);
    assert_eq!(settings.source_monitor, None);
    assert_eq!(settings.audio_mode, AudioMode::Off);
    assert_eq!(settings.audio_device, None);
    assert_eq!(settings.framerate, 30);
    assert_eq!(settings.bitrate_kbps, 8000);
    assert_eq!(settings.speed_preset, "veryfast");
    assert_eq!(load(Some(sample().store())), sample());
}

#[test]
fn saving_needs_a_directory() {
    let plan = save(&sample(), None, Some(b"/home/me")).unwrap();
    assert_eq!(plan.directory, b"/home/me/.config/desktoprecorder");
    assert_eq!(plan.directory_context, "failed to create '/home/me/.config/desktoprecorder'");
    assert_eq!(plan.file, b"/home/me/.config/desktoprecorder/config.toml");
    assert_eq!(plan.file_context, "failed to write '/home/me/.config/desktoprecorder/config.toml'");
    assert_eq!(plan.contents.audio_mode.as_deref(), Some("both"));
    assert_eq!(
        save(&sample(), None, None).unwrap_err().message(),
        "couldn't determine a config directory (no $XDG_CONFIG_HOME or $HOME set)"
    );
    // Bytes that are no text do not stand in the way.
    let odd = save(&sample(), Some(b"/x\xff"), None).unwrap();
    assert_eq!(odd.directory_context, "failed to create '/x\u{fffd}/desktoprecorder'");
}
