//! Configuration.
use genesoxide::config::{
    ConfigFile, DesktopSection, GenesisConfig, RomTable,
};

#[test]
fn default_config() {
    let config = GenesisConfig::default();
    assert_eq!(config.desktop.window_scale, 3);
    assert!(!config.desktop.audio_enabled);
    assert_eq!(config.desktop.step_mode, "frame");
}

/// The string under a key of a table.
fn text(table: &toml::Table, key: &str) -> Option<String> {
    table.get(key).and_then(|v| v.as_str()).map(|s| s.to_string())
}

#[test]
fn parse_toml() {
    let source = r#"
        [desktop]
        rom_path = "sonic.bin"
        window_scale = 4
        audio_enabled = true

        [roms]
        sonic = "/path/to/sonic.bin"
    "#;
    let file: toml::Table = toml::from_str(source).unwrap();
    let desktop = file["desktop"].as_table().unwrap();
    let mut roms = RomTable::new();
    for (name, path) in file["roms"].as_table().unwrap() {
        roms.insert(name.clone(), path.as_str().unwrap().to_string());
    }
    let config = GenesisConfig::from_file(ConfigFile {
        desktop: Some(DesktopSection {
            rom_path: text(desktop, "rom_path"),
            window_scale: desktop
                .get("window_scale")
                .and_then(|v| v.as_integer())
                .map(|v| v as u32),
            audio_enabled: desktop.get("audio_enabled").and_then(|v| v.as_bool()),
            step_mode: text(desktop, "step_mode"),
        }),
        roms: Some(roms),
    });
    assert_eq!(config.desktop.window_scale, 4);
    assert!(config.desktop.audio_enabled);
    assert_eq!(config.desktop.rom_path, "sonic.bin");
    assert_eq!(config.desktop.step_mode, "frame");
    assert_eq!(config.roms.get("sonic").unwrap(), "/path/to/sonic.bin");
}

#[test]
fn resolve_named_rom() {
    let mut config = GenesisConfig::default();
    config.roms.insert("sonic".into(), "/roms/sonic.bin".into());

    assert_eq!(config.resolve_rom("sonic"), "/roms/sonic.bin");
    assert_eq!(config.resolve_rom("other.bin"), "other.bin");
}

/// A later entry replaces an earlier one of the same name.
#[test]
fn rom_names_are_unique() {
    let mut roms = RomTable::new();
    roms.insert("a".into(), "1".into());
    roms.insert("b".into(), "2".into());
    roms.insert("a".into(), "3".into());
    assert_eq!(roms.get("a").unwrap(), "3");
    assert_eq!(roms.get("b").unwrap(), "2");
    assert!(roms.get("c").is_none());
}

/// What a file leaves out takes its default.
#[test]
fn empty_file_gives_defaults() {
    let config = GenesisConfig::from_file(ConfigFile { desktop: None, roms: None });
    assert_eq!(config.desktop.window_scale, 3);
    assert_eq!(config.desktop.rom_path, "");
    assert!(config.roms.get("sonic").is_none());
    let section = DesktopSection {
        rom_path: None,
        window_scale: None,
        audio_enabled: None,
        step_mode: Some("cpu".into()),
    };
    let config = GenesisConfig::from_file(ConfigFile { desktop: Some(section), roms: None });
    assert_eq!(config.desktop.window_scale, 3);
    assert!(!config.desktop.audio_enabled);
    assert_eq!(config.desktop.step_mode, "cpu");
}

/// Where nothing could be loaded the defaults apply.
#[test]
fn load_or_default_falls_back() {
    let loaded = GenesisConfig::from_file(ConfigFile {
        desktop: Some(DesktopSection {
            rom_path: None,
            window_scale: Some(7),
            audio_enabled: None,
            step_mode: None,
        }),
        roms: None,
    });
    assert_eq!(GenesisConfig::load_or_default(Some(loaded)).desktop.window_scale, 7);
    assert_eq!(GenesisConfig::load_or_default(None).desktop.window_scale, 3);
}
