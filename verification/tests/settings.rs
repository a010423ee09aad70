use own_view::config::{load_config, AppConfig, LoadEvent, LoadStep};
use own_view::places::{
    app_dir, autostart_dir, config_file, desktop_file, log_file, Base, Location, LogPath,
};

fn place(base: Base, names: &[&str]) -> Location {
    Location { base, names: names.iter().map(|name| name.to_string()).collect() }
}

#[test]
fn default_settings() {
    let config = AppConfig::default();
    assert_eq!(config.hotkey, "ctrl+alt+p");
    assert_eq!(config.blur_radius, 25);
    assert_eq!(config.spotlight_radius, 150);
    assert_eq!(config.mode, "spotlight");
    assert!(!config.auto_start);
    assert_eq!(config.overlay_opacity, 0.88f64.to_string());
    assert_eq!(config.clone(), config);
}

#[test]
fn files_lie_in_the_configuration_directory() {
    assert_eq!(app_dir(true), place(Base::ConfigDir, &["own-view"]));
    assert_eq!(log_file(true), place(Base::ConfigDir, &["own-view", "own-view.log"]));
    assert_eq!(config_file(true), place(Base::ConfigDir, &["own-view", "config.json"]));
    assert_eq!(autostart_dir(), place(Base::ConfigDir, &["autostart"]));
    assert_eq!(desktop_file(), place(Base::ConfigDir, &["autostart", "own-view.desktop"]));
    assert_eq!(desktop_file().clone(), desktop_file());
}

#[test]
fn files_lie_in_the_current_directory_where_there_is_no_other() {
    assert_eq!(app_dir(false), place(Base::CurrentDir, &["own-view"]));
    assert_eq!(log_file(false), place(Base::CurrentDir, &["own-view", "own-view.log"]));
    assert_eq!(config_file(false), place(Base::CurrentDir, &["own-view", "config.json"]));
}

struct Disk {
    text: Option<String>,
    readable: bool,
    parsed: Option<AppConfig>,
    saved: Option<AppConfig>,
}

fn load(disk: &mut Disk) -> AppConfig {
    let (config, place) = load_with_place(disk);
    assert_eq!(place, config_file(true));
    config
}

fn load_with_place(disk: &mut Disk) -> (AppConfig, Location) {
    let mut event = LoadEvent::Started;
    for _ in 0..5 {
        event = match load_config(true, event) {
            LoadStep::CreateDir(dir) => {
                assert_eq!(dir, app_dir(true));
                LoadEvent::DirCreated
            }
            LoadStep::CheckFile(file) => {
                assert_eq!(file, config_file(true));
                LoadEvent::FileChecked(disk.text.is_some())
            }
            LoadStep::ReadFile(file) => {
                assert_eq!(file, config_file(true));
                LoadEvent::FileRead(if disk.readable { disk.text.clone() } else { None })
            }
            LoadStep::ParseText(text) => {
                assert_eq!(Some(text), disk.text);
                LoadEvent::TextParsed(disk.parsed.clone())
            }
            LoadStep::SaveAndUse(file, config) => {
                assert_eq!(file, config_file(true));
                disk.saved = Some(config.clone());
                disk.text = Some("saved".to_string());
                disk.parsed = Some(config.clone());
                return (config, file);
            }
            LoadStep::Use(file, config) => return (config, file),
        };
    }
    panic!("loading did not end");
}

fn custom() -> AppConfig {
    AppConfig {
        hotkey: "alt+o".to_string(),
        blur_radius: 1,
        spotlight_radius: 2,
        mode: "full".to_string(),
        auto_start: true,
        overlay_opacity: "1".to_string(),
    }
}

#[test]
fn first_start_saves_the_default_settings() {
    let mut disk = Disk { text: None, readable: true, parsed: None, saved: None };
    assert_eq!(load(&mut disk), AppConfig::default());
    assert_eq!(disk.saved, Some(AppConfig::default()));
}

#[test]
fn stored_settings_are_loaded() {
    let mut disk = Disk {
        text: Some("{}".to_string()),
        readable: true,
        parsed: Some(custom()),
        saved: None,
    };
    assert_eq!(load(&mut disk), custom());
    assert_eq!(disk.saved, None);
}

#[test]
fn unreadable_file_gives_the_default_settings_and_is_kept() {
    let mut disk = Disk {
        text: Some("{}".to_string()),
        readable: false,
        parsed: Some(custom()),
        saved: None,
    };
    assert_eq!(load(&mut disk), AppConfig::default());
    assert_eq!(disk.saved, None);
}

#[test]
fn malformed_file_gives_the_default_settings_and_is_kept() {
    let mut disk =
        Disk { text: Some("{".to_string()), readable: true, parsed: None, saved: None };
    assert_eq!(load(&mut disk), AppConfig::default());
    assert_eq!(disk.saved, None);
}

#[test]
fn loading_twice_gives_the_same() {
    let mut disk = Disk { text: None, readable: true, parsed: None, saved: None };
    let first = load_with_place(&mut disk);
    disk.saved = None;
    assert_eq!(load_with_place(&mut disk), first);
    assert_eq!(disk.saved, None);
}

#[test]
fn first_log_file_is_kept() {
    let mut path = LogPath::new();
    let first = path.init_log_path(false);
    assert_eq!(first.file, log_file(false));
    assert_eq!(first.create_dir, Some(app_dir(false)));
    for known in vec![true, false, true] {
        let later = path.init_log_path(known);
        assert_eq!(later.file, log_file(false));
        assert_eq!(later.create_dir, None);
    }
    assert_eq!(LogPath::new().init_log_path(true).file, log_file(true));
}
