//! The user's settings, and how they are loaded.

use vstd::prelude::*;

use crate::places::{app_dir, app_dir_at, config_file, config_file_at, Location, LocationView};

verus! {

/// The user's settings.
#[derive(Debug, PartialEq, Eq)]
pub struct AppConfig {
    pub hotkey: String,
    pub blur_radius: u32,
    pub spotlight_radius: u32,
    pub mode: String,
    pub auto_start: bool,
    /// The opacity as a decimal number, the way pages and scripts write it.
    pub overlay_opacity: String,
}

/// Settings with their texts taken by their characters.
pub struct ConfigView {
    pub hotkey: Seq<char>,
    pub blur_radius: u32,
    pub spotlight_radius: u32,
    pub mode: Seq<char>,
    pub auto_start: bool,
    pub overlay_opacity: Seq<char>,
}

impl View for AppConfig {
    type V = ConfigView;

    open spec fn view(&self) -> ConfigView {
        ConfigView {
            hotkey: self.hotkey@,
            blur_radius: self.blur_radius,
            spotlight_radius: self.spotlight_radius,
            mode: self.mode@,
            auto_start: self.auto_start,
            overlay_opacity: self.overlay_opacity@,
        }
    }
}

impl ConfigView {
    /// The same settings with another mode.
    pub open spec fn with_mode(self, mode: Seq<char>) -> ConfigView {
        ConfigView { mode, ..self }
    }
}

/// The settings of a first start.
pub open spec fn default_config() -> ConfigView {
    ConfigView {
        hotkey: "ctrl+alt+p"@,
        blur_radius: 25,
        spotlight_radius: 150,
        mode: "spotlight"@,
        auto_start: false,
        overlay_opacity: "0.88"@,
    }
}

impl Default for AppConfig {
    fn default() -> (config: Self)
        ensures
            config@ == default_config(),
    {
        AppConfig {
            hotkey: "ctrl+alt+p".to_owned(),
            blur_radius: 25,
            spotlight_radius: 150,
            mode: "spotlight".to_owned(),
            auto_start: false,
            overlay_opacity: "0.88".to_owned(),
        }
    }
}

impl Clone for AppConfig {
    fn clone(&self) -> (copy: Self)
        ensures
            copy@ == self@,
    {
        AppConfig {
            hotkey: self.hotkey.clone(),
            blur_radius: self.blur_radius,
            spotlight_radius: self.spotlight_radius,
            mode: self.mode.clone(),
            auto_start: self.auto_start,
            overlay_opacity: self.overlay_opacity.clone(),
        }
    }
}

/// What has happened so far while the settings are loaded.
pub enum LoadEvent {
    /// Loading begins.
    Started,
    /// The application's directory was created, or that failed.
    DirCreated,
    /// It was looked up whether the configuration file exists.
    FileChecked(bool),
    /// The file was read; `None` where that failed.
    FileRead(Option<String>),
    /// The file's text was parsed; `None` where it holds no settings.
    TextParsed(Option<AppConfig>),
}

/// What to do next while the settings are loaded.
pub enum LoadStep {
    /// Create the application's directory, with its parents.
    CreateDir(Location),
    /// Look up whether the configuration file exists.
    CheckFile(Location),
    /// Read the configuration file.
    ReadFile(Location),
    /// Parse this text as settings.
    ParseText(String),
    /// Write these settings to this file where that is possible, and start with
    /// them; they are stored there from now on.
    SaveAndUse(Location, AppConfig),
    /// Start with these settings; they are stored in this file from now on.
    Use(Location, AppConfig),
}

/// A loading event with its contents taken by their views.
pub enum LoadEventView {
    Started,
    DirCreated,
    FileChecked(bool),
    FileRead(Option<Seq<char>>),
    TextParsed(Option<ConfigView>),
}

/// A loading step with its contents taken by their views.
pub enum LoadStepView {
    CreateDir(LocationView),
    CheckFile(LocationView),
    ReadFile(LocationView),
    ParseText(Seq<char>),
    SaveAndUse(LocationView, ConfigView),
    Use(LocationView, ConfigView),
}

impl View for LoadEvent {
    type V = LoadEventView;

    open spec fn view(&self) -> LoadEventView {
        match self {
            LoadEvent::Started => LoadEventView::Started,
            LoadEvent::DirCreated => LoadEventView::DirCreated,
            LoadEvent::FileChecked(exists) => LoadEventView::FileChecked(*exists),
            LoadEvent::FileRead(Some(text)) => LoadEventView::FileRead(Some(text@)),
            LoadEvent::FileRead(None) => LoadEventView::FileRead(None),
            LoadEvent::TextParsed(Some(config)) => LoadEventView::TextParsed(Some(config@)),
            LoadEvent::TextParsed(None) => LoadEventView::TextParsed(None),
        }
    }
}

impl View for LoadStep {
    type V = LoadStepView;

    open spec fn view(&self) -> LoadStepView {
        match self {
            LoadStep::CreateDir(place) => LoadStepView::CreateDir(place@),
            LoadStep::CheckFile(place) => LoadStepView::CheckFile(place@),
            LoadStep::ReadFile(place) => LoadStepView::ReadFile(place@),
            LoadStep::ParseText(text) => LoadStepView::ParseText(text@),
            LoadStep::SaveAndUse(place, config) => LoadStepView::SaveAndUse(place@, config@),
            LoadStep::Use(place, config) => LoadStepView::Use(place@, config@),
        }
    }
}

/// What follows each event: the file is read and parsed where it exists, the
/// default settings take the place of what cannot be read or parsed, and a
/// file that does not exist is written with them. Whichever step is the last, it
/// names the configuration file as the place of the settings.
pub open spec fn load_step(config_dir_known: bool, event: LoadEventView) -> LoadStepView {
    match event {
        LoadEventView::Started => LoadStepView::CreateDir(app_dir_at(config_dir_known)),
        LoadEventView::DirCreated => LoadStepView::CheckFile(config_file_at(config_dir_known)),
        LoadEventView::FileChecked(true) => LoadStepView::ReadFile(
            config_file_at(config_dir_known),
        ),
        LoadEventView::FileChecked(false) => LoadStepView::SaveAndUse(
            config_file_at(config_dir_known),
            default_config(),
        ),
        LoadEventView::FileRead(Some(text)) => LoadStepView::ParseText(text),
        LoadEventView::TextParsed(Some(config)) => LoadStepView::Use(
            config_file_at(config_dir_known),
            config,
        ),
        LoadEventView::FileRead(None) | LoadEventView::TextParsed(None) => LoadStepView::Use(
            config_file_at(config_dir_known),
            default_config(),
        ),
    }
}

/// Decides the next step of loading the settings.
pub fn load_config(config_dir_known: bool, event: LoadEvent) -> (step: LoadStep)
    ensures
        step@ == load_step(config_dir_known, event@),
{
    match event {
        LoadEvent::Started => LoadStep::CreateDir(app_dir(config_dir_known)),
        LoadEvent::DirCreated => LoadStep::CheckFile(config_file(config_dir_known)),
        LoadEvent::FileChecked(exists) => if exists {
            LoadStep::ReadFile(config_file(config_dir_known))
        } else {
            LoadStep::SaveAndUse(config_file(config_dir_known), AppConfig::default())
        },
        LoadEvent::FileRead(Some(text)) => LoadStep::ParseText(text),
        LoadEvent::FileRead(None) => LoadStep::Use(
            config_file(config_dir_known),
            AppConfig::default(),
        ),
        LoadEvent::TextParsed(Some(config)) => LoadStep::Use(config_file(config_dir_known), config),
        LoadEvent::TextParsed(None) => LoadStep::Use(
            config_file(config_dir_known),
            AppConfig::default(),
        ),
    }
}

/// What loading finds: whether the configuration file exists, its text where it
/// can be read, and what each text parses to.
pub struct Found {
    pub exists: bool,
    pub text: Option<Seq<char>>,
    pub parse: spec_fn(Seq<char>) -> Option<ConfigView>,
}

/// What is found by carrying out a step that is not the last. A place other than that
/// of the configuration file holds nothing, and a text parses to what its own
/// characters say.
pub open spec fn load_reply(
    config_dir_known: bool,
    found: Found,
    step: LoadStepView,
) -> LoadEventView {
    match step {
        LoadStepView::CheckFile(place) => LoadEventView::FileChecked(
            found.exists && place == config_file_at(config_dir_known),
        ),
        LoadStepView::ReadFile(place) => LoadEventView::FileRead(
            if place == config_file_at(config_dir_known) {
                found.text
            } else {
                None
            },
        ),
        LoadStepView::ParseText(text) => LoadEventView::TextParsed((found.parse)(text)),
        _ => LoadEventView::DirCreated,
    }
}

/// Whether loading is over.
pub open spec fn is_last(step: LoadStepView) -> bool {
    step is Use || step is SaveAndUse
}

/// The step that loading has reached after at most `turns` more turns.
pub open spec fn load_run(
    config_dir_known: bool,
    found: Found,
    event: LoadEventView,
    turns: nat,
) -> LoadStepView
    decreases turns,
{
    let step = load_step(config_dir_known, event);
    if is_last(step) || turns == 0 {
        step
    } else {
        load_run(
            config_dir_known,
            found,
            load_reply(config_dir_known, found, step),
            (turns - 1) as nat,
        )
    }
}

/// The settings that a last step starts with, and the file they are stored in.
pub open spec fn loaded(step: LoadStepView) -> Option<(ConfigView, LocationView)> {
    match step {
        LoadStepView::SaveAndUse(place, config) => Some((config, place)),
        LoadStepView::Use(place, config) => Some((config, place)),
        _ => None,
    }
}

/// Loading always ends, after at most four turns: with the settings of the file
/// where it holds some, and else with the default ones. These are saved only where
/// there was no file, so loading never overwrites one. The settings are stored in
/// the configuration file in every case.
pub proof fn law_loading_ends(config_dir_known: bool, found: Found)
    ensures
        ({
            let path = config_file_at(config_dir_known);
            let last = load_run(config_dir_known, found, LoadEventView::Started, 4);
            let config = if found.exists && found.text is Some && (found.parse)(
                found.text->0,
            ) is Some {
                (found.parse)(found.text->0)->0
            } else {
                default_config()
            };
            &&& loaded(last) == Some((config, path))
            &&& last == (if found.exists {
                LoadStepView::Use(path, config)
            } else {
                LoadStepView::SaveAndUse(path, config)
            })
        }),
{
    reveal_with_fuel(load_run, 5);
}

/// The place of the configuration file: its text, if it exists, and whether it can
/// be read and written.
pub struct Disk {
    pub text: Option<Seq<char>>,
    pub readable: bool,
    pub writable: bool,
}

/// What loading finds on a disk.
pub open spec fn found_on(disk: Disk, parse: spec_fn(Seq<char>) -> Option<ConfigView>) -> Found {
    Found {
        exists: disk.text is Some,
        text: if disk.readable {
            disk.text
        } else {
            None
        },
        parse,
    }
}

/// The last step of loading from a disk.
pub open spec fn load_from(
    config_dir_known: bool,
    disk: Disk,
    parse: spec_fn(Seq<char>) -> Option<ConfigView>,
) -> LoadStepView {
    load_run(config_dir_known, found_on(disk, parse), LoadEventView::Started, 4)
}

/// The disk after the last step of loading.
pub open spec fn disk_after(
    disk: Disk,
    step: LoadStepView,
    write: spec_fn(ConfigView) -> Seq<char>,
) -> Disk {
    match step {
        LoadStepView::SaveAndUse(_, config) => if disk.writable {
            Disk { text: Some(write(config)), ..disk }
        } else {
            disk
        },
        _ => disk,
    }
}

/// Settings that were written to the file are the settings of the next start, for
/// every way of writing that parsing undoes.
pub proof fn law_saved_settings_are_loaded(
    config_dir_known: bool,
    config: ConfigView,
    disk: Disk,
    write: spec_fn(ConfigView) -> Seq<char>,
    parse: spec_fn(Seq<char>) -> Option<ConfigView>,
)
    requires
        parse(write(config)) == Some(config),
        disk.text == Some(write(config)),
        disk.readable,
    ensures
        load_from(config_dir_known, disk, parse) == LoadStepView::Use(
            config_file_at(config_dir_known),
            config,
        ),
{
    law_loading_ends(config_dir_known, found_on(disk, parse));
}

/// Loading twice gives the same settings and the same place, and leaves a file that
/// is there after the first time as it is; whatever the disk holds and allows, as
/// long as parsing undoes the writing of the default settings.
pub proof fn law_loading_twice_changes_nothing(
    config_dir_known: bool,
    disk: Disk,
    write: spec_fn(ConfigView) -> Seq<char>,
    parse: spec_fn(Seq<char>) -> Option<ConfigView>,
)
    requires
        parse(write(default_config())) == Some(default_config()),
    ensures
        ({
            let first = load_from(config_dir_known, disk, parse);
            let between = disk_after(disk, first, write);
            let second = load_from(config_dir_known, between, parse);
            &&& loaded(second) == loaded(first)
            &&& disk.text is Some ==> between == disk
            &&& between.text is Some ==> disk_after(between, second, write) == between
        }),
{
    law_loading_ends(config_dir_known, found_on(disk, parse));
    let between = disk_after(disk, load_from(config_dir_known, disk, parse), write);
    law_loading_ends(config_dir_known, found_on(between, parse));
}

/// What was read is what is parsed, to the last character, and what was parsed is what
/// is used, setting by setting.
pub proof fn law_text_and_settings_are_handed_on(
    config_dir_known: bool,
    text: Seq<char>,
    config: ConfigView,
)
    ensures
        load_step(config_dir_known, LoadEventView::FileRead(Some(text)))
            == LoadStepView::ParseText(text),
        load_step(config_dir_known, LoadEventView::TextParsed(Some(config))) == LoadStepView::Use(
            config_file_at(config_dir_known),
            config,
        ),
{
}

/// Different texts are parsed differently: the step that parses tells any two texts
/// apart, however late they differ.
pub proof fn law_parsing_tells_texts_apart(config_dir_known: bool, a: Seq<char>, b: Seq<char>)
    requires
        load_step(config_dir_known, LoadEventView::FileRead(Some(a))) == load_step(
            config_dir_known,
            LoadEventView::FileRead(Some(b)),
        ),
    ensures
        a == b,
{
    law_text_and_settings_are_handed_on(config_dir_known, a, default_config());
    law_text_and_settings_are_handed_on(config_dir_known, b, default_config());
}

/// Whatever a readable file holds, its whole text decides the settings of the start:
/// those that it parses to, or the default ones where it parses to none. The file is
/// not written.
pub proof fn law_file_text_decides(
    config_dir_known: bool,
    text: Seq<char>,
    writable: bool,
    parse: spec_fn(Seq<char>) -> Option<ConfigView>,
)
    ensures
        ({
            let disk = Disk { text: Some(text), readable: true, writable };
            load_from(config_dir_known, disk, parse) == LoadStepView::Use(
                config_file_at(config_dir_known),
                match parse(text) {
                    Some(config) => config,
                    None => default_config(),
                },
            )
        }),
{
    let disk = Disk { text: Some(text), readable: true, writable };
    law_loading_ends(config_dir_known, found_on(disk, parse));
}

/// The application's directory is created first, then the configuration file is looked
/// up, and it is read just if it exists. Without a file, and with one that cannot be read
/// or parsed, the default settings are used; only in the first case they are saved.
pub proof fn law_order_of_loading(config_dir_known: bool)
    ensures
        load_step(config_dir_known, LoadEventView::Started) == LoadStepView::CreateDir(
            app_dir_at(config_dir_known),
        ),
        load_step(config_dir_known, LoadEventView::DirCreated) == LoadStepView::CheckFile(
            config_file_at(config_dir_known),
        ),
        load_step(config_dir_known, LoadEventView::FileChecked(true)) == LoadStepView::ReadFile(
            config_file_at(config_dir_known),
        ),
        load_step(config_dir_known, LoadEventView::FileChecked(false))
            == LoadStepView::SaveAndUse(config_file_at(config_dir_known), default_config()),
        load_step(config_dir_known, LoadEventView::FileRead(None)) == LoadStepView::Use(
            config_file_at(config_dir_known),
            default_config(),
        ),
        load_step(config_dir_known, LoadEventView::TextParsed(None)) == LoadStepView::Use(
            config_file_at(config_dir_known),
            default_config(),
        ),
{
}

/// Replacing the mode replaces it by the text given, and nothing else.
pub proof fn law_only_the_mode_is_replaced(config: ConfigView, mode: Seq<char>)
    ensures
        config.with_mode(mode).mode == mode,
        config.with_mode(mode).hotkey == config.hotkey,
        config.with_mode(mode).blur_radius == config.blur_radius,
        config.with_mode(mode).spotlight_radius == config.spotlight_radius,
        config.with_mode(mode).auto_start == config.auto_start,
        config.with_mode(mode).overlay_opacity == config.overlay_opacity,
{
}

/// Nothing of the settings is lost or moved in their view.
pub proof fn law_settings_view_keeps_each_setting(config: AppConfig)
    ensures
        config@.hotkey == config.hotkey@,
        config@.blur_radius == config.blur_radius,
        config@.spotlight_radius == config.spotlight_radius,
        config@.mode == config.mode@,
        config@.auto_start == config.auto_start,
        config@.overlay_opacity == config.overlay_opacity@,
{
}

/// Nothing of a loading event or step is lost or moved in its view.
pub proof fn law_loading_views_keep_contents(
    exists: bool,
    text: String,
    place: Location,
    config: AppConfig,
)
    ensures
        LoadEvent::Started@ == LoadEventView::Started,
        LoadEvent::DirCreated@ == LoadEventView::DirCreated,
        LoadEvent::FileChecked(exists)@ == LoadEventView::FileChecked(exists),
        LoadEvent::FileRead(Some(text))@ == LoadEventView::FileRead(Some(text@)),
        LoadEvent::FileRead(None)@ == LoadEventView::FileRead(None),
        LoadEvent::TextParsed(Some(config))@ == LoadEventView::TextParsed(Some(config@)),
        LoadEvent::TextParsed(None)@ == LoadEventView::TextParsed(None),
        LoadStep::CreateDir(place)@ == LoadStepView::CreateDir(place@),
        LoadStep::CheckFile(place)@ == LoadStepView::CheckFile(place@),
        LoadStep::ReadFile(place)@ == LoadStepView::ReadFile(place@),
        LoadStep::ParseText(text)@ == LoadStepView::ParseText(text@),
        LoadStep::SaveAndUse(place, config)@ == LoadStepView::SaveAndUse(place@, config@),
        LoadStep::Use(place, config)@ == LoadStepView::Use(place@, config@),
{
}

} // verus!
