//! The application's state, and how it answers commands and events.

use vstd::prelude::*;

use crate::config::{
    law_saved_settings_are_loaded, load_from, AppConfig, ConfigView, Disk, LoadStepView,
};
use crate::places::{config_file_at, Location, LocationView};
use crate::tasks::{
    no_tasks, push_task, task_views, Task, TaskView, WindowTask, WindowTaskView,
};
use crate::text::same_text;

verus! {

/// The application's state.
#[derive(Debug, PartialEq, Eq)]
pub struct AppState {
    pub config: AppConfig,
    pub overlay_visible: bool,
    pub config_path: Location,
    pub shortcut_pressed: bool,
}

/// The state with its contents taken by their views.
pub struct StateView {
    pub config: ConfigView,
    pub overlay_visible: bool,
    pub config_path: LocationView,
    pub shortcut_pressed: bool,
}

impl View for AppState {
    type V = StateView;

    open spec fn view(&self) -> StateView {
        StateView {
            config: self.config@,
            overlay_visible: self.overlay_visible,
            config_path: self.config_path@,
            shortcut_pressed: self.shortcut_pressed,
        }
    }
}

/// What the global shortcut does.
#[derive(Clone, Copy, Debug, PartialEq, Eq, Structural)]
pub enum Shortcut {
    Pressed,
    Released,
}

impl StateView {
    /// The state with the overlay shown instead of hidden, or the reverse.
    pub open spec fn toggled(self) -> StateView {
        StateView { overlay_visible: !self.overlay_visible, ..self }
    }

    /// The state with other settings.
    pub open spec fn with_config(self, config: ConfigView) -> StateView {
        StateView { config, ..self }
    }

    /// The state after the shortcut was pressed or released. While it is held, the
    /// system may report further presses, and these change nothing.
    pub open spec fn after_shortcut(self, shortcut: Shortcut) -> StateView {
        match shortcut {
            Shortcut::Pressed => if self.shortcut_pressed {
                self
            } else {
                StateView { shortcut_pressed: true, ..self.toggled() }
            },
            Shortcut::Released => StateView { shortcut_pressed: false, ..self },
        }
    }

    /// The state after an item of the tray menu was chosen.
    pub open spec fn after_menu(self, id: Seq<char>) -> StateView {
        if id == "toggle"@ {
            self.toggled()
        } else {
            self
        }
    }

    /// The state after a series of shortcut events.
    pub open spec fn after_shortcuts(self, shortcuts: Seq<Shortcut>) -> StateView
        decreases shortcuts.len(),
    {
        if shortcuts.len() == 0 {
            self
        } else {
            self.after_shortcut(shortcuts[0]).after_shortcuts(shortcuts.drop_first())
        }
    }
}

/// The line that is logged when the overlay is toggled.
pub open spec fn toggle_line(visible: bool) -> Seq<char> {
    "[DEBUG] toggle_overlay called, visible="@ + (if visible {
        "true"@
    } else {
        "false"@
    })
}

fn build_toggle_line(visible: bool) -> (line: String)
    ensures
        line@ == toggle_line(visible),
{
    let mut line = "[DEBUG] toggle_overlay called, visible=".to_owned();
    line.append(if visible { "true" } else { "false" });
    line
}

/// What logs a toggle, shows or hides the overlay, and tells the settings window.
pub open spec fn toggle_tasks(visible: bool) -> Seq<TaskView> {
    seq![
        TaskView::Log(toggle_line(visible)),
        TaskView::OnWindow(
            if visible {
                WindowTaskView::ShowOverlay
            } else {
                WindowTaskView::HideOverlay
            },
        ),
        TaskView::OnWindow(WindowTaskView::TellVisibility(visible)),
    ]
}

/// What an item of the tray menu does, if toggling would make the overlay
/// `visible`. An identifier of no item does nothing.
pub open spec fn menu_tasks(visible: bool, id: Seq<char>) -> Seq<TaskView> {
    if id == "open"@ {
        seq![TaskView::OpenSettings]
    } else if id == "toggle"@ {
        toggle_tasks(visible)
    } else if id == "quit"@ {
        seq![TaskView::Exit(0)]
    } else {
        Seq::empty()
    }
}

/// What hands new settings to the windows.
pub open spec fn announce_tasks(config: ConfigView) -> Seq<TaskView> {
    seq![
        TaskView::OnWindow(WindowTaskView::PushConfig(config)),
        TaskView::OnWindow(WindowTaskView::TellConfig(config)),
    ]
}

/// What follows when all settings are replaced.
pub open spec fn update_tasks(path: LocationView, config: ConfigView) -> Seq<TaskView> {
    seq![TaskView::SaveConfig(path, config), TaskView::SyncAutoStart(config.auto_start)]
        + announce_tasks(config)
}

/// What follows when the mode is replaced.
pub open spec fn mode_tasks(path: LocationView, config: ConfigView) -> Seq<TaskView> {
    seq![TaskView::SaveConfig(path, config)] + announce_tasks(config)
}

/// Appends what hands new settings to the windows.
fn announce(tasks: &mut Vec<Task>, config: &AppConfig)
    ensures
        task_views(final(tasks)@) == task_views(old(tasks)@) + announce_tasks(config@),
{
    push_task(tasks, Task::OnWindow(WindowTask::PushConfig(config.clone())));
    push_task(tasks, Task::OnWindow(WindowTask::TellConfig(config.clone())));
    assert(task_views(tasks@) =~= task_views(old(tasks)@) + announce_tasks(config@));
}

impl AppState {
    /// The state of a start: the overlay is hidden and the shortcut is not held.
    pub fn new(config: AppConfig, config_path: Location) -> (state: AppState)
        ensures
            state@ == (StateView {
                config: config@,
                overlay_visible: false,
                config_path: config_path@,
                shortcut_pressed: false,
            }),
    {
        AppState { config, overlay_visible: false, config_path, shortcut_pressed: false }
    }

    /// The current settings.
    pub fn get_config(&self) -> (config: AppConfig)
        ensures
            config@ == self@.config,
    {
        self.config.clone()
    }

    /// Replaces all settings.
    pub fn update_config(&mut self, config: AppConfig) -> (tasks: Vec<Task>)
        ensures
            final(self)@ == old(self)@.with_config(config@),
            task_views(tasks@) == update_tasks(old(self)@.config_path, config@),
    {
        let mut tasks = no_tasks();
        push_task(&mut tasks, Task::SaveConfig(self.config_path.clone(), config.clone()));
        push_task(&mut tasks, Task::SyncAutoStart(config.auto_start));
        announce(&mut tasks, &config);
        self.config = config;
        assert(task_views(tasks@) =~= update_tasks(old(self)@.config_path, config@));
        tasks
    }

    /// Shows the overlay if it is hidden, and hides it if it is shown.
    pub fn toggle_overlay(&mut self) -> (tasks: Vec<Task>)
        ensures
            final(self)@ == old(self)@.toggled(),
            task_views(tasks@) == toggle_tasks(!old(self)@.overlay_visible),
    {
        self.overlay_visible = !self.overlay_visible;
        let visible = self.overlay_visible;
        let mut tasks = no_tasks();
        push_task(&mut tasks, Task::Log(build_toggle_line(visible)));
        push_task(
            &mut tasks,
            Task::OnWindow(
                if visible {
                    WindowTask::ShowOverlay
                } else {
                    WindowTask::HideOverlay
                },
            ),
        );
        push_task(&mut tasks, Task::OnWindow(WindowTask::TellVisibility(visible)));
        assert(task_views(tasks@) =~= toggle_tasks(visible));
        tasks
    }

    /// Whether the overlay is shown.
    pub fn is_overlay_visible(&self) -> (visible: bool)
        ensures
            visible == self@.overlay_visible,
    {
        self.overlay_visible
    }

    /// Replaces the mode and keeps all other settings.
    pub fn set_mode(&mut self, mode: String) -> (tasks: Vec<Task>)
        ensures
            final(self)@ == old(self)@.with_config(old(self)@.config.with_mode(mode@)),
            task_views(tasks@) == mode_tasks(
                old(self)@.config_path,
                old(self)@.config.with_mode(mode@),
            ),
    {
        self.config.mode = mode;
        let mut tasks = no_tasks();
        push_task(&mut tasks, Task::SaveConfig(self.config_path.clone(), self.config.clone()));
        announce(&mut tasks, &self.config);
        assert(task_views(tasks@) =~= mode_tasks(
            old(self)@.config_path,
            old(self)@.config.with_mode(mode@),
        ));
        tasks
    }

    /// Answers the global shortcut: the press that begins a hold toggles the
    /// overlay.
    pub fn shortcut_event(&mut self, shortcut: Shortcut) -> (tasks: Vec<Task>)
        ensures
            final(self)@ == old(self)@.after_shortcut(shortcut),
            task_views(tasks@) == (if shortcut == Shortcut::Pressed
                && !old(self)@.shortcut_pressed {
                toggle_tasks(!old(self)@.overlay_visible)
            } else {
                Seq::empty()
            }),
    {
        match shortcut {
            Shortcut::Pressed => {
                if self.shortcut_pressed {
                    return no_tasks();
                }
                self.shortcut_pressed = true;
                self.toggle_overlay()
            },
            Shortcut::Released => {
                self.shortcut_pressed = false;
                no_tasks()
            },
        }
    }

    /// Answers the choice of an item of the tray menu, by the item's identifier.
    pub fn menu_event(&mut self, id: &str) -> (tasks: Vec<Task>)
        ensures
            final(self)@ == old(self)@.after_menu(id@),
            task_views(tasks@) == menu_tasks(!old(self)@.overlay_visible, id@),
    {
        proof {
            reveal_strlit("open");
            reveal_strlit("toggle");
            assert("open"@.len() != "toggle"@.len());
        }
        let mut tasks = no_tasks();
        if same_text(id, "open") {
            push_task(&mut tasks, Task::OpenSettings);
            assert(task_views(tasks@) =~= seq![TaskView::OpenSettings]);
        } else if same_text(id, "toggle") {
            return self.toggle_overlay();
        } else if same_text(id, "quit") {
            push_task(&mut tasks, Task::Exit(0));
            assert(task_views(tasks@) =~= seq![TaskView::Exit(0)]);
        }
        tasks
    }
}

/// Toggling twice changes nothing.
pub proof fn law_toggling_twice_changes_nothing(state: StateView)
    ensures
        state.toggled().toggled() == state,
{
}

/// How many holds a series of shortcut events begins: presses that come while the
/// shortcut is not held.
pub open spec fn holds_begun(held: bool, shortcuts: Seq<Shortcut>) -> nat
    decreases shortcuts.len(),
{
    if shortcuts.len() == 0 {
        0
    } else {
        let pressed = shortcuts[0] == Shortcut::Pressed;
        (if pressed && !held {
            1nat
        } else {
            0nat
        }) + holds_begun(pressed, shortcuts.drop_first())
    }
}

/// After any series of shortcut events, the overlay has changed as often as holds
/// were begun, the shortcut is held if the last event was a press, and the settings
/// are what they were.
pub proof fn law_shortcut_toggles_once_per_hold(state: StateView, shortcuts: Seq<Shortcut>)
    ensures
        ({
            let after = state.after_shortcuts(shortcuts);
            let changed = holds_begun(state.shortcut_pressed, shortcuts) % 2 == 1;
            &&& after.overlay_visible == (state.overlay_visible != changed)
            &&& after.shortcut_pressed == (if shortcuts.len() == 0 {
                state.shortcut_pressed
            } else {
                shortcuts.last() == Shortcut::Pressed
            })
            &&& after.config == state.config
            &&& after.config_path == state.config_path
        }),
    decreases shortcuts.len(),
{
    if shortcuts.len() > 0 {
        law_shortcut_toggles_once_per_hold(
            state.after_shortcut(shortcuts[0]),
            shortcuts.drop_first(),
        );
    }
}

/// Holding the shortcut toggles the overlay once, however many presses the system
/// reports during the hold.
pub proof fn law_holding_toggles_once(state: StateView, reports: nat)
    requires
        !state.shortcut_pressed,
        reports > 0,
    ensures
        state.after_shortcuts(Seq::new(reports, |i: int| Shortcut::Pressed)) == (StateView {
            shortcut_pressed: true,
            ..state.toggled()
        }),
{
    let series = Seq::new(reports, |i: int| Shortcut::Pressed);
    let held = StateView { shortcut_pressed: true, ..state.toggled() };
    assert(series.drop_first() =~= Seq::new((reports - 1) as nat, |i: int| Shortcut::Pressed));
    lemma_repeated_presses(held, (reports - 1) as nat);
}

proof fn lemma_repeated_presses(state: StateView, reports: nat)
    requires
        state.shortcut_pressed,
    ensures
        state.after_shortcuts(Seq::new(reports, |i: int| Shortcut::Pressed)) == state,
    decreases reports,
{
    if reports > 0 {
        let series = Seq::new(reports, |i: int| Shortcut::Pressed);
        assert(series.drop_first() =~= Seq::new((reports - 1) as nat, |i: int| Shortcut::Pressed));
        lemma_repeated_presses(state, (reports - 1) as nat);
    }
}

/// The settings read are the settings written last, and neither writing them nor
/// toggling the overlay touches what the other changes.
pub proof fn law_settings_and_overlay_are_independent(
    state: StateView,
    first: ConfigView,
    second: ConfigView,
)
    ensures
        state.with_config(first).config == first,
        state.with_config(first).with_config(second) == state.with_config(second),
        state.with_config(first).toggled() == state.toggled().with_config(first),
{
}

/// Replacing the mode is replacing all settings by the current ones with that mode:
/// the state becomes the same and the windows are told the same, only the list of
/// programs started at login is left alone.
pub proof fn law_mode_is_a_setting(state: StateView, mode: Seq<char>)
    ensures
        ({
            let next = state.config.with_mode(mode);
            &&& next.mode == mode
            &&& next.with_mode(state.config.mode) == state.config
            &&& update_tasks(state.config_path, next).remove(1) == mode_tasks(
                state.config_path,
                next,
            )
            &&& update_tasks(state.config_path, next)[1] == TaskView::SyncAutoStart(
                state.config.auto_start,
            )
        }),
{
    let next = state.config.with_mode(mode);
    assert(update_tasks(state.config_path, next).remove(1) =~= mode_tasks(
        state.config_path,
        next,
    ));
}

/// A call on the state.
pub enum Command {
    Update(ConfigView),
    SetMode(Seq<char>),
    Toggle,
    Press(Shortcut),
    Menu(Seq<char>),
}

impl Command {
    /// Whether this call changes the settings.
    pub open spec fn changes_settings(self) -> bool {
        self is Update || self is SetMode
    }
}

impl StateView {
    /// The state after a call.
    pub open spec fn after_command(self, command: Command) -> StateView {
        match command {
            Command::Update(config) => self.with_config(config),
            Command::SetMode(mode) => self.with_config(self.config.with_mode(mode)),
            Command::Toggle => self.toggled(),
            Command::Press(shortcut) => self.after_shortcut(shortcut),
            Command::Menu(id) => self.after_menu(id),
        }
    }

    /// What a call asks to be done.
    pub open spec fn tasks_of(self, command: Command) -> Seq<TaskView> {
        match command {
            Command::Update(config) => update_tasks(self.config_path, config),
            Command::SetMode(mode) => mode_tasks(
                self.config_path,
                self.config.with_mode(mode),
            ),
            Command::Toggle => toggle_tasks(!self.overlay_visible),
            Command::Press(shortcut) => if shortcut == Shortcut::Pressed
                && !self.shortcut_pressed {
                toggle_tasks(!self.overlay_visible)
            } else {
                Seq::empty()
            },
            Command::Menu(id) => menu_tasks(!self.overlay_visible, id),
        }
    }

    /// The state after a series of calls.
    pub open spec fn after_commands(self, commands: Seq<Command>) -> StateView
        decreases commands.len(),
    {
        if commands.len() == 0 {
            self
        } else {
            self.after_commands(commands.drop_last()).after_command(commands.last())
        }
    }
}

/// The settings that a file holds after tasks were carried out, if they were
/// `file` before and every write succeeds.
pub open spec fn file_after(
    path: LocationView,
    file: Option<ConfigView>,
    tasks: Seq<TaskView>,
) -> Option<ConfigView>
    decreases tasks.len(),
{
    if tasks.len() == 0 {
        file
    } else {
        match tasks.last() {
            TaskView::SaveConfig(place, config) => if place == path {
                Some(config)
            } else {
                file_after(path, file, tasks.drop_last())
            },
            _ => file_after(path, file, tasks.drop_last()),
        }
    }
}

/// The settings that the configuration file holds after a series of calls, each
/// carried out before the next.
pub open spec fn file_after_commands(
    state: StateView,
    file: Option<ConfigView>,
    commands: Seq<Command>,
) -> Option<ConfigView>
    decreases commands.len(),
{
    if commands.len() == 0 {
        file
    } else {
        let before = state.after_commands(commands.drop_last());
        file_after(
            state.config_path,
            file_after_commands(state, file, commands.drop_last()),
            before.tasks_of(commands.last()),
        )
    }
}

proof fn lemma_file_without_saves(
    path: LocationView,
    file: Option<ConfigView>,
    first: Seq<TaskView>,
    rest: Seq<TaskView>,
)
    requires
        forall|i: int| 0 <= i < rest.len() ==> !(#[trigger] rest[i] is SaveConfig),
    ensures
        file_after(path, file, first + rest) == file_after(path, file, first),
    decreases rest.len(),
{
    if rest.len() > 0 {
        assert((first + rest).last() == rest[rest.len() - 1]);
        assert((first + rest).drop_last() =~= first + rest.drop_last());
        lemma_file_without_saves(path, file, first, rest.drop_last());
    } else {
        assert(first + rest =~= first);
    }
}

proof fn lemma_file_after_command(state: StateView, file: Option<ConfigView>, command: Command)
    ensures
        state.after_command(command).config_path == state.config_path,
        file_after(state.config_path, file, state.tasks_of(command)) == (
        if command.changes_settings() {
            Some(state.after_command(command).config)
        } else {
            file
        }),
        !command.changes_settings() ==> state.after_command(command).config == state.config,
{
    let tasks = state.tasks_of(command);
    let path = state.config_path;
    if command.changes_settings() {
        let save = seq![tasks[0]];
        let rest = tasks.skip(1);
        assert(tasks =~= save + rest);
        lemma_file_without_saves(path, file, save, rest);
        reveal_with_fuel(file_after, 2);
    } else {
        assert(tasks =~= Seq::empty() + tasks);
        lemma_file_without_saves(path, file, Seq::empty(), tasks);
    }
}

/// Memory and file agree: after any series of calls, where every write succeeds, the
/// configuration file holds the current settings, if it did so before or if a call of
/// the series changed them. The path stays the same.
pub proof fn law_memory_and_file_agree(
    state: StateView,
    file: Option<ConfigView>,
    commands: Seq<Command>,
)
    requires
        file == Some(state.config) || exists|i: int|
            0 <= i < commands.len() && (#[trigger] commands[i]).changes_settings(),
    ensures
        file_after_commands(state, file, commands) == Some(state.after_commands(commands).config),
        state.after_commands(commands).config_path == state.config_path,
{
    lemma_file_after_commands(state, file, commands);
}

proof fn lemma_file_after_commands(
    state: StateView,
    file: Option<ConfigView>,
    commands: Seq<Command>,
)
    ensures
        state.after_commands(commands).config_path == state.config_path,
        file == Some(state.config) || (exists|i: int|
            0 <= i < commands.len() && (#[trigger] commands[i]).changes_settings())
            ==> file_after_commands(state, file, commands) == Some(
            state.after_commands(commands).config,
        ),
    decreases commands.len(),
{
    if commands.len() > 0 {
        let init = commands.drop_last();
        let before = state.after_commands(init);
        lemma_file_after_commands(state, file, init);
        lemma_file_after_command(
            before,
            file_after_commands(state, file, init),
            commands.last(),
        );
        if !commands.last().changes_settings() && file != Some(state.config) && (exists|i: int|
            0 <= i < commands.len() && (#[trigger] commands[i]).changes_settings()) {
            let i = choose|i: int|
                0 <= i < commands.len() && (#[trigger] commands[i]).changes_settings();
            assert(init[i].changes_settings());
        }
    }
}

/// The last change decides: where call `k` is the last of a series that changes the
/// settings, the settings are those of that call if it replaced them all, and their
/// mode is that of that call if it replaced the mode.
pub proof fn law_last_change_decides(state: StateView, commands: Seq<Command>, k: int)
    requires
        0 <= k < commands.len(),
        forall|i: int| k < i < commands.len() ==> !(#[trigger] commands[i]).changes_settings(),
    ensures
        commands[k] matches Command::Update(config) ==> state.after_commands(commands).config
            == config,
        commands[k] matches Command::SetMode(mode) ==> state.after_commands(commands).config
            == state.after_commands(commands.take(k)).config.with_mode(mode),
    decreases commands.len(),
{
    let init = commands.drop_last();
    if k < commands.len() - 1 {
        assert forall|i: int| k < i < init.len() implies !(#[trigger] init[i]).changes_settings() by {
            assert(init[i] == commands[i]);
        }
        law_last_change_decides(state, init, k);
        assert(init.take(k) =~= commands.take(k));
        assert(!commands[commands.len() - 1].changes_settings());
        lemma_file_after_command(state.after_commands(init), None, commands.last());
    } else {
        assert(init =~= commands.take(k));
    }
}

/// Settings survive a restart: after any series of calls that changes the settings,
/// where every write succeeds and the file is readable, the next start loads the
/// settings that the series ended with, and stores them in the same place; for every
/// way of writing that parsing undoes.
pub proof fn law_settings_survive_a_restart(
    config_dir_known: bool,
    state: StateView,
    file: Option<ConfigView>,
    commands: Seq<Command>,
    disk: Disk,
    write: spec_fn(ConfigView) -> Seq<char>,
    parse: spec_fn(Seq<char>) -> Option<ConfigView>,
)
    requires
        state.config_path == config_file_at(config_dir_known),
        exists|i: int| 0 <= i < commands.len() && (#[trigger] commands[i]).changes_settings(),
        file_after_commands(state, file, commands) matches Some(saved) ==> disk.text == Some(
            write(saved),
        ),
        disk.readable,
        parse(write(state.after_commands(commands).config)) == Some(
            state.after_commands(commands).config,
        ),
    ensures
        load_from(config_dir_known, disk, parse) == LoadStepView::Use(
            state.after_commands(commands).config_path,
            state.after_commands(commands).config,
        ),
{
    law_memory_and_file_agree(state, file, commands);
    law_saved_settings_are_loaded(
        config_dir_known,
        state.after_commands(commands).config,
        disk,
        write,
        parse,
    );
}

/// Toggling changes whether the overlay is visible, from either state, and nothing else.
pub proof fn law_toggling_changes_the_overlay(state: StateView)
    ensures
        state.toggled().overlay_visible != state.overlay_visible,
        state.toggled().config == state.config,
        state.toggled().config_path == state.config_path,
        state.toggled().shortcut_pressed == state.shortcut_pressed,
{
}

/// A toggle is logged with the visibility that it leads to, shows the overlay just if
/// it is to be visible and else hides it, and tells the settings window the same.
pub proof fn law_toggle_tasks_follow_the_overlay(state: StateView)
    ensures
        ({
            let visible = state.toggled().overlay_visible;
            let tasks = toggle_tasks(visible);
            &&& tasks.len() == 3
            &&& tasks[0] == TaskView::Log(
                if state.overlay_visible {
                    "[DEBUG] toggle_overlay called, visible="@ + "false"@
                } else {
                    "[DEBUG] toggle_overlay called, visible="@ + "true"@
                },
            )
            &&& tasks[1] == TaskView::OnWindow(
                if state.overlay_visible {
                    WindowTaskView::HideOverlay
                } else {
                    WindowTaskView::ShowOverlay
                },
            )
            &&& tasks[2] == TaskView::OnWindow(
                WindowTaskView::TellVisibility(!state.overlay_visible),
            )
        }),
{
}

/// The menu item for the overlay is the toggle: from either state it changes whether the
/// overlay is visible and nothing else, it asks for what the toggle asks for in that
/// state, and choosing it twice changes the overlay and changes it back.
pub proof fn law_menu_toggle_is_the_toggle(state: StateView)
    ensures
        ({
            let after = state.after_menu("toggle"@);
            let tasks = menu_tasks(!state.overlay_visible, "toggle"@);
            &&& after.overlay_visible != state.overlay_visible
            &&& after.config == state.config
            &&& after.config_path == state.config_path
            &&& after.shortcut_pressed == state.shortcut_pressed
            &&& after == state.toggled()
            &&& tasks == toggle_tasks(!state.overlay_visible)
            &&& tasks.len() == 3
            &&& tasks[1] == TaskView::OnWindow(
                if state.overlay_visible {
                    WindowTaskView::HideOverlay
                } else {
                    WindowTaskView::ShowOverlay
                },
            )
            &&& tasks[2] == TaskView::OnWindow(
                WindowTaskView::TellVisibility(after.overlay_visible),
            )
            &&& after.after_menu("toggle"@) == state
        }),
{
    reveal_strlit("open");
    reveal_strlit("toggle");
    assert("open"@.len() != "toggle"@.len());
}

/// The other menu items leave the state alone, whatever it is: one brings up the settings
/// window, one ends the application with exit code zero, and an identifier of no item
/// asks for nothing.
pub proof fn law_other_menu_items_keep_the_state(state: StateView, id: Seq<char>, visible: bool)
    requires
        id != "toggle"@,
    ensures
        state.after_menu(id) == state,
        id == "open"@ ==> menu_tasks(visible, id) == seq![TaskView::OpenSettings],
        id == "quit"@ ==> menu_tasks(visible, id) == seq![TaskView::Exit(0)],
        id != "open"@ && id != "quit"@ ==> menu_tasks(visible, id).len() == 0,
{
    reveal_strlit("open");
    reveal_strlit("quit");
    assert("open"@[0] != "quit"@[0]);
}

/// A press toggles the overlay just if the shortcut is not held, and the shortcut is held
/// after it; a release changes nothing but that. Neither touches the settings.
pub proof fn law_shortcut_press_and_release(state: StateView)
    ensures
        ({
            let (pressed, released) = (
                state.after_shortcut(Shortcut::Pressed),
                state.after_shortcut(Shortcut::Released),
            );
            &&& pressed.shortcut_pressed && !released.shortcut_pressed
            &&& released.overlay_visible == state.overlay_visible
            &&& pressed.overlay_visible == (if state.shortcut_pressed {
                state.overlay_visible
            } else {
                !state.overlay_visible
            })
            &&& pressed.config == state.config && released.config == state.config
            &&& pressed.config_path == state.config_path
            &&& released.config_path == state.config_path
        }),
{
}

/// Replacing the settings replaces them by those given, and touches nothing else.
pub proof fn law_only_the_settings_are_replaced(state: StateView, config: ConfigView)
    ensures
        state.with_config(config).config == config,
        state.with_config(config).overlay_visible == state.overlay_visible,
        state.with_config(config).config_path == state.config_path,
        state.with_config(config).shortcut_pressed == state.shortcut_pressed,
{
}

/// Whatever the new settings are, they are saved in the state's file, the list of programs
/// started at login follows their own flag, and both windows are told all of them, in
/// this order. A new mode leaves that list alone and does the rest.
pub proof fn law_new_settings_reach_everyone(path: LocationView, config: ConfigView)
    ensures
        update_tasks(path, config) == seq![
            TaskView::SaveConfig(path, config),
            TaskView::SyncAutoStart(config.auto_start),
            TaskView::OnWindow(WindowTaskView::PushConfig(config)),
            TaskView::OnWindow(WindowTaskView::TellConfig(config)),
        ],
        mode_tasks(path, config) == seq![
            TaskView::SaveConfig(path, config),
            TaskView::OnWindow(WindowTaskView::PushConfig(config)),
            TaskView::OnWindow(WindowTaskView::TellConfig(config)),
        ],
{
    assert(update_tasks(path, config) =~= seq![
        TaskView::SaveConfig(path, config),
        TaskView::SyncAutoStart(config.auto_start),
        TaskView::OnWindow(WindowTaskView::PushConfig(config)),
        TaskView::OnWindow(WindowTaskView::TellConfig(config)),
    ]);
    assert(mode_tasks(path, config) =~= seq![
        TaskView::SaveConfig(path, config),
        TaskView::OnWindow(WindowTaskView::PushConfig(config)),
        TaskView::OnWindow(WindowTaskView::TellConfig(config)),
    ]);
}

/// Nothing of the state is lost or moved in its view.
pub proof fn law_state_view_keeps_contents(state: AppState)
    ensures
        state@.config == state.config@,
        state@.overlay_visible == state.overlay_visible,
        state@.config_path == state.config_path@,
        state@.shortcut_pressed == state.shortcut_pressed,
{
}

} // verus!
