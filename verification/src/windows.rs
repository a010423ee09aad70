//! The application's windows, and what is done with them.

use vstd::prelude::*;

use crate::config::{AppConfig, ConfigView};

verus! {

/// A window of the application.
#[derive(Clone, Copy, Debug, PartialEq, Eq, Structural)]
pub enum Window {
    /// The settings window.
    Main,
    /// The window that covers the screen.
    Overlay,
}

/// The label that a window is found by.
pub open spec fn window_label(window: Window) -> Seq<char> {
    match window {
        Window::Main => "main"@,
        Window::Overlay => "overlay"@,
    }
}

impl Window {
    /// The label that this window is found by.
    pub fn label(self) -> (label: &'static str)
        ensures
            label@ == window_label(self),
    {
        match self {
            Window::Main => "main",
            Window::Overlay => "overlay",
        }
    }
}

/// Something to be done with a window.
#[derive(Debug, PartialEq, Eq)]
pub enum Action {
    /// Make a window visible.
    Show(Window),
    /// Make a window invisible.
    Hide(Window),
    /// Bring a window back from the task bar.
    Unminimize(Window),
    /// Give a window the keyboard focus.
    Focus(Window),
    /// Keep a window above all others.
    KeepOnTop(Window),
    /// Run a script in a window's page.
    RunScript(Window, String),
    /// Do not let the window that was asked to close go away.
    PreventClose,
    /// Tell the settings window whether the overlay is visible now.
    EmitVisibility(bool),
    /// Tell the settings window what the settings are now.
    EmitConfig(AppConfig),
}

/// An action with its contents taken by their views.
pub enum ActionView {
    Show(Window),
    Hide(Window),
    Unminimize(Window),
    Focus(Window),
    KeepOnTop(Window),
    RunScript(Window, Seq<char>),
    PreventClose,
    EmitVisibility(bool),
    EmitConfig(ConfigView),
}

impl View for Action {
    type V = ActionView;

    open spec fn view(&self) -> ActionView {
        match self {
            Action::Show(window) => ActionView::Show(*window),
            Action::Hide(window) => ActionView::Hide(*window),
            Action::Unminimize(window) => ActionView::Unminimize(*window),
            Action::Focus(window) => ActionView::Focus(*window),
            Action::KeepOnTop(window) => ActionView::KeepOnTop(*window),
            Action::RunScript(window, script) => ActionView::RunScript(*window, script@),
            Action::PreventClose => ActionView::PreventClose,
            Action::EmitVisibility(visible) => ActionView::EmitVisibility(*visible),
            Action::EmitConfig(config) => ActionView::EmitConfig(config@),
        }
    }
}

/// The name of the event that an action sends to the settings window's page.
pub open spec fn event_name(action: ActionView) -> Option<Seq<char>> {
    match action {
        ActionView::EmitVisibility(_) => Some("overlay-visibility-changed"@),
        ActionView::EmitConfig(_) => Some("config-updated"@),
        _ => None,
    }
}

impl Action {
    /// The name of the event that this action sends to the settings window's page,
    /// if it sends one.
    pub fn event_name(&self) -> (name: Option<&'static str>)
        ensures
            name is Some <==> event_name(self@) is Some,
            name matches Some(text) ==> Some(text@) == event_name(self@),
    {
        match self {
            Action::EmitVisibility(_) => Some("overlay-visibility-changed"),
            Action::EmitConfig(_) => Some("config-updated"),
            _ => None,
        }
    }
}

/// Actions with their contents taken by their views.
pub open spec fn action_views(actions: Seq<Action>) -> Seq<ActionView> {
    actions.map_values(|action: Action| action@)
}

/// Appends an action.
pub(crate) fn push_action(actions: &mut Vec<Action>, action: Action)
    ensures
        action_views(final(actions)@) == action_views(old(actions)@).push(action@),
{
    actions.push(action);
    assert(action_views(actions@) =~= action_views(old(actions)@).push(action@));
}

/// No actions yet.
pub(crate) fn no_actions() -> (actions: Vec<Action>)
    ensures
        action_views(actions@) == Seq::<ActionView>::empty(),
{
    let actions: Vec<Action> = Vec::new();
    assert(action_views(actions@) =~= Seq::<ActionView>::empty());
    actions
}

/// How a window is built.
#[derive(Clone, Copy, Debug, PartialEq, Eq)]
pub struct WindowSettings {
    pub window: Window,
    pub page: &'static str,
    pub title: &'static str,
    pub width: u32,
    pub height: u32,
    pub resizable: bool,
    pub centered: bool,
}

/// A window's settings with their texts taken by their characters.
pub struct SettingsView {
    pub window: Window,
    pub page: Seq<char>,
    pub title: Seq<char>,
    pub width: u32,
    pub height: u32,
    pub resizable: bool,
    pub centered: bool,
}

impl View for WindowSettings {
    type V = SettingsView;

    open spec fn view(&self) -> SettingsView {
        SettingsView {
            window: self.window,
            page: self.page@,
            title: self.title@,
            width: self.width,
            height: self.height,
            resizable: self.resizable,
            centered: self.centered,
        }
    }
}

/// How the settings window is built.
pub open spec fn main_window_settings() -> SettingsView {
    SettingsView {
        window: Window::Main,
        page: "index.html"@,
        title: "Own View - Settings"@,
        width: 500,
        height: 600,
        resizable: false,
        centered: true,
    }
}

/// The settings window to build, if there is none yet.
pub fn ensure_main_window(main_open: bool) -> (build: Option<WindowSettings>)
    ensures
        build is Some <==> !main_open,
        build matches Some(settings) ==> settings@ == main_window_settings(),
{
    if main_open {
        None
    } else {
        Some(
            WindowSettings {
                window: Window::Main,
                page: "index.html",
                title: "Own View - Settings",
                width: 500,
                height: 600,
                resizable: false,
                centered: true,
            },
        )
    }
}

/// How the settings window is brought to the front; nothing is done where there is
/// none.
pub open spec fn focus_actions(main_open: bool) -> Seq<ActionView> {
    if main_open {
        seq![
            ActionView::Show(Window::Main),
            ActionView::Unminimize(Window::Main),
            ActionView::Focus(Window::Main),
        ]
    } else {
        Seq::empty()
    }
}

fn bring_to_front(main_open: bool) -> (actions: Vec<Action>)
    ensures
        action_views(actions@) == focus_actions(main_open),
{
    let mut actions = no_actions();
    if main_open {
        push_action(&mut actions, Action::Show(Window::Main));
        push_action(&mut actions, Action::Unminimize(Window::Main));
        push_action(&mut actions, Action::Focus(Window::Main));
    }
    assert(action_views(actions@) =~= focus_actions(main_open));
    actions
}

/// What has happened so far while the settings window is brought up.
#[derive(Clone, Copy, Debug, PartialEq, Eq, Structural)]
pub enum FocusEvent {
    /// It was looked up whether the window is there.
    Started(bool),
    /// The window was built, or not.
    Built(bool),
    /// The window's events are answered from now on.
    Attached,
    /// It was looked up once more whether the window is there.
    LookedUp(bool),
}

/// What to do next while the settings window is brought up.
#[derive(Debug, PartialEq, Eq)]
pub enum FocusStep {
    /// Build the window.
    Build(WindowSettings),
    /// Answer the events of the window that was built.
    Attach,
    /// Look up whether the window is there.
    LookUp,
    /// Do this, and it is done.
    Finish(Vec<Action>),
}

/// A step with its contents taken by their views.
pub enum FocusStepView {
    Build(SettingsView),
    Attach,
    LookUp,
    Finish(Seq<ActionView>),
}

impl View for FocusStep {
    type V = FocusStepView;

    open spec fn view(&self) -> FocusStepView {
        match self {
            FocusStep::Build(settings) => FocusStepView::Build(settings@),
            FocusStep::Attach => FocusStepView::Attach,
            FocusStep::LookUp => FocusStepView::LookUp,
            FocusStep::Finish(actions) => FocusStepView::Finish(action_views(actions@)),
        }
    }
}

/// What follows each event: a window that is missing is built, a window that was
/// built is given its behaviour, and the window that is there in the end comes to
/// the front.
pub open spec fn focus_step(event: FocusEvent) -> FocusStepView {
    match event {
        FocusEvent::Started(true) => FocusStepView::LookUp,
        FocusEvent::Started(false) => FocusStepView::Build(main_window_settings()),
        FocusEvent::Built(true) => FocusStepView::Attach,
        FocusEvent::Built(false) => FocusStepView::LookUp,
        FocusEvent::Attached => FocusStepView::LookUp,
        FocusEvent::LookedUp(main_open) => FocusStepView::Finish(focus_actions(main_open)),
    }
}

/// Decides the next step of bringing up the settings window.
pub fn focus_main_window(event: FocusEvent) -> (step: FocusStep)
    ensures
        step@ == focus_step(event),
{
    match event {
        FocusEvent::Started(main_open) => match ensure_main_window(main_open) {
            Some(settings) => FocusStep::Build(settings),
            None => FocusStep::LookUp,
        },
        FocusEvent::Built(built) => if built {
            FocusStep::Attach
        } else {
            FocusStep::LookUp
        },
        FocusEvent::Attached => FocusStep::LookUp,
        FocusEvent::LookedUp(main_open) => FocusStep::Finish(bring_to_front(main_open)),
    }
}

/// A desk on which nothing else opens or closes the settings window: whether the
/// window is there, whether it answers events, and whether building it succeeds.
pub struct Desk {
    pub main_open: bool,
    pub attached: bool,
    pub can_build: bool,
}

/// What carrying out a step on such a desk reports.
pub open spec fn desk_reply(desk: Desk, step: FocusStepView) -> FocusEvent {
    match step {
        FocusStepView::Build(_) => FocusEvent::Built(desk.can_build),
        FocusStepView::Attach => FocusEvent::Attached,
        _ => FocusEvent::LookedUp(desk.main_open),
    }
}

/// The desk after carrying out a step.
pub open spec fn desk_after(desk: Desk, step: FocusStepView) -> Desk {
    match step {
        FocusStepView::Build(_) => Desk { main_open: desk.main_open || desk.can_build, ..desk },
        FocusStepView::Attach => Desk { attached: true, ..desk },
        _ => desk,
    }
}

/// The step reached after at most `turns` turns, and the desk at that time.
pub open spec fn focus_run(desk: Desk, event: FocusEvent, turns: nat) -> (FocusStepView, Desk)
    decreases turns,
{
    let step = focus_step(event);
    if step is Finish || turns == 0 {
        (step, desk)
    } else {
        focus_run(desk_after(desk, step), desk_reply(desk, step), (turns - 1) as nat)
    }
}

/// Bringing up the settings window takes at most three turns. A window that was there
/// comes to the front and is not built again; one that was missing is built, given
/// its behaviour and brought to the front, or, where building fails, nothing is done.
pub proof fn law_settings_window_comes_up(desk: Desk)
    ensures
        focus_run(desk, FocusEvent::Started(desk.main_open), 3) == (
            FocusStepView::Finish(focus_actions(desk.main_open || desk.can_build)),
            Desk {
                main_open: desk.main_open || desk.can_build,
                attached: desk.attached || (!desk.main_open && desk.can_build),
                can_build: desk.can_build,
            },
        ),
{
    reveal_with_fuel(focus_run, 4);
}

/// What closing the settings window does: it is hidden, and never goes away.
pub open spec fn close_actions(main_open: bool) -> Seq<ActionView> {
    if main_open {
        seq![ActionView::PreventClose, ActionView::Hide(Window::Main)]
    } else {
        seq![ActionView::PreventClose]
    }
}

/// Answers a request to close the settings window.
pub fn close_main_window(main_open: bool) -> (actions: Vec<Action>)
    ensures
        action_views(actions@) == close_actions(main_open),
{
    let mut actions = no_actions();
    push_action(&mut actions, Action::PreventClose);
    if main_open {
        push_action(&mut actions, Action::Hide(Window::Main));
    }
    assert(action_views(actions@) =~= close_actions(main_open));
    actions
}

/// What happens to the settings window.
#[derive(Clone, Copy, Debug, PartialEq, Eq, Structural)]
pub enum MainWindowEvent {
    CloseRequested,
    Other,
}

/// Answers an event of the settings window: a request to close hides it, and every
/// other event is passed over.
pub fn main_window_event(event: MainWindowEvent, main_open: bool) -> (actions: Vec<Action>)
    ensures
        action_views(actions@) == (match event {
            MainWindowEvent::CloseRequested => close_actions(main_open),
            MainWindowEvent::Other => Seq::empty(),
        }),
{
    match event {
        MainWindowEvent::CloseRequested => close_main_window(main_open),
        MainWindowEvent::Other => no_actions(),
    }
}

/// What tells the settings window whether the overlay is visible.
pub open spec fn visibility_actions(main_open: bool, visible: bool) -> Seq<ActionView> {
    if main_open {
        seq![ActionView::EmitVisibility(visible)]
    } else {
        Seq::empty()
    }
}

/// Appends what tells the settings window whether the overlay is visible.
pub fn emit_overlay_visibility(actions: &mut Vec<Action>, main_open: bool, visible: bool)
    ensures
        action_views(final(actions)@) == action_views(old(actions)@) + visibility_actions(
            main_open,
            visible,
        ),
{
    if main_open {
        push_action(actions, Action::EmitVisibility(visible));
    }
    assert(action_views(actions@) =~= action_views(old(actions)@) + visibility_actions(
        main_open,
        visible,
    ));
}

/// A button of the mouse.
#[derive(Clone, Copy, Debug, PartialEq, Eq, Structural)]
pub enum Button {
    Left,
    Right,
    Middle,
}

/// What happens at the tray icon.
#[derive(Clone, Copy, Debug, PartialEq, Eq, Structural)]
pub enum TrayEvent {
    Click(Button),
    DoubleClick(Button),
    Other,
}

/// Whether an event at the tray icon brings up the settings window: a click or
/// double click with the left button does, nothing else.
pub fn tray_opens_settings(event: TrayEvent) -> (open: bool)
    ensures
        open == (event == TrayEvent::Click(Button::Left) || event == TrayEvent::DoubleClick(
            Button::Left,
        )),
{
    match event {
        TrayEvent::Click(Button::Left) => true,
        TrayEvent::DoubleClick(Button::Left) => true,
        _ => false,
    }
}

/// The size assumed for a screen that cannot be measured.
pub open spec fn screen_or_default(primary: Option<(u32, u32)>) -> (u32, u32) {
    match primary {
        Some(size) => size,
        None => (1920, 1080),
    }
}

/// The size of the primary screen, in pixels.
pub fn get_screen_size(primary: Option<(u32, u32)>) -> (size: (u32, u32))
    ensures
        size == screen_or_default(primary),
{
    match primary {
        Some(size) => size,
        None => (1920, 1080),
    }
}

/// A window is found by its own label.
pub proof fn law_windows_have_their_labels()
    ensures
        window_label(Window::Main) == "main"@,
        window_label(Window::Overlay) == "overlay"@,
{
}

/// The settings window that is there is shown, brought back from the task bar and given the
/// focus, in this order; closing it hides it and never lets it go away. A window that is
/// not there gets nothing.
pub proof fn law_settings_window_stays_at_hand()
    ensures
        focus_actions(true) == seq![
            ActionView::Show(Window::Main),
            ActionView::Unminimize(Window::Main),
            ActionView::Focus(Window::Main),
        ],
        focus_actions(false).len() == 0,
        close_actions(true) == seq![ActionView::PreventClose, ActionView::Hide(Window::Main)],
        close_actions(false) == seq![ActionView::PreventClose],
{
}

/// The settings window is told of the overlay's visibility as it is, once, just if the
/// window is there.
pub proof fn law_visibility_is_told_as_it_is(visible: bool)
    ensures
        visibility_actions(true, visible) == seq![ActionView::EmitVisibility(visible)],
        visibility_actions(false, visible).len() == 0,
{
}

/// The page is sent an event just for a visibility or for settings, whatever they are.
pub proof fn law_events_have_their_names(action: ActionView)
    ensures
        action is EmitVisibility ==> event_name(action) == Some("overlay-visibility-changed"@),
        action is EmitConfig ==> event_name(action) == Some("config-updated"@),
        event_name(action) is Some ==> action is EmitVisibility || action is EmitConfig,
{
}

/// A screen that was measured has the size that was measured.
pub proof fn law_measured_size_is_kept(size: (u32, u32))
    ensures
        screen_or_default(Some(size)) == size,
        screen_or_default(None) == (1920u32, 1080u32),
{
}

/// Nothing of an action is lost or moved in its view.
pub proof fn law_action_views_keep_contents(
    window: Window,
    script: String,
    visible: bool,
    config: AppConfig,
)
    ensures
        Action::Show(window)@ == ActionView::Show(window),
        Action::Hide(window)@ == ActionView::Hide(window),
        Action::Unminimize(window)@ == ActionView::Unminimize(window),
        Action::Focus(window)@ == ActionView::Focus(window),
        Action::KeepOnTop(window)@ == ActionView::KeepOnTop(window),
        Action::RunScript(window, script)@ == ActionView::RunScript(window, script@),
        Action::PreventClose@ == ActionView::PreventClose,
        Action::EmitVisibility(visible)@ == ActionView::EmitVisibility(visible),
        Action::EmitConfig(config)@ == ActionView::EmitConfig(config@),
{
}

/// Actions are taken by their views one by one, in their order.
pub proof fn law_each_action_has_its_view(actions: Seq<Action>)
    ensures
        action_views(actions).len() == actions.len(),
        forall|i: int| 0 <= i < actions.len() ==> #[trigger] action_views(actions)[i] == actions[i]@,
{
}

/// Nothing of a window's settings or of a step is lost or moved in its view.
pub proof fn law_window_views_keep_contents(settings: WindowSettings, actions: Vec<Action>)
    ensures
        settings@.window == settings.window,
        settings@.page == settings.page@,
        settings@.title == settings.title@,
        settings@.width == settings.width,
        settings@.height == settings.height,
        settings@.resizable == settings.resizable,
        settings@.centered == settings.centered,
        FocusStep::Build(settings)@ == FocusStepView::Build(settings@),
        FocusStep::Attach@ == FocusStepView::Attach,
        FocusStep::LookUp@ == FocusStepView::LookUp,
        FocusStep::Finish(actions)@ == FocusStepView::Finish(action_views(actions@)),
{
}

} // verus!
