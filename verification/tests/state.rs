use own_view::config::AppConfig;
use own_view::places::config_file;
use own_view::state::{AppState, Shortcut};
use own_view::tasks::{Task, WindowTask};
use own_view::windows::{
    close_main_window, emit_overlay_visibility, ensure_main_window, focus_main_window,
    get_screen_size, main_window_event, tray_opens_settings, Action, Button, FocusEvent, FocusStep,
    MainWindowEvent, TrayEvent, Window,
};

fn start() -> AppState {
    AppState::new(AppConfig::default(), config_file(true))
}

fn toggled(visible: bool) -> Vec<Task> {
    vec![
        Task::Log(format!("[DEBUG] toggle_overlay called, visible={}", visible)),
        Task::OnWindow(if visible { WindowTask::ShowOverlay } else { WindowTask::HideOverlay }),
        Task::OnWindow(WindowTask::TellVisibility(visible)),
    ]
}

#[test]
fn state_of_a_start() {
    let state = start();
    assert_eq!(state.get_config(), AppConfig::default());
    assert!(!state.is_overlay_visible());
    assert!(!state.shortcut_pressed);
}

#[test]
fn toggling_shows_and_hides() {
    let mut state = start();
    assert_eq!(state.toggle_overlay(), toggled(true));
    assert!(state.is_overlay_visible());
    assert_eq!(state.toggle_overlay(), toggled(false));
    assert_eq!(state, start());
}

#[test]
fn open_windows_are_served() {
    assert_eq!(
        WindowTask::ShowOverlay.serve(true),
        vec![Action::Show(Window::Overlay), Action::KeepOnTop(Window::Overlay)]
    );
    assert_eq!(WindowTask::HideOverlay.serve(true), vec![Action::Hide(Window::Overlay)]);
    let script = "window.__OWN_VIEW_setConfig(\"window\", 40, 0.5, \"alt+\\\"o\\\"\");";
    assert_eq!(
        WindowTask::PushConfig(other()).serve(true),
        vec![Action::RunScript(Window::Overlay, script.to_string())]
    );
    assert_eq!(WindowTask::TellVisibility(true).serve(true), vec![Action::EmitVisibility(true)]);
    assert_eq!(WindowTask::TellConfig(other()).serve(true), vec![Action::EmitConfig(other())]);
}

fn window_tasks() -> Vec<WindowTask> {
    vec![
        WindowTask::ShowOverlay,
        WindowTask::HideOverlay,
        WindowTask::PushConfig(other()),
        WindowTask::TellVisibility(false),
        WindowTask::TellConfig(other()),
    ]
}

#[test]
fn missing_windows_get_nothing() {
    for task in window_tasks() {
        assert_eq!(task.serve(false), vec![]);
    }
}

#[test]
fn tasks_know_their_window() {
    let windows: Vec<Window> = window_tasks().iter().map(|task| task.window()).collect();
    assert_eq!(
        windows,
        vec![Window::Overlay, Window::Overlay, Window::Overlay, Window::Main, Window::Main]
    );
}

#[test]
fn held_shortcut_toggles_once() {
    let mut state = start();
    assert_eq!(state.shortcut_event(Shortcut::Pressed), toggled(true));
    for _ in 0..10 {
        assert_eq!(state.shortcut_event(Shortcut::Pressed), vec![]);
    }
    assert!(state.is_overlay_visible());
    assert_eq!(state.shortcut_event(Shortcut::Released), vec![]);
    assert!(state.is_overlay_visible());
    assert_eq!(state.shortcut_event(Shortcut::Pressed), toggled(false));
    assert!(!state.is_overlay_visible());
}

#[test]
fn release_alone_does_nothing() {
    let mut state = start();
    assert_eq!(state.shortcut_event(Shortcut::Released), vec![]);
    assert_eq!(state, start());
}

fn other() -> AppConfig {
    AppConfig {
        hotkey: "alt+\"o\"".to_string(),
        blur_radius: 3,
        spotlight_radius: 40,
        mode: "window".to_string(),
        auto_start: true,
        overlay_opacity: "0.5".to_string(),
    }
}

#[test]
fn updating_saves_syncs_and_announces() {
    let mut state = start();
    assert_eq!(
        state.update_config(other()),
        vec![
            Task::SaveConfig(config_file(true), other()),
            Task::SyncAutoStart(true),
            Task::OnWindow(WindowTask::PushConfig(other())),
            Task::OnWindow(WindowTask::TellConfig(other())),
        ]
    );
    assert_eq!(state.get_config(), other());
    assert!(!state.is_overlay_visible());
    state.update_config(AppConfig::default());
    assert_eq!(state.get_config(), AppConfig::default());
}

#[test]
fn setting_the_mode_keeps_the_rest() {
    let mut state = start();
    state.toggle_overlay();
    let expected = AppConfig { mode: "full".to_string(), ..AppConfig::default() };
    assert_eq!(
        state.set_mode("full".to_string()),
        vec![
            Task::SaveConfig(config_file(true), expected.clone()),
            Task::OnWindow(WindowTask::PushConfig(expected.clone())),
            Task::OnWindow(WindowTask::TellConfig(expected.clone())),
        ]
    );
    assert_eq!(state.get_config(), expected);
    assert!(state.is_overlay_visible());
}

#[test]
fn menu_items_are_told_apart() {
    let mut state = start();
    assert_eq!(state.menu_event("open"), vec![Task::OpenSettings]);
    assert_eq!(state.menu_event("quit"), vec![Task::Exit(0)]);
    assert_eq!(state.menu_event("Open"), vec![]);
    assert_eq!(state.menu_event(""), vec![]);
    assert_eq!(state, start());
    assert_eq!(state.menu_event("toggle"), toggled(true));
    assert!(state.is_overlay_visible());
}

#[test]
fn tray_opens_on_left_clicks_only() {
    assert!(tray_opens_settings(TrayEvent::Click(Button::Left)));
    assert!(tray_opens_settings(TrayEvent::DoubleClick(Button::Left)));
    assert!(!tray_opens_settings(TrayEvent::Click(Button::Right)));
    assert!(!tray_opens_settings(TrayEvent::DoubleClick(Button::Middle)));
    assert!(!tray_opens_settings(TrayEvent::Other));
}

#[test]
fn settings_window_is_built_once() {
    assert_eq!(ensure_main_window(true), None);
    let settings = ensure_main_window(false).unwrap();
    assert_eq!(settings.window, Window::Main);
    assert_eq!(settings.page, "index.html");
    assert_eq!(settings.title, "Own View - Settings");
    assert_eq!((settings.width, settings.height), (500, 600));
    assert!(!settings.resizable);
    assert!(settings.centered);
}

fn front() -> Vec<Action> {
    vec![
        Action::Show(Window::Main),
        Action::Unminimize(Window::Main),
        Action::Focus(Window::Main),
    ]
}

struct Desk {
    main_open: bool,
    can_build: bool,
    built: u32,
    attached: u32,
}

fn bring_up(desk: &mut Desk) -> Vec<Action> {
    let mut event = FocusEvent::Started(desk.main_open);
    for _ in 0..4 {
        event = match focus_main_window(event) {
            FocusStep::Build(settings) => {
                assert_eq!(Some(settings), ensure_main_window(false));
                desk.built += 1;
                desk.main_open = desk.can_build;
                FocusEvent::Built(desk.can_build)
            }
            FocusStep::Attach => {
                desk.attached += 1;
                FocusEvent::Attached
            }
            FocusStep::LookUp => FocusEvent::LookedUp(desk.main_open),
            FocusStep::Finish(actions) => return actions,
        };
    }
    panic!("bringing up the window did not end");
}

#[test]
fn settings_window_comes_to_the_front() {
    let mut desk = Desk { main_open: true, can_build: true, built: 0, attached: 0 };
    assert_eq!(bring_up(&mut desk), front());
    assert_eq!((desk.built, desk.attached), (0, 0));
}

#[test]
fn missing_settings_window_is_built_first() {
    let mut desk = Desk { main_open: false, can_build: true, built: 0, attached: 0 };
    assert_eq!(bring_up(&mut desk), front());
    assert_eq!(bring_up(&mut desk), front());
    assert_eq!((desk.built, desk.attached), (1, 1));
}

#[test]
fn settings_window_that_cannot_be_built_stays_away() {
    let mut desk = Desk { main_open: false, can_build: false, built: 0, attached: 0 };
    assert_eq!(bring_up(&mut desk), vec![]);
    assert_eq!((desk.built, desk.attached), (1, 0));
}

#[test]
fn settings_window_hides_instead_of_closing() {
    assert_eq!(
        close_main_window(true),
        vec![Action::PreventClose, Action::Hide(Window::Main)]
    );
    assert_eq!(close_main_window(false), vec![Action::PreventClose]);
}

#[test]
fn visibility_is_told_to_an_open_settings_window() {
    let mut actions = vec![Action::PreventClose];
    emit_overlay_visibility(&mut actions, true, true);
    emit_overlay_visibility(&mut actions, false, false);
    assert_eq!(actions, vec![Action::PreventClose, Action::EmitVisibility(true)]);
}

#[test]
fn windows_have_labels() {
    assert_eq!(Window::Main.label(), "main");
    assert_eq!(Window::Overlay.label(), "overlay");
}

#[test]
fn screen_has_a_default_size() {
    assert_eq!(get_screen_size(Some((2560, 1440))), (2560, 1440));
    assert_eq!(get_screen_size(None), (1920, 1080));
}

#[test]
fn other_window_events_do_nothing() {
    for main_open in vec![false, true] {
        assert_eq!(main_window_event(MainWindowEvent::Other, main_open), vec![]);
        assert_eq!(
            main_window_event(MainWindowEvent::CloseRequested, main_open),
            close_main_window(main_open)
        );
    }
}

#[test]
fn events_have_names() {
    assert_eq!(Action::EmitVisibility(true).event_name(), Some("overlay-visibility-changed"));
    assert_eq!(Action::EmitConfig(other()).event_name(), Some("config-updated"));
    assert_eq!(Action::Hide(Window::Main).event_name(), None);
    assert_eq!(Action::PreventClose.event_name(), None);
}

fn carry_out(file: &mut Option<AppConfig>, tasks: Vec<Task>) {
    for task in tasks {
        if let Task::SaveConfig(place, config) = task {
            assert_eq!(place, config_file(true));
            *file = Some(config);
        }
    }
}

#[test]
fn memory_and_file_agree_after_any_calls() {
    let mut state = start();
    let mut file = Some(state.get_config());
    for round in 0..30 {
        let tasks = match round % 5 {
            0 => state.update_config(other()),
            1 => state.set_mode(format!("mode {}", round)),
            2 => state.toggle_overlay(),
            3 => state.shortcut_event(Shortcut::Pressed),
            _ => state.menu_event("toggle"),
        };
        carry_out(&mut file, tasks);
        assert_eq!(file, Some(state.get_config()));
    }
    assert_eq!(state.get_config(), AppConfig { mode: "mode 26".to_string(), ..other() });
}
