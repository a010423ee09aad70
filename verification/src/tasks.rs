//! What the state asks to be done. A task for a window is decided on without
//! knowing whether the window is there; that is looked up when its turn comes.

use vstd::prelude::*;

use crate::config::{AppConfig, ConfigView};
use crate::overlay::{config_script, push_overlay_config};
use crate::places::{Location, LocationView};
use crate::windows::{
    action_views, emit_overlay_visibility, no_actions, push_action, visibility_actions, Action,
    ActionView, Window,
};

verus! {

/// A task for one window.
#[derive(Debug, PartialEq, Eq)]
pub enum WindowTask {
    /// Show the overlay, above all other windows.
    ShowOverlay,
    /// Hide the overlay.
    HideOverlay,
    /// Hand settings to the overlay's page.
    PushConfig(AppConfig),
    /// Tell the settings window whether the overlay is visible now.
    TellVisibility(bool),
    /// Tell the settings window what the settings are now.
    TellConfig(AppConfig),
}

/// Something to be done outside of the library.
#[derive(Debug, PartialEq, Eq)]
pub enum Task {
    /// Write a line to the log.
    Log(String),
    /// Write settings to a file.
    SaveConfig(Location, AppConfig),
    /// Bring the list of programs started at login in line.
    SyncAutoStart(bool),
    /// Look up whether the task's window is there, and serve it accordingly.
    OnWindow(WindowTask),
    /// Bring up the settings window.
    OpenSettings,
    /// End the application with an exit code.
    Exit(i32),
}

/// A window's task with its contents taken by their views.
pub enum WindowTaskView {
    ShowOverlay,
    HideOverlay,
    PushConfig(ConfigView),
    TellVisibility(bool),
    TellConfig(ConfigView),
}

/// A task with its contents taken by their views.
pub enum TaskView {
    Log(Seq<char>),
    SaveConfig(LocationView, ConfigView),
    SyncAutoStart(bool),
    OnWindow(WindowTaskView),
    OpenSettings,
    Exit(i32),
}

impl View for WindowTask {
    type V = WindowTaskView;

    open spec fn view(&self) -> WindowTaskView {
        match self {
            WindowTask::ShowOverlay => WindowTaskView::ShowOverlay,
            WindowTask::HideOverlay => WindowTaskView::HideOverlay,
            WindowTask::PushConfig(config) => WindowTaskView::PushConfig(config@),
            WindowTask::TellVisibility(visible) => WindowTaskView::TellVisibility(*visible),
            WindowTask::TellConfig(config) => WindowTaskView::TellConfig(config@),
        }
    }
}

impl View for Task {
    type V = TaskView;

    open spec fn view(&self) -> TaskView {
        match self {
            Task::Log(line) => TaskView::Log(line@),
            Task::SaveConfig(place, config) => TaskView::SaveConfig(place@, config@),
            Task::SyncAutoStart(auto_start) => TaskView::SyncAutoStart(*auto_start),
            Task::OnWindow(task) => TaskView::OnWindow(task@),
            Task::OpenSettings => TaskView::OpenSettings,
            Task::Exit(code) => TaskView::Exit(*code),
        }
    }
}

/// The window that a task is for.
pub open spec fn task_window(task: WindowTaskView) -> Window {
    match task {
        WindowTaskView::ShowOverlay => Window::Overlay,
        WindowTaskView::HideOverlay => Window::Overlay,
        WindowTaskView::PushConfig(_) => Window::Overlay,
        WindowTaskView::TellVisibility(_) => Window::Main,
        WindowTaskView::TellConfig(_) => Window::Main,
    }
}

/// What serves a window's task, by whether the window is there now: a window that
/// is not gets nothing.
pub open spec fn window_actions(task: WindowTaskView, open: bool) -> Seq<ActionView> {
    if !open {
        Seq::empty()
    } else {
        match task {
            WindowTaskView::ShowOverlay => seq![
                ActionView::Show(Window::Overlay),
                ActionView::KeepOnTop(Window::Overlay),
            ],
            WindowTaskView::HideOverlay => seq![ActionView::Hide(Window::Overlay)],
            WindowTaskView::PushConfig(config) => seq![
                ActionView::RunScript(Window::Overlay, config_script(config)),
            ],
            WindowTaskView::TellVisibility(visible) => visibility_actions(true, visible),
            WindowTaskView::TellConfig(config) => seq![ActionView::EmitConfig(config)],
        }
    }
}

impl WindowTask {
    /// The window concerned.
    pub fn window(&self) -> (window: Window)
        ensures
            window == task_window(self@),
    {
        match self {
            WindowTask::ShowOverlay => Window::Overlay,
            WindowTask::HideOverlay => Window::Overlay,
            WindowTask::PushConfig(_) => Window::Overlay,
            WindowTask::TellVisibility(_) => Window::Main,
            WindowTask::TellConfig(_) => Window::Main,
        }
    }

    /// What is done about it, by whether the window is there now.
    pub fn serve(self, open: bool) -> (actions: Vec<Action>)
        ensures
            action_views(actions@) == window_actions(self@, open),
    {
        let mut actions = no_actions();
        match self {
            WindowTask::ShowOverlay => {
                if open {
                    push_action(&mut actions, Action::Show(Window::Overlay));
                    push_action(&mut actions, Action::KeepOnTop(Window::Overlay));
                }
            },
            WindowTask::HideOverlay => {
                if open {
                    push_action(&mut actions, Action::Hide(Window::Overlay));
                }
            },
            WindowTask::PushConfig(config) => {
                match push_overlay_config(open, &config) {
                    Some(script) => push_action(
                        &mut actions,
                        Action::RunScript(Window::Overlay, script),
                    ),
                    None => {},
                }
            },
            WindowTask::TellVisibility(visible) => {
                emit_overlay_visibility(&mut actions, open, visible);
            },
            WindowTask::TellConfig(config) => {
                if open {
                    push_action(&mut actions, Action::EmitConfig(config));
                }
            },
        }
        assert(action_views(actions@) =~= window_actions(self@, open));
        actions
    }
}

/// Tasks with their contents taken by their views.
pub open spec fn task_views(tasks: Seq<Task>) -> Seq<TaskView> {
    tasks.map_values(|task: Task| task@)
}

/// Appends a task.
pub(crate) fn push_task(tasks: &mut Vec<Task>, task: Task)
    ensures
        task_views(final(tasks)@) == task_views(old(tasks)@).push(task@),
{
    tasks.push(task);
    assert(task_views(tasks@) =~= task_views(old(tasks)@).push(task@));
}

/// No tasks yet.
pub(crate) fn no_tasks() -> (tasks: Vec<Task>)
    ensures
        task_views(tasks@) == Seq::<TaskView>::empty(),
{
    let tasks: Vec<Task> = Vec::new();
    assert(task_views(tasks@) =~= Seq::<TaskView>::empty());
    tasks
}

/// A task reaches its own window with its own contents: the overlay is shown above all
/// others or hidden, its page gets the script of the settings in the task, and the settings
/// window is told the visibility or the settings in the task.
pub proof fn law_open_window_gets_the_task(visible: bool, config: ConfigView)
    ensures
        window_actions(WindowTaskView::ShowOverlay, true) == seq![
            ActionView::Show(Window::Overlay),
            ActionView::KeepOnTop(Window::Overlay),
        ],
        window_actions(WindowTaskView::HideOverlay, true) == seq![
            ActionView::Hide(Window::Overlay),
        ],
        window_actions(WindowTaskView::PushConfig(config), true) == seq![
            ActionView::RunScript(Window::Overlay, config_script(config)),
        ],
        window_actions(WindowTaskView::TellVisibility(visible), true) == seq![
            ActionView::EmitVisibility(visible),
        ],
        window_actions(WindowTaskView::TellConfig(config), true) == seq![
            ActionView::EmitConfig(config),
        ],
{
}

/// A window that is not there gets nothing, whatever the task is.
pub proof fn law_missing_window_gets_nothing(task: WindowTaskView)
    ensures
        window_actions(task, false).len() == 0,
{
}

/// What tells something is for the settings window, all else for the overlay.
pub proof fn law_tasks_have_their_window(task: WindowTaskView)
    ensures
        task_window(task) == Window::Main <==> task is TellVisibility || task is TellConfig,
{
}

/// Nothing of a task is lost or moved in its view.
pub proof fn law_task_views_keep_contents(
    task: WindowTask,
    flag: bool,
    config: AppConfig,
    line: String,
    place: Location,
    code: i32,
)
    ensures
        WindowTask::ShowOverlay@ == WindowTaskView::ShowOverlay,
        WindowTask::HideOverlay@ == WindowTaskView::HideOverlay,
        WindowTask::PushConfig(config)@ == WindowTaskView::PushConfig(config@),
        WindowTask::TellVisibility(flag)@ == WindowTaskView::TellVisibility(flag),
        WindowTask::TellConfig(config)@ == WindowTaskView::TellConfig(config@),
        Task::Log(line)@ == TaskView::Log(line@),
        Task::SaveConfig(place, config)@ == TaskView::SaveConfig(place@, config@),
        Task::SyncAutoStart(flag)@ == TaskView::SyncAutoStart(flag),
        Task::OnWindow(task)@ == TaskView::OnWindow(task@),
        Task::OpenSettings@ == TaskView::OpenSettings,
        Task::Exit(code)@ == TaskView::Exit(code),
{
}

/// Tasks are taken by their views one by one, in their order.
pub proof fn law_each_task_has_its_view(tasks: Seq<Task>)
    ensures
        task_views(tasks).len() == tasks.len(),
        forall|i: int| 0 <= i < tasks.len() ==> #[trigger] task_views(tasks)[i] == tasks[i]@,
{
}

} // verus!
