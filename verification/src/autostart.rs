//! Keeping the system's list of programs that start at login in line with the
//! settings. Each function decides the next step from what has just happened;
//! the caller carries the steps out and reports back.

use vstd::prelude::*;

use crate::places::{
    autostart_dir, autostart_dir_at, desktop_file, desktop_file_at, Location, LocationView,
};

verus! {

/// An outcome with its message taken by its characters.
pub open spec fn outcome_view(outcome: Result<(), String>) -> Result<(), Seq<char>> {
    match outcome {
        Ok(_) => Ok(()),
        Err(message) => Err(message@),
    }
}

/// A text or a message, taken by its characters.
pub open spec fn text_view(text: Result<String, String>) -> Result<Seq<char>, Seq<char>> {
    match text {
        Ok(found) => Ok(found@),
        Err(message) => Err(message@),
    }
}

/// The line that is logged where the list of programs started at login could not be
/// brought in line. Nothing else follows from such a failure.
pub fn auto_start_warning(outcome: Result<(), String>) -> (line: Option<String>)
    ensures
        line is Some <==> outcome is Err,
        outcome matches Err(message) ==> line->0@ == "[WARN] auto start sync failed: "@ + message@,
{
    match outcome {
        Ok(_) => None,
        Err(message) => {
            let mut line = "[WARN] auto start sync failed: ".to_owned();
            line.append(message.as_str());
            Some(line)
        },
    }
}

/// What has happened so far on a desktop with an autostart directory.
pub enum DesktopEvent {
    /// The work begins; the flag says whether the configuration directory is
    /// known.
    Started(bool),
    /// The autostart directory was created, or not.
    DirCreated(Result<(), String>),
    /// The path of the running program was looked up.
    ExeFound(Result<String, String>),
    /// It was looked up whether the entry exists.
    FileChecked(bool),
    /// The entry was written, or not.
    FileWritten(Result<(), String>),
    /// The entry was removed, or not.
    FileRemoved(Result<(), String>),
}

/// What to do next on such a desktop.
pub enum DesktopStep {
    /// Create this directory, with its parents.
    CreateDir(Location),
    /// Look up the path of the running program.
    FindExe,
    /// Look up whether this file exists.
    CheckFile(Location),
    /// Write this text to this file.
    WriteFile(Location, String),
    /// Remove this file.
    RemoveFile(Location),
    /// The work is over.
    Done(Result<(), String>),
}

/// A desktop event with its contents taken by their views.
pub enum DesktopEventView {
    Started(bool),
    DirCreated(Result<(), Seq<char>>),
    ExeFound(Result<Seq<char>, Seq<char>>),
    FileChecked(bool),
    FileWritten(Result<(), Seq<char>>),
    FileRemoved(Result<(), Seq<char>>),
}

/// A desktop step with its contents taken by their views.
pub enum DesktopStepView {
    CreateDir(LocationView),
    FindExe,
    CheckFile(LocationView),
    WriteFile(LocationView, Seq<char>),
    RemoveFile(LocationView),
    Done(Result<(), Seq<char>>),
}

impl View for DesktopEvent {
    type V = DesktopEventView;

    open spec fn view(&self) -> DesktopEventView {
        match self {
            DesktopEvent::Started(known) => DesktopEventView::Started(*known),
            DesktopEvent::DirCreated(outcome) => DesktopEventView::DirCreated(
                outcome_view(*outcome),
            ),
            DesktopEvent::ExeFound(exe) => DesktopEventView::ExeFound(text_view(*exe)),
            DesktopEvent::FileChecked(exists) => DesktopEventView::FileChecked(*exists),
            DesktopEvent::FileWritten(outcome) => DesktopEventView::FileWritten(
                outcome_view(*outcome),
            ),
            DesktopEvent::FileRemoved(outcome) => DesktopEventView::FileRemoved(
                outcome_view(*outcome),
            ),
        }
    }
}

impl View for DesktopStep {
    type V = DesktopStepView;

    open spec fn view(&self) -> DesktopStepView {
        match self {
            DesktopStep::CreateDir(place) => DesktopStepView::CreateDir(place@),
            DesktopStep::FindExe => DesktopStepView::FindExe,
            DesktopStep::CheckFile(place) => DesktopStepView::CheckFile(place@),
            DesktopStep::WriteFile(place, text) => DesktopStepView::WriteFile(place@, text@),
            DesktopStep::RemoveFile(place) => DesktopStepView::RemoveFile(place@),
            DesktopStep::Done(outcome) => DesktopStepView::Done(outcome_view(*outcome)),
        }
    }
}

/// The desktop entry that starts the program at `exe`.
pub open spec fn desktop_entry(exe: Seq<char>) -> Seq<char> {
    "[Desktop Entry]\nType=Application\nVersion=1.0\nName=Own View\nExec="@ + exe
        + "\nX-GNOME-Autostart-enabled=true\n"@
}

/// What follows each event on a desktop: with auto-start the entry is written for
/// the running program, without it the entry is removed where it exists, and the
/// first failure ends the work.
pub open spec fn desktop_step(auto_start: bool, event: DesktopEventView) -> DesktopStepView {
    match event {
        DesktopEventView::Started(true) => DesktopStepView::CreateDir(autostart_dir_at()),
        DesktopEventView::Started(false) => DesktopStepView::Done(
            Err("config directory unavailable"@),
        ),
        DesktopEventView::DirCreated(Ok(_)) => if auto_start {
            DesktopStepView::FindExe
        } else {
            DesktopStepView::CheckFile(desktop_file_at())
        },
        DesktopEventView::ExeFound(Ok(exe)) => DesktopStepView::WriteFile(
            desktop_file_at(),
            desktop_entry(exe),
        ),
        DesktopEventView::FileChecked(true) => DesktopStepView::RemoveFile(desktop_file_at()),
        DesktopEventView::FileChecked(false) => DesktopStepView::Done(Ok(())),
        DesktopEventView::FileWritten(Ok(_)) => DesktopStepView::Done(Ok(())),
        DesktopEventView::FileRemoved(Ok(_)) => DesktopStepView::Done(Ok(())),
        DesktopEventView::DirCreated(Err(message)) => DesktopStepView::Done(Err(message)),
        DesktopEventView::ExeFound(Err(message)) => DesktopStepView::Done(Err(message)),
        DesktopEventView::FileWritten(Err(message)) => DesktopStepView::Done(Err(message)),
        DesktopEventView::FileRemoved(Err(message)) => DesktopStepView::Done(Err(message)),
    }
}

fn build_desktop_entry(exe: &str) -> (entry: String)
    ensures
        entry@ == desktop_entry(exe@),
{
    let mut entry =
        "[Desktop Entry]\nType=Application\nVersion=1.0\nName=Own View\nExec=".to_owned();
    entry.append(exe);
    entry.append("\nX-GNOME-Autostart-enabled=true\n");
    entry
}

/// Decides the next step of bringing the desktop's autostart entry in line.
pub fn sync_auto_start_desktop(auto_start: bool, event: DesktopEvent) -> (step: DesktopStep)
    ensures
        step@ == desktop_step(auto_start, event@),
{
    match event {
        DesktopEvent::Started(config_dir_known) => if config_dir_known {
            DesktopStep::CreateDir(autostart_dir())
        } else {
            DesktopStep::Done(Err("config directory unavailable".to_owned()))
        },
        DesktopEvent::DirCreated(Ok(_)) => if auto_start {
            DesktopStep::FindExe
        } else {
            DesktopStep::CheckFile(desktop_file())
        },
        DesktopEvent::DirCreated(Err(message)) => DesktopStep::Done(Err(message)),
        DesktopEvent::ExeFound(Ok(exe)) => DesktopStep::WriteFile(
            desktop_file(),
            build_desktop_entry(exe.as_str()),
        ),
        DesktopEvent::ExeFound(Err(message)) => DesktopStep::Done(Err(message)),
        DesktopEvent::FileChecked(exists) => if exists {
            DesktopStep::RemoveFile(desktop_file())
        } else {
            DesktopStep::Done(Ok(()))
        },
        DesktopEvent::FileWritten(outcome) => DesktopStep::Done(outcome),
        DesktopEvent::FileRemoved(outcome) => DesktopStep::Done(outcome),
    }
}

/// A desktop on which every step succeeds: the path of the running program, and
/// the text of the autostart entry, if there is one.
pub struct Desktop {
    pub exe: Seq<char>,
    pub entry: Option<Seq<char>>,
}

/// What carrying out a step on such a desktop reports.
pub open spec fn desktop_reply(desktop: Desktop, step: DesktopStepView) -> DesktopEventView {
    match step {
        DesktopStepView::CreateDir(_) => DesktopEventView::DirCreated(Ok(())),
        DesktopStepView::FindExe => DesktopEventView::ExeFound(Ok(desktop.exe)),
        DesktopStepView::CheckFile(_) => DesktopEventView::FileChecked(desktop.entry is Some),
        DesktopStepView::WriteFile(_, _) => DesktopEventView::FileWritten(Ok(())),
        _ => DesktopEventView::FileRemoved(Ok(())),
    }
}

/// The desktop after carrying out a step.
pub open spec fn desktop_after(desktop: Desktop, step: DesktopStepView) -> Desktop {
    match step {
        DesktopStepView::WriteFile(place, text) => if place == desktop_file_at() {
            Desktop { entry: Some(text), ..desktop }
        } else {
            desktop
        },
        DesktopStepView::RemoveFile(place) => if place == desktop_file_at() {
            Desktop { entry: None, ..desktop }
        } else {
            desktop
        },
        _ => desktop,
    }
}

/// The step reached after at most `turns` turns, and the desktop at that time.
pub open spec fn desktop_run(
    auto_start: bool,
    desktop: Desktop,
    event: DesktopEventView,
    turns: nat,
) -> (DesktopStepView, Desktop)
    decreases turns,
{
    let step = desktop_step(auto_start, event);
    if step is Done || turns == 0 {
        (step, desktop)
    } else {
        desktop_run(
            auto_start,
            desktop_after(desktop, step),
            desktop_reply(desktop, step),
            (turns - 1) as nat,
        )
    }
}

/// Where no step fails, the work ends well after at most three turns, and then the
/// entry exists, for the running program, just if auto-start is on; whatever was
/// there before.
pub proof fn law_desktop_follows_settings(auto_start: bool, desktop: Desktop)
    ensures
        desktop_run(auto_start, desktop, DesktopEventView::Started(true), 3) == (
            DesktopStepView::Done(Ok(())),
            Desktop {
                exe: desktop.exe,
                entry: if auto_start {
                    Some(desktop_entry(desktop.exe))
                } else {
                    None
                },
            },
        ),
{
    reveal_with_fuel(desktop_run, 4);
}

/// The first failure on a desktop ends the work, with its own message.
pub proof fn law_desktop_failure_is_reported(auto_start: bool, message: Seq<char>)
    ensures
        desktop_step(auto_start, DesktopEventView::DirCreated(Err(message)))
            == DesktopStepView::Done(Err(message)),
        desktop_step(auto_start, DesktopEventView::ExeFound(Err(message)))
            == DesktopStepView::Done(Err(message)),
        desktop_step(auto_start, DesktopEventView::FileWritten(Err(message)))
            == DesktopStepView::Done(Err(message)),
        desktop_step(auto_start, DesktopEventView::FileRemoved(Err(message)))
            == DesktopStepView::Done(Err(message)),
{
}

/// A change or a look-up in the registry.
#[derive(Clone, Copy, Debug, PartialEq, Eq, Structural)]
pub enum RegAction {
    Add,
    Query,
    Delete,
}

/// How a run of the registry tool ended.
#[derive(Debug, PartialEq, Eq)]
pub struct RegExit {
    pub success: bool,
    /// The exit status, in words.
    pub status: String,
}

/// What has happened so far on a system with a registry.
pub enum RegistryEvent {
    /// The work begins; the path of the running program was looked up.
    Started(Result<String, String>),
    /// The registry tool ran, or could not be run.
    Ran(RegAction, Result<RegExit, String>),
}

/// What to do next on such a system.
pub enum RegistryStep {
    /// Run the registry tool with these arguments.
    Run(RegAction, Vec<String>),
    /// The work is over.
    Done(Result<(), String>),
}

/// A run's end with its status taken by its characters.
pub struct RegExitView {
    pub success: bool,
    pub status: Seq<char>,
}

/// A registry event with its contents taken by their views.
pub enum RegistryEventView {
    Started(Result<Seq<char>, Seq<char>>),
    Ran(RegAction, Result<RegExitView, Seq<char>>),
}

/// A registry step with its contents taken by their views.
pub enum RegistryStepView {
    Run(RegAction, Seq<Seq<char>>),
    Done(Result<(), Seq<char>>),
}

/// A run's end, or the message of why there was none.
pub open spec fn exit_view(exit: Result<RegExit, String>) -> Result<RegExitView, Seq<char>> {
    match exit {
        Ok(end) => Ok(RegExitView { success: end.success, status: end.status@ }),
        Err(message) => Err(message@),
    }
}

impl View for RegistryEvent {
    type V = RegistryEventView;

    open spec fn view(&self) -> RegistryEventView {
        match self {
            RegistryEvent::Started(exe) => RegistryEventView::Started(text_view(*exe)),
            RegistryEvent::Ran(action, exit) => RegistryEventView::Ran(*action, exit_view(*exit)),
        }
    }
}

impl View for RegistryStep {
    type V = RegistryStepView;

    open spec fn view(&self) -> RegistryStepView {
        match self {
            RegistryStep::Run(action, args) => RegistryStepView::Run(
                *action,
                args@.map_values(|arg: String| arg@),
            ),
            RegistryStep::Done(outcome) => RegistryStepView::Done(outcome_view(*outcome)),
        }
    }
}

/// A text with each single quote doubled.
pub open spec fn quotes_doubled(s: Seq<char>) -> Seq<char>
    decreases s.len(),
{
    if s.len() == 0 {
        Seq::empty()
    } else if s.last() == '\'' {
        quotes_doubled(s.drop_last()) + seq!['\'', '\'']
    } else {
        quotes_doubled(s.drop_last()).push(s.last())
    }
}

/// The key that lists the programs started at login.
pub const RUN_KEY: &'static str = r"HKCU\Software\Microsoft\Windows\CurrentVersion\Run";

/// The registry tool's arguments for an action; adding takes the value to store.
pub open spec fn reg_args(action: RegAction, value: Seq<char>) -> Seq<Seq<char>> {
    match action {
        RegAction::Add => seq![
            "add"@,
            RUN_KEY@,
            "/v"@,
            "OwnView"@,
            "/t"@,
            "REG_SZ"@,
            "/d"@,
            value,
            "/f"@,
        ],
        RegAction::Query => seq!["query"@, RUN_KEY@, "/v"@, "OwnView"@],
        RegAction::Delete => seq!["delete"@, RUN_KEY@, "/v"@, "OwnView"@, "/f"@],
    }
}

/// What follows each event on a system with a registry: with auto-start the value
/// is added, without it the value is deleted if a query finds it.
pub open spec fn registry_step(auto_start: bool, event: RegistryEventView) -> RegistryStepView {
    match event {
        RegistryEventView::Started(Ok(exe)) => if auto_start {
            RegistryStepView::Run(RegAction::Add, reg_args(RegAction::Add, quotes_doubled(exe)))
        } else {
            RegistryStepView::Run(RegAction::Query, reg_args(RegAction::Query, Seq::empty()))
        },
        RegistryEventView::Started(Err(message)) => RegistryStepView::Done(Err(message)),
        RegistryEventView::Ran(_, Err(message)) => RegistryStepView::Done(
            Err("reg.exe failed: "@ + message),
        ),
        RegistryEventView::Ran(RegAction::Query, Ok(end)) => if end.success {
            RegistryStepView::Run(RegAction::Delete, reg_args(RegAction::Delete, Seq::empty()))
        } else {
            RegistryStepView::Done(Ok(()))
        },
        RegistryEventView::Ran(_, Ok(end)) => if end.success {
            RegistryStepView::Done(Ok(()))
        } else {
            RegistryStepView::Done(Err("reg.exe exited with status "@ + end.status))
        },
    }
}

fn double_quotes(s: &str) -> (doubled: String)
    ensures
        doubled@ == quotes_doubled(s@),
{
    let mut doubled = String::new();
    for c in it: s.chars()
        invariant
            it.seq() == s@,
            doubled@ == quotes_doubled(s@.take(it.index() as int)),
    {
        assert(s@.take(it.index() + 1).drop_last() =~= s@.take(it.index() as int));
        let ghost before = doubled@;
        if c == '\'' {
            doubled.push('\'');
            doubled.push('\'');
            assert(doubled@ =~= before + seq!['\'', '\'']);
        } else {
            doubled.push(c);
        }
    }
    assert(s@.take(s@.len() as int) =~= s@);
    doubled
}

fn build_reg_args(action: RegAction, value: String) -> (args: Vec<String>)
    ensures
        args@.map_values(|arg: String| arg@) == reg_args(action, value@),
{
    let mut args: Vec<String> = Vec::new();
    match action {
        RegAction::Add => args.push("add".to_owned()),
        RegAction::Query => args.push("query".to_owned()),
        RegAction::Delete => args.push("delete".to_owned()),
    }
    args.push(RUN_KEY.to_owned());
    args.push("/v".to_owned());
    args.push("OwnView".to_owned());
    match action {
        RegAction::Add => {
            args.push("/t".to_owned());
            args.push("REG_SZ".to_owned());
            args.push("/d".to_owned());
            args.push(value);
            args.push("/f".to_owned());
        },
        RegAction::Query => {},
        RegAction::Delete => {
            args.push("/f".to_owned());
        },
    }
    assert(args@.map_values(|arg: String| arg@) =~= reg_args(action, value@));
    args
}

/// Decides the next step of bringing the registry's list in line.
pub fn sync_auto_start_registry(auto_start: bool, event: RegistryEvent) -> (step: RegistryStep)
    ensures
        step@ == registry_step(auto_start, event@),
{
    match event {
        RegistryEvent::Started(Ok(exe)) => if auto_start {
            RegistryStep::Run(
                RegAction::Add,
                build_reg_args(RegAction::Add, double_quotes(exe.as_str())),
            )
        } else {
            RegistryStep::Run(RegAction::Query, build_reg_args(RegAction::Query, String::new()))
        },
        RegistryEvent::Started(Err(message)) => RegistryStep::Done(Err(message)),
        RegistryEvent::Ran(_, Err(message)) => {
            let mut text = "reg.exe failed: ".to_owned();
            text.append(message.as_str());
            RegistryStep::Done(Err(text))
        },
        RegistryEvent::Ran(action, Ok(end)) => {
            let query = match action {
                RegAction::Query => true,
                RegAction::Add | RegAction::Delete => false,
            };
            if query && end.success {
                RegistryStep::Run(
                    RegAction::Delete,
                    build_reg_args(RegAction::Delete, String::new()),
                )
            } else if query || end.success {
                RegistryStep::Done(Ok(()))
            } else {
                let mut text = "reg.exe exited with status ".to_owned();
                text.append(end.status.as_str());
                RegistryStep::Done(Err(text))
            }
        },
    }
}

/// A registry whose tool always runs: the path of the running program, and the
/// value stored for it, if there is one.
pub struct Registry {
    pub exe: Seq<char>,
    pub value: Option<Seq<char>>,
}

/// How the tool ends when it is run on such a registry: looking up or deleting
/// succeeds just if the value is there.
pub open spec fn registry_reply(registry: Registry, step: RegistryStepView) -> RegistryEventView {
    match step {
        RegistryStepView::Run(action, _) => RegistryEventView::Ran(
            action,
            Ok(
                RegExitView {
                    success: action == RegAction::Add || registry.value is Some,
                    status: Seq::empty(),
                },
            ),
        ),
        RegistryStepView::Done(_) => RegistryEventView::Started(Ok(registry.exe)),
    }
}

/// The registry after the tool was run on it.
pub open spec fn registry_after(registry: Registry, step: RegistryStepView) -> Registry {
    match step {
        RegistryStepView::Run(RegAction::Add, args) => Registry {
            value: Some(args[7]),
            ..registry
        },
        RegistryStepView::Run(RegAction::Delete, _) => Registry { value: None, ..registry },
        _ => registry,
    }
}

/// The step reached after at most `turns` turns, and the registry at that time.
pub open spec fn registry_run(
    auto_start: bool,
    registry: Registry,
    event: RegistryEventView,
    turns: nat,
) -> (RegistryStepView, Registry)
    decreases turns,
{
    let step = registry_step(auto_start, event);
    if step is Done || turns == 0 {
        (step, registry)
    } else {
        registry_run(
            auto_start,
            registry_after(registry, step),
            registry_reply(registry, step),
            (turns - 1) as nat,
        )
    }
}

/// Where the tool runs, the work ends well after at most two turns, and then the
/// value is stored, for the running program, just if auto-start is on; whatever
/// was there before. In particular a value that is missing is never deleted.
pub proof fn law_registry_follows_settings(auto_start: bool, registry: Registry)
    ensures
        registry_run(auto_start, registry, RegistryEventView::Started(Ok(registry.exe)), 2) == (
            RegistryStepView::Done(Ok(())),
            Registry {
                exe: registry.exe,
                value: if auto_start {
                    Some(quotes_doubled(registry.exe))
                } else {
                    None
                },
            },
        ),
{
    reveal_with_fuel(registry_run, 3);
}

/// A path without a single quote is stored as it is.
pub proof fn law_paths_without_quotes_are_kept(path: Seq<char>)
    requires
        !path.contains('\''),
    ensures
        quotes_doubled(path) == path,
    decreases path.len(),
{
    if path.len() > 0 {
        assert(path.last() == path[path.len() - 1]);
        assert forall|i: int| 0 <= i < path.len() - 1 implies path.drop_last()[i] != '\'' by {
            assert(path[i] == path.drop_last()[i]);
        }
        law_paths_without_quotes_are_kept(path.drop_last());
        assert(path =~= path.drop_last().push(path.last()));
    } else {
        assert(quotes_doubled(path) =~= path);
    }
}

/// The entry starts the program at the path given: the path stands whole behind `Exec=`, on
/// a line of its own between the fixed lines.
pub proof fn law_entry_starts_the_program(exe: Seq<char>)
    ensures
        ({
            let head = "[Desktop Entry]\nType=Application\nVersion=1.0\nName=Own View\nExec="@;
            let tail = "\nX-GNOME-Autostart-enabled=true\n"@;
            let entry = desktop_entry(exe);
            &&& entry.len() == head.len() + exe.len() + tail.len()
            &&& entry.take(head.len() as int) == head
            &&& entry.subrange(head.len() as int, (head.len() + exe.len()) as int) == exe
            &&& entry.skip((head.len() + exe.len()) as int) == tail
        }),
{
    let head = "[Desktop Entry]\nType=Application\nVersion=1.0\nName=Own View\nExec="@;
    let tail = "\nX-GNOME-Autostart-enabled=true\n"@;
    let entry = desktop_entry(exe);
    assert(entry.take(head.len() as int) =~= head);
    assert(entry.subrange(head.len() as int, (head.len() + exe.len()) as int) =~= exe);
    assert(entry.skip((head.len() + exe.len()) as int) =~= tail);
}

/// With auto-start the entry is written for the program that was found, whichever it is;
/// without it the entry is looked up, and removed just if it is there. The directory comes
/// first, and without a configuration directory there is nothing to do.
pub proof fn law_order_of_desktop_steps(auto_start: bool, exe: Seq<char>)
    ensures
        desktop_step(auto_start, DesktopEventView::Started(true)) == DesktopStepView::CreateDir(
            autostart_dir_at(),
        ),
        desktop_step(auto_start, DesktopEventView::Started(false)) == DesktopStepView::Done(
            Err("config directory unavailable"@),
        ),
        desktop_step(true, DesktopEventView::DirCreated(Ok(()))) == DesktopStepView::FindExe,
        desktop_step(false, DesktopEventView::DirCreated(Ok(()))) == DesktopStepView::CheckFile(
            desktop_file_at(),
        ),
        desktop_step(auto_start, DesktopEventView::ExeFound(Ok(exe)))
            == DesktopStepView::WriteFile(desktop_file_at(), desktop_entry(exe)),
        desktop_step(auto_start, DesktopEventView::FileChecked(true))
            == DesktopStepView::RemoveFile(desktop_file_at()),
        desktop_step(auto_start, DesktopEventView::FileChecked(false)) == DesktopStepView::Done(
            Ok(()),
        ),
        desktop_step(auto_start, DesktopEventView::FileWritten(Ok(()))) == DesktopStepView::Done(
            Ok(()),
        ),
        desktop_step(auto_start, DesktopEventView::FileRemoved(Ok(()))) == DesktopStepView::Done(
            Ok(()),
        ),
{
}

/// Quotes are doubled one by one: a text in two parts becomes its parts, each with its
/// quotes doubled, and of single characters only the quote changes.
pub proof fn law_quotes_are_doubled_one_by_one(a: Seq<char>, b: Seq<char>, c: char)
    ensures
        quotes_doubled(Seq::empty()).len() == 0,
        quotes_doubled(a + b) == quotes_doubled(a) + quotes_doubled(b),
        c != '\'' ==> quotes_doubled(seq![c]) == seq![c],
        quotes_doubled(seq!['\'']) == seq!['\'', '\''],
    decreases b.len(),
{
    reveal_with_fuel(quotes_doubled, 2);
    assert(seq![c].drop_last() =~= Seq::empty());
    assert(seq!['\''].drop_last() =~= Seq::empty());
    assert(c != '\'' ==> quotes_doubled(seq![c]) =~= seq![c]);
    assert(quotes_doubled(seq!['\'']) =~= seq!['\'', '\'']);
    if b.len() == 0 {
        assert(a + b =~= a);
        assert(quotes_doubled(a) + quotes_doubled(b) =~= quotes_doubled(a));
    } else {
        law_quotes_are_doubled_one_by_one(a, b.drop_last(), c);
        assert((a + b).drop_last() =~= a + b.drop_last());
        assert((a + b).last() == b.last());
        assert(quotes_doubled(a + b) =~= quotes_doubled(a) + quotes_doubled(b));
    }
}

/// The tool is always run on the one value under the one key: adding stores the value
/// given as a string, without a question, and deleting asks no question either.
pub proof fn law_registry_arguments_name_the_value(value: Seq<char>)
    ensures
        ({
            let add = reg_args(RegAction::Add, value);
            let query = reg_args(RegAction::Query, value);
            let delete = reg_args(RegAction::Delete, value);
            let target = seq![
                r"HKCU\Software\Microsoft\Windows\CurrentVersion\Run"@,
                "/v"@,
                "OwnView"@,
            ];
            &&& add[0] == "add"@ && query[0] == "query"@ && delete[0] == "delete"@
            &&& add.subrange(1, 4) == target
            &&& add.skip(4) == seq!["/t"@, "REG_SZ"@, "/d"@, value, "/f"@]
            &&& query.skip(1) == target
            &&& delete.skip(1) == target.push("/f"@)
        }),
{
    let add = reg_args(RegAction::Add, value);
    let query = reg_args(RegAction::Query, value);
    let delete = reg_args(RegAction::Delete, value);
    let target = seq![RUN_KEY@, "/v"@, "OwnView"@];
    assert(add.subrange(1, 4) =~= target);
    assert(add.skip(4) =~= seq!["/t"@, "REG_SZ"@, "/d"@, value, "/f"@]);
    assert(query.skip(1) =~= target);
    assert(delete.skip(1) =~= target.push("/f"@));
}

/// With auto-start the value is added for the program that was found, whichever it is;
/// without it the value is queried, and deleted just if the query succeeds.
pub proof fn law_order_of_registry_steps(auto_start: bool, exe: Seq<char>, status: Seq<char>)
    ensures
        registry_step(true, RegistryEventView::Started(Ok(exe))) == RegistryStepView::Run(
            RegAction::Add,
            reg_args(RegAction::Add, quotes_doubled(exe)),
        ),
        registry_step(false, RegistryEventView::Started(Ok(exe))) == RegistryStepView::Run(
            RegAction::Query,
            reg_args(RegAction::Query, Seq::empty()),
        ),
        registry_step(
            auto_start,
            RegistryEventView::Ran(RegAction::Query, Ok(RegExitView { success: true, status })),
        ) == RegistryStepView::Run(
            RegAction::Delete,
            reg_args(RegAction::Delete, Seq::empty()),
        ),
        registry_step(
            auto_start,
            RegistryEventView::Ran(RegAction::Query, Ok(RegExitView { success: false, status })),
        ) == RegistryStepView::Done(Ok(())),
        forall|action: RegAction|
            action != RegAction::Query ==> #[trigger] registry_step(
                auto_start,
                RegistryEventView::Ran(action, Ok(RegExitView { success: true, status })),
            ) == RegistryStepView::Done(Ok(())),
{
}

/// A failure ends the work with its own message: that of the look-up as it is, that of a
/// tool that did not run, and the exit status of one that could not add or delete, each
/// behind what names it.
pub proof fn law_registry_failure_is_reported(
    auto_start: bool,
    action: RegAction,
    message: Seq<char>,
)
    ensures
        registry_step(auto_start, RegistryEventView::Started(Err(message)))
            == RegistryStepView::Done(Err(message)),
        registry_step(auto_start, RegistryEventView::Ran(action, Err(message)))
            == RegistryStepView::Done(Err("reg.exe failed: "@ + message)),
        action != RegAction::Query ==> registry_step(
            auto_start,
            RegistryEventView::Ran(action, Ok(RegExitView { success: false, status: message })),
        ) == RegistryStepView::Done(Err("reg.exe exited with status "@ + message)),
{
}

/// Nothing of an outcome, a text or a run's end is lost or moved in its view.
pub proof fn law_outcome_views_keep_contents(text: String, success: bool, status: String)
    ensures
        outcome_view(Ok(())) == Ok::<(), Seq<char>>(()),
        outcome_view(Err(text)) == Err::<(), Seq<char>>(text@),
        text_view(Ok(text)) == Ok::<Seq<char>, Seq<char>>(text@),
        text_view(Err(text)) == Err::<Seq<char>, Seq<char>>(text@),
        exit_view(Ok(RegExit { success, status })) == Ok::<RegExitView, Seq<char>>(
            RegExitView { success, status: status@ },
        ),
        exit_view(Err(text)) == Err::<RegExitView, Seq<char>>(text@),
{
}

/// Nothing of a desktop event or step is lost or moved in its view.
pub proof fn law_desktop_views_keep_contents(
    flag: bool,
    outcome: Result<(), String>,
    exe: Result<String, String>,
    place: Location,
    text: String,
)
    ensures
        DesktopEvent::Started(flag)@ == DesktopEventView::Started(flag),
        DesktopEvent::DirCreated(outcome)@ == DesktopEventView::DirCreated(outcome_view(outcome)),
        DesktopEvent::ExeFound(exe)@ == DesktopEventView::ExeFound(text_view(exe)),
        DesktopEvent::FileChecked(flag)@ == DesktopEventView::FileChecked(flag),
        DesktopEvent::FileWritten(outcome)@ == DesktopEventView::FileWritten(
            outcome_view(outcome),
        ),
        DesktopEvent::FileRemoved(outcome)@ == DesktopEventView::FileRemoved(
            outcome_view(outcome),
        ),
        DesktopStep::CreateDir(place)@ == DesktopStepView::CreateDir(place@),
        DesktopStep::FindExe@ == DesktopStepView::FindExe,
        DesktopStep::CheckFile(place)@ == DesktopStepView::CheckFile(place@),
        DesktopStep::WriteFile(place, text)@ == DesktopStepView::WriteFile(place@, text@),
        DesktopStep::RemoveFile(place)@ == DesktopStepView::RemoveFile(place@),
        DesktopStep::Done(outcome)@ == DesktopStepView::Done(outcome_view(outcome)),
{
}

/// Nothing of a registry event or step is lost or moved in its view.
pub proof fn law_registry_views_keep_contents(
    exe: Result<String, String>,
    action: RegAction,
    exit: Result<RegExit, String>,
    args: Vec<String>,
    outcome: Result<(), String>,
)
    ensures
        RegistryEvent::Started(exe)@ == RegistryEventView::Started(text_view(exe)),
        RegistryEvent::Ran(action, exit)@ == RegistryEventView::Ran(action, exit_view(exit)),
        RegistryStep::Done(outcome)@ == RegistryStepView::Done(outcome_view(outcome)),
        RegistryStep::Run(action, args)@ matches RegistryStepView::Run(same, texts) && same
            == action && texts.len() == args@.len() && forall|i: int|
            0 <= i < args@.len() ==> #[trigger] texts[i] == args@[i]@,
{
}

} // verus!
