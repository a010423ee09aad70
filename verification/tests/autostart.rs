use own_view::autostart::{
    auto_start_warning, sync_auto_start_desktop, sync_auto_start_registry, DesktopEvent, DesktopStep, RegAction,
    RegExit, RegistryEvent, RegistryStep,
};
use own_view::places::{autostart_dir, desktop_file};

struct Desktop {
    exe: String,
    entry: Option<String>,
    turns: u32,
}

fn sync_desktop(desktop: &mut Desktop, auto_start: bool) -> Result<(), String> {
    desktop.turns = 0;
    let mut event = DesktopEvent::Started(true);
    loop {
        event = match sync_auto_start_desktop(auto_start, event) {
            DesktopStep::CreateDir(dir) => {
                assert_eq!(dir, autostart_dir());
                DesktopEvent::DirCreated(Ok(()))
            }
            DesktopStep::FindExe => DesktopEvent::ExeFound(Ok(desktop.exe.clone())),
            DesktopStep::CheckFile(file) => {
                assert_eq!(file, desktop_file());
                DesktopEvent::FileChecked(desktop.entry.is_some())
            }
            DesktopStep::WriteFile(file, text) => {
                assert_eq!(file, desktop_file());
                desktop.entry = Some(text);
                DesktopEvent::FileWritten(Ok(()))
            }
            DesktopStep::RemoveFile(file) => {
                assert_eq!(file, desktop_file());
                assert!(desktop.entry.is_some());
                desktop.entry = None;
                DesktopEvent::FileRemoved(Ok(()))
            }
            DesktopStep::Done(outcome) => return outcome,
        };
        desktop.turns += 1;
        assert!(desktop.turns <= 3);
    }
}

#[test]
fn desktop_entry_follows_the_setting() {
    let mut desktop =
        Desktop { exe: "/usr/bin/own view".to_string(), entry: None, turns: 0 };
    assert_eq!(sync_desktop(&mut desktop, false), Ok(()));
    assert_eq!(desktop.entry, None);
    let expected = "[Desktop Entry]\nType=Application\nVersion=1.0\nName=Own View\nExec=/usr/bin/own view\nX-GNOME-Autostart-enabled=true\n";
    assert_eq!(sync_desktop(&mut desktop, true), Ok(()));
    assert_eq!(desktop.entry.as_deref(), Some(expected));
    assert_eq!(sync_desktop(&mut desktop, true), Ok(()));
    assert_eq!(desktop.entry.as_deref(), Some(expected));
    assert_eq!(sync_desktop(&mut desktop, false), Ok(()));
    assert_eq!(desktop.entry, None);
}

fn desktop_outcome(auto_start: bool, event: DesktopEvent) -> Result<(), String> {
    match sync_auto_start_desktop(auto_start, event) {
        DesktopStep::Done(outcome) => outcome,
        _ => panic!("the work should be over"),
    }
}

#[test]
fn desktop_without_configuration_directory_fails() {
    for auto_start in vec![false, true] {
        assert_eq!(
            desktop_outcome(auto_start, DesktopEvent::Started(false)),
            Err("config directory unavailable".to_string())
        );
    }
}

#[test]
fn desktop_failures_keep_their_message() {
    let failed: Result<(), String> = Err("denied".to_string());
    for auto_start in vec![false, true] {
        assert_eq!(desktop_outcome(auto_start, DesktopEvent::DirCreated(failed.clone())), failed);
        assert_eq!(
            desktop_outcome(auto_start, DesktopEvent::ExeFound(Err("denied".to_string()))),
            failed
        );
        assert_eq!(desktop_outcome(auto_start, DesktopEvent::FileWritten(failed.clone())), failed);
        assert_eq!(desktop_outcome(auto_start, DesktopEvent::FileRemoved(failed.clone())), failed);
    }
}

struct Registry {
    value: Option<String>,
    turns: u32,
}

fn sync_registry(registry: &mut Registry, exe: &str, auto_start: bool) -> Result<(), String> {
    registry.turns = 0;
    let key = r"HKCU\Software\Microsoft\Windows\CurrentVersion\Run";
    let mut event = RegistryEvent::Started(Ok(exe.to_string()));
    loop {
        event = match sync_auto_start_registry(auto_start, event) {
            RegistryStep::Run(action, args) => {
                let success = match action {
                    RegAction::Add => {
                        let fixed = vec!["add", key, "/v", "OwnView", "/t", "REG_SZ", "/d"];
                        assert_eq!(&args[..7], &fixed[..]);
                        assert_eq!(args[8], "/f");
                        assert_eq!(args.len(), 9);
                        registry.value = Some(args[7].clone());
                        true
                    }
                    RegAction::Query => {
                        assert_eq!(args, vec!["query", key, "/v", "OwnView"]);
                        registry.value.is_some()
                    }
                    RegAction::Delete => {
                        assert_eq!(args, vec!["delete", key, "/v", "OwnView", "/f"]);
                        assert!(registry.value.is_some());
                        registry.value = None;
                        true
                    }
                };
                let status = format!("exit code: {}", if success { 0 } else { 1 });
                RegistryEvent::Ran(action, Ok(RegExit { success, status }))
            }
            RegistryStep::Done(outcome) => return outcome,
        };
        registry.turns += 1;
        assert!(registry.turns <= 2);
    }
}

#[test]
fn registry_follows_the_setting() {
    let mut registry = Registry { value: None, turns: 0 };
    assert_eq!(sync_registry(&mut registry, r"C:\own.exe", false), Ok(()));
    assert_eq!(registry.turns, 1);
    assert_eq!(sync_registry(&mut registry, r"C:\own.exe", true), Ok(()));
    assert_eq!(registry.value.as_deref(), Some(r"C:\own.exe"));
    assert_eq!(sync_registry(&mut registry, r"C:\own.exe", false), Ok(()));
    assert_eq!(registry.value, None);
}

#[test]
fn quotes_in_the_path_are_doubled() {
    let mut registry = Registry { value: None, turns: 0 };
    assert_eq!(sync_registry(&mut registry, r"C:\o'brien\'own'.exe", true), Ok(()));
    assert_eq!(registry.value.as_deref(), Some(r"C:\o''brien\''own''.exe"));
}

fn registry_outcome(auto_start: bool, event: RegistryEvent) -> Result<(), String> {
    match sync_auto_start_registry(auto_start, event) {
        RegistryStep::Done(outcome) => outcome,
        RegistryStep::Run(_, _) => panic!("the work should be over"),
    }
}

#[test]
fn registry_failures_are_reported() {
    for auto_start in vec![false, true] {
        let lost = RegistryEvent::Started(Err("no path".to_string()));
        assert_eq!(registry_outcome(auto_start, lost), Err("no path".to_string()));
        for action in vec![RegAction::Add, RegAction::Query, RegAction::Delete] {
            let failed = RegistryEvent::Ran(action, Err("not found".to_string()));
            assert_eq!(
                registry_outcome(auto_start, failed),
                Err("reg.exe failed: not found".to_string())
            );
        }
        for action in vec![RegAction::Add, RegAction::Delete] {
            let exit = RegExit { success: false, status: "exit code: 1".to_string() };
            assert_eq!(
                registry_outcome(auto_start, RegistryEvent::Ran(action, Ok(exit))),
                Err("reg.exe exited with status exit code: 1".to_string())
            );
        }
    }
}

#[test]
fn value_that_is_not_found_needs_no_deleting() {
    let exit = RegExit { success: false, status: "exit code: 1".to_string() };
    assert_eq!(registry_outcome(false, RegistryEvent::Ran(RegAction::Query, Ok(exit))), Ok(()));
}

#[test]
fn failed_sync_is_logged() {
    assert_eq!(auto_start_warning(Ok(())), None);
    assert_eq!(
        auto_start_warning(Err("denied".to_string())),
        Some("[WARN] auto start sync failed: denied".to_string())
    );
}
