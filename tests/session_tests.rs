use hdm_api::session::{ProcessError, ProcessEvent, Session, SessionCommand};

fn running(handle: u32) -> Session {
    let mut s = Session::new("Hyprland", "Hyprland");
    assert_eq!(s.start(), SessionCommand::Spawn);
    assert_eq!(s.on_event(ProcessEvent::Spawned(handle)), SessionCommand::Finished);
    s
}

#[test]
fn new_session_owns_no_process() {
    let s = Session::new("Sway", "sway");
    assert_eq!(s.name, "Sway");
    assert_eq!(s.command, "sway");
    assert_eq!(s.child(), None);
    assert!(!s.is_running());
    assert!(s.is_idle());
}

#[test]
fn start_spawns_and_records_the_handle() {
    let s = running(7);
    assert_eq!(s.child(), Some(7));
    assert!(s.is_idle());
}

#[test]
fn start_of_running_session_is_refused_and_keeps_handle() {
    let mut s = running(7);
    assert_eq!(s.start(), SessionCommand::Failed(ProcessError::AlreadyRunning));
    assert_eq!(s.child(), Some(7));
    assert!(s.is_idle());
}

#[test]
fn failed_spawn_leaves_session_stopped() {
    let mut s = Session::new("Sway", "sway");
    assert_eq!(s.start(), SessionCommand::Spawn);
    assert_eq!(s.on_event(ProcessEvent::SpawnFailed), SessionCommand::Failed(ProcessError::Spawn));
    assert_eq!(s.child(), None);
    assert!(s.is_idle());
}

#[test]
fn stop_of_never_started_session_is_a_no_op() {
    let mut s = Session::new("Sway", "sway");
    assert_eq!(s.stop(), SessionCommand::Finished);
    assert_eq!(s.child(), None);
    assert!(s.is_idle());
}

#[test]
fn stop_clears_handle_only_after_confirmed_exit() {
    let mut s = running(9);
    assert_eq!(s.stop(), SessionCommand::Terminate(9));
    assert_eq!(s.child(), Some(9));
    assert_eq!(s.on_event(ProcessEvent::Exited), SessionCommand::Finished);
    assert_eq!(s.child(), None);
}

#[test]
fn failed_termination_keeps_the_handle() {
    let mut s = running(9);
    assert_eq!(s.stop(), SessionCommand::Terminate(9));
    assert_eq!(
        s.on_event(ProcessEvent::TerminateFailed),
        SessionCommand::Failed(ProcessError::Terminate)
    );
    assert_eq!(s.child(), Some(9));
    assert!(s.is_idle());
}

#[test]
fn restart_stops_then_starts() {
    let mut s = running(3);
    assert_eq!(s.restart(), SessionCommand::Terminate(3));
    assert_eq!(s.on_event(ProcessEvent::Exited), SessionCommand::Spawn);
    assert_eq!(s.child(), None);
    assert_eq!(s.on_event(ProcessEvent::Spawned(4)), SessionCommand::Finished);
    assert_eq!(s.child(), Some(4));
}

#[test]
fn restart_of_stopped_session_only_starts() {
    let mut s = Session::new("Sway", "sway");
    assert_eq!(s.restart(), SessionCommand::Spawn);
    assert_eq!(s.on_event(ProcessEvent::Spawned(5)), SessionCommand::Finished);
    assert_eq!(s.child(), Some(5));
}

#[test]
fn switch_of_running_session_ends_with_only_the_new_process() {
    let mut s = running(10);
    assert_eq!(s.switch_session("sway", "Sway"), SessionCommand::Terminate(10));
    assert_eq!(s.name, "Hyprland");
    assert_eq!(s.on_event(ProcessEvent::Exited), SessionCommand::Spawn);
    assert_eq!(s.child(), None);
    assert_eq!(s.name, "Sway");
    assert_eq!(s.command, "sway");
    assert_eq!(s.on_event(ProcessEvent::Spawned(11)), SessionCommand::Finished);
    assert_eq!(s.child(), Some(11));
    assert!(s.is_idle());
}

#[test]
fn switch_with_failed_stop_keeps_old_binding() {
    let mut s = running(10);
    assert_eq!(s.switch_session("sway", "Sway"), SessionCommand::Terminate(10));
    assert_eq!(
        s.on_event(ProcessEvent::TerminateFailed),
        SessionCommand::Failed(ProcessError::Terminate)
    );
    assert_eq!(s.child(), Some(10));
    assert_eq!(s.name, "Hyprland");
    assert_eq!(s.command, "Hyprland");
}

#[test]
fn switch_of_stopped_session_rebinds_and_starts() {
    let mut s = Session::new("Hyprland", "Hyprland");
    assert_eq!(s.switch_session("sway", "Sway"), SessionCommand::Spawn);
    assert_eq!(s.name, "Sway");
    assert_eq!(s.command, "sway");
}

#[test]
fn desktop_entry_keeps_first_word_of_exec() {
    let text = "[Desktop Entry]\nName=Hyprland\nComment=An intelligent compositor\nExec=Hyprland %U --flag\nType=Application\n";
    let s = Session::from_desktop_entry(text).expect("session");
    assert_eq!(s.name, "Hyprland");
    assert_eq!(s.command, "Hyprland");
    assert!(!s.is_running());
}

#[test]
fn desktop_entry_hidden_or_nodisplay_is_excluded() {
    assert!(Session::from_desktop_entry("Name=A\nExec=a\nHidden=true").is_none());
    assert!(Session::from_desktop_entry("NoDisplay=true\nName=A\nExec=a").is_none());
    assert!(Session::from_desktop_entry("Name=A\nExec=a\nHidden=false").is_some());
}

#[test]
fn desktop_entry_without_name_or_exec_is_excluded() {
    assert!(Session::from_desktop_entry("Exec=a").is_none());
    assert!(Session::from_desktop_entry("Name=A").is_none());
    assert!(Session::from_desktop_entry("Name=A\nExec=").is_none());
    assert!(Session::from_desktop_entry("").is_none());
}

#[test]
fn desktop_entry_later_lines_replace_earlier_ones() {
    let s = Session::from_desktop_entry("  Name=Old\nName=New  \nExec=  /usr/bin/sway --unsupported-gpu").unwrap();
    assert_eq!(s.name, "New");
    assert_eq!(s.command, "/usr/bin/sway");
}

#[test]
fn available_sessions_keeps_order_and_duplicates() {
    let files = vec![
        "Name=Hyprland\nExec=Hyprland".to_string(),
        "Name=Hidden\nExec=x\nNoDisplay=true".to_string(),
        "Name=Sway\nExec=sway %F".to_string(),
        "Name=Hyprland\nExec=Hyprland".to_string(),
    ];
    let r = Session::available_sessions(&files);
    let got: Vec<(String, String)> = r.iter().map(|s| (s.name.clone(), s.command.clone())).collect();
    assert_eq!(
        got,
        vec![
            ("Hyprland".to_string(), "Hyprland".to_string()),
            ("Sway".to_string(), "sway".to_string()),
            ("Hyprland".to_string(), "Hyprland".to_string()),
        ]
    );
    assert!(Session::available_sessions(&vec![]).is_empty());
}
