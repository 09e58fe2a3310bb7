use gpt_anywhere::windows::{
    action_of_menu_id, tray_menu, HostCmd, Session, TrayAction, TrayMenuEntry, WindowRole,
};

#[test]
fn get_or_create_creates_once() {
    let mut s = Session::new();
    let (h1, cmds1) = s.get_or_create(WindowRole::Settings);
    assert_eq!(cmds1, vec![HostCmd::Create(WindowRole::Settings)]);
    let (h2, cmds2) = s.get_or_create(WindowRole::Settings);
    assert!(cmds2.is_empty());
    assert_eq!(h1, h2);
}

#[test]
fn toggle_returns_to_starting_visibility() {
    let mut s = Session::new();
    let (_h, _c) = s.get_or_create(WindowRole::Main);
    let shown = s.toggle(WindowRole::Main);
    assert_eq!(
        shown,
        vec![
            HostCmd::EmitShow(WindowRole::Main),
            HostCmd::ShowWindow(WindowRole::Main),
            HostCmd::SetAlwaysOnTop(WindowRole::Main),
            HostCmd::CenterWindow(WindowRole::Main),
            HostCmd::FocusWindow(WindowRole::Main),
        ]
    );
    let hidden = s.toggle(WindowRole::Main);
    assert_eq!(
        hidden,
        vec![
            HostCmd::EmitHide(WindowRole::Main),
            HostCmd::HideWindow(WindowRole::Main),
        ]
    );
    // Back at the starting visibility: a third toggle shows again.
    let shown_again = s.toggle(WindowRole::Main);
    assert_eq!(shown_again[0], HostCmd::EmitShow(WindowRole::Main));
}

#[test]
fn toggle_twice_on_fresh_process_creates_once() {
    let mut s = Session::new();
    let first = s.dispatch(TrayAction::ToggleShowHide);
    let second = s.dispatch(TrayAction::ToggleShowHide);
    let creates = first
        .iter()
        .chain(second.iter())
        .filter(|c| matches!(c, HostCmd::Create(_)))
        .count();
    assert_eq!(creates, 1);
    assert_eq!(first[0], HostCmd::Create(WindowRole::Main));
    assert!(first.contains(&HostCmd::ShowWindow(WindowRole::Main)));
    assert_eq!(
        second,
        vec![
            HostCmd::EmitHide(WindowRole::Main),
            HostCmd::HideWindow(WindowRole::Main),
        ]
    );
}

#[test]
fn popup_hides_main_and_creates_popup_once() {
    let mut s = Session::new();
    s.dispatch(TrayAction::ToggleShowHide);
    let cmds = s.dispatch(TrayAction::OpenSettings);
    assert_eq!(
        cmds,
        vec![
            HostCmd::EmitHide(WindowRole::Main),
            HostCmd::HideWindow(WindowRole::Main),
            HostCmd::Create(WindowRole::Settings),
        ]
    );
    // The settings window is already open: it is left as it is.
    let again = s.dispatch(TrayAction::OpenSettings);
    assert_eq!(
        again,
        vec![
            HostCmd::EmitHide(WindowRole::Main),
            HostCmd::HideWindow(WindowRole::Main),
        ]
    );
}

#[test]
fn popup_with_no_main_window_only_creates() {
    let mut s = Session::new();
    let cmds = s.dispatch(TrayAction::OpenHelp);
    assert_eq!(cmds, vec![HostCmd::Create(WindowRole::Help)]);
}

#[test]
fn quit_only_exits() {
    let mut s = Session::new();
    assert_eq!(s.dispatch(TrayAction::Quit), vec![HostCmd::Exit]);
}

#[test]
fn lookup_misses_until_created_and_after_close() {
    let mut s = Session::new();
    assert!(s.lookup(WindowRole::Main).is_none());
    let (h, _) = s.get_or_create(WindowRole::Main);
    assert_eq!(s.lookup(WindowRole::Main), Some(h));
    s.note_closed(WindowRole::Main);
    assert!(s.lookup(WindowRole::Main).is_none());
    let (h2, cmds) = s.get_or_create(WindowRole::Main);
    assert_eq!(cmds, vec![HostCmd::Create(WindowRole::Main)]);
    assert_ne!(h.id, h2.id);
}

#[test]
fn roles_map_to_fixed_configuration() {
    assert_eq!(WindowRole::Main.label(), "main");
    assert_eq!(WindowRole::Settings.label(), "settings");
    assert_eq!(WindowRole::Help.label(), "help");
    assert_eq!(WindowRole::Main.title(), "GPT Anywhere");
    assert_eq!(WindowRole::Settings.title(), "Settings");
    assert_eq!(WindowRole::Help.title(), "Help");
    assert_eq!(WindowRole::Main.url(), "index.html");
    assert_eq!(WindowRole::Settings.url(), "settings.html");
    assert_eq!(WindowRole::Help.url(), "help.html");
}

#[test]
fn tray_menu_is_fixed() {
    let menu = tray_menu();
    assert_eq!(menu.len(), 5);
    assert_eq!(
        menu[0],
        TrayMenuEntry::Item("toggle_show".to_string(), "Show/Hide".to_string())
    );
    assert_eq!(
        menu[1],
        TrayMenuEntry::Item("settings".to_string(), "Settings".to_string())
    );
    assert_eq!(
        menu[2],
        TrayMenuEntry::Item("help".to_string(), "Help".to_string())
    );
    assert_eq!(menu[3], TrayMenuEntry::Separator);
    assert_eq!(
        menu[4],
        TrayMenuEntry::Item("quit".to_string(), "Quit".to_string())
    );
}

#[test]
fn menu_ids_map_to_actions() {
    assert_eq!(
        action_of_menu_id("toggle_show"),
        Some(TrayAction::ToggleShowHide)
    );
    assert_eq!(action_of_menu_id("settings"), Some(TrayAction::OpenSettings));
    assert_eq!(action_of_menu_id("help"), Some(TrayAction::OpenHelp));
    assert_eq!(action_of_menu_id("quit"), Some(TrayAction::Quit));
    assert_eq!(action_of_menu_id("unknown"), None);
}
