use wazuh_agent_installer::tray::{
    click_toggles, menu_action, toggle_window, tray_menu, ButtonState, MenuAction, PointerButton,
    WindowAction,
};

#[test]
fn menu_has_two_entries() {
    let entries: Vec<(String, String)> =
        tray_menu().into_iter().map(|entry| (entry.id, entry.label)).collect();
    assert_eq!(
        entries,
        vec![
            ("show".to_string(), "Show Installer".to_string()),
            ("quit".to_string(), "Quit".to_string()),
        ]
    );
}

#[test]
fn menu_entries_act() {
    assert_eq!(menu_action("show"), MenuAction::ShowWindow);
    assert_eq!(menu_action("quit"), MenuAction::Quit);
    assert_eq!(menu_action("Quit"), MenuAction::Nothing);
    assert_eq!(menu_action(""), MenuAction::Nothing);
}

#[test]
fn left_click_toggles_on_release() {
    assert!(click_toggles(PointerButton::Left, ButtonState::Up));
    assert!(!click_toggles(PointerButton::Left, ButtonState::Down));
    assert!(!click_toggles(PointerButton::Right, ButtonState::Up));
    assert!(!click_toggles(PointerButton::Middle, ButtonState::Up));
}

#[test]
fn toggle_flips_the_window() {
    assert_eq!(toggle_window(Some(true)), WindowAction::Hide);
    assert_eq!(toggle_window(Some(false)), WindowAction::Show);
    assert_eq!(toggle_window(None), WindowAction::Show);
}
