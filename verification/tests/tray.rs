use overlearn::tray::{
    is_toggle_click, menu_command, menu_window_action, toggle_window, tray_icon_bytes, MouseButton, MouseButtonState,
    TrayMenuCommand, WindowAction, FALLBACK_ICON, FALLBACK_ICON_LEN,
};

#[test]
fn menu_items_route_to_their_commands() {
    assert_eq!(menu_command("quit"), TrayMenuCommand::Quit);
    assert_eq!(menu_command("show"), TrayMenuCommand::Show);
    assert_eq!(menu_command("hide"), TrayMenuCommand::Hide);
}

#[test]
fn other_menu_items_are_unknown() {
    assert_eq!(menu_command(""), TrayMenuCommand::Unknown);
    assert_eq!(menu_command("Quit"), TrayMenuCommand::Unknown);
    assert_eq!(menu_command("quit "), TrayMenuCommand::Unknown);
    assert_eq!(menu_command("settings"), TrayMenuCommand::Unknown);
}

#[test]
fn only_a_released_left_button_toggles() {
    assert!(is_toggle_click(MouseButton::Left, MouseButtonState::Up));
    assert!(!is_toggle_click(MouseButton::Left, MouseButtonState::Down));
    assert!(!is_toggle_click(MouseButton::Right, MouseButtonState::Up));
    assert!(!is_toggle_click(MouseButton::Right, MouseButtonState::Down));
    assert!(!is_toggle_click(MouseButton::Middle, MouseButtonState::Up));
    assert!(!is_toggle_click(MouseButton::Middle, MouseButtonState::Down));
}

#[test]
fn toggling_hides_a_visible_window_and_shows_any_other() {
    assert_eq!(toggle_window(Some(true)), WindowAction::Hide);
    assert_eq!(toggle_window(Some(false)), WindowAction::ShowAndFocus);
    assert_eq!(toggle_window(None), WindowAction::ShowAndFocus);
}

#[test]
fn icon_file_is_used_as_it_is() {
    assert_eq!(tray_icon_bytes(Some(vec![1, 2, 3])), vec![1, 2, 3]);
    assert_eq!(tray_icon_bytes(Some(Vec::new())), Vec::<u8>::new());
}

#[test]
fn missing_icon_file_gives_the_built_in_icon() {
    let bytes = tray_icon_bytes(None);
    assert_eq!(bytes.len(), FALLBACK_ICON_LEN);
    assert_eq!(bytes.len(), 117);
    assert_eq!(bytes, FALLBACK_ICON.to_vec());
    assert_eq!(&bytes[..8], &[0x89, 0x50, 0x4E, 0x47, 0x0D, 0x0A, 0x1A, 0x0A]);
    assert_eq!(&bytes[12..16], b"IHDR");
    assert_eq!(&bytes[16..24], &[0, 0, 0, 32, 0, 0, 0, 32]);
    assert_eq!(&bytes[113..], &[0xAE, 0x42, 0x60, 0x82]);
}

#[test]
fn menu_commands_act_on_the_window() {
    assert_eq!(
        menu_window_action(TrayMenuCommand::Show),
        Some(WindowAction::ShowAndFocus)
    );
    assert_eq!(menu_window_action(TrayMenuCommand::Hide), Some(WindowAction::Hide));
    assert_eq!(menu_window_action(TrayMenuCommand::Quit), None);
    assert_eq!(menu_window_action(TrayMenuCommand::Unknown), None);
}

#[test]
fn menu_items_act_on_the_window_by_their_identifier() {
    assert_eq!(
        menu_window_action(menu_command("show")),
        Some(WindowAction::ShowAndFocus)
    );
    assert_eq!(menu_window_action(menu_command("hide")), Some(WindowAction::Hide));
    assert_eq!(menu_window_action(menu_command("quit")), None);
    assert_eq!(menu_window_action(menu_command("settings")), None);
}
