//! Decisions behind the system-tray icon: what a menu item or a click on the
//! icon asks of the main window, and which image the icon shows.

use vstd::prelude::*;
use crate::text::str_eq;

verus! {

/// What a tray menu item asks for.
#[derive(Debug, Clone, Copy, PartialEq, Eq, Structural)]
pub enum TrayMenuCommand {
    /// Leave the application.
    Quit,
    /// Bring the main window up and give it the focus.
    Show,
    /// Hide the main window.
    Hide,
    /// The item is not one of the tray menu's.
    Unknown,
}

/// The command behind a menu item's identifier.
pub open spec fn menu_command_of(id: Seq<char>) -> TrayMenuCommand {
    if id == "quit"@ {
        TrayMenuCommand::Quit
    } else if id == "show"@ {
        TrayMenuCommand::Show
    } else if id == "hide"@ {
        TrayMenuCommand::Hide
    } else {
        TrayMenuCommand::Unknown
    }
}

/// Routes a menu event by the identifier of the item that was chosen.
pub fn menu_command(id: &str) -> (command: TrayMenuCommand)
    ensures
        command == menu_command_of(id@),
{
    if str_eq(id, "quit") {
        TrayMenuCommand::Quit
    } else if str_eq(id, "show") {
        TrayMenuCommand::Show
    } else if str_eq(id, "hide") {
        TrayMenuCommand::Hide
    } else {
        TrayMenuCommand::Unknown
    }
}

/// A mouse button.
#[derive(Debug, Clone, Copy, PartialEq, Eq, Structural)]
pub enum MouseButton {
    Left,
    Right,
    Middle,
}

/// Whether a mouse button went down or came up.
#[derive(Debug, Clone, Copy, PartialEq, Eq, Structural)]
pub enum MouseButtonState {
    Up,
    Down,
}

/// What happens to the main window.
#[derive(Debug, Clone, Copy, PartialEq, Eq, Structural)]
pub enum WindowAction {
    /// Show the window and give it the focus.
    ShowAndFocus,
    /// Hide the window.
    Hide,
}

/// What a menu command does to the main window: showing brings it up with
/// the focus, hiding hides it; the other commands leave it alone.
pub fn menu_window_action(command: TrayMenuCommand) -> (action: Option<WindowAction>)
    ensures
        action == match command {
            TrayMenuCommand::Show => Some(WindowAction::ShowAndFocus),
            TrayMenuCommand::Hide => Some(WindowAction::Hide),
            TrayMenuCommand::Quit => None,
            TrayMenuCommand::Unknown => None,
        },
{
    match command {
        TrayMenuCommand::Show => Some(WindowAction::ShowAndFocus),
        TrayMenuCommand::Hide => Some(WindowAction::Hide),
        TrayMenuCommand::Quit => None,
        TrayMenuCommand::Unknown => None,
    }
}

/// Whether a click on the tray icon toggles the main window: only the left
/// button does, and only when it is released.
pub fn is_toggle_click(button: MouseButton, state: MouseButtonState) -> (toggles: bool)
    ensures
        toggles == (button == MouseButton::Left && state == MouseButtonState::Up),
{
    match (button, state) {
        (MouseButton::Left, MouseButtonState::Up) => true,
        _ => false,
    }
}

/// Toggles the main window: a visible window is hidden, any other is shown.
/// `None` stands for a window that would not say whether it is visible; it
/// counts as hidden.
pub fn toggle_window(visible: Option<bool>) -> (action: WindowAction)
    ensures
        action == if visible == Some(true) {
            WindowAction::Hide
        } else {
            WindowAction::ShowAndFocus
        },
{
    match visible {
        Some(true) => WindowAction::Hide,
        _ => WindowAction::ShowAndFocus,
    }
}

/// How many bytes the built-in tray icon has.
pub const FALLBACK_ICON_LEN: usize = 117;

/// The built-in tray icon: a transparent PNG of 32 by 32 pixels.
pub const FALLBACK_ICON: [u8; FALLBACK_ICON_LEN] = [
    0x89, 0x50, 0x4E, 0x47, 0x0D, 0x0A, 0x1A, 0x0A,
    0x00, 0x00, 0x00, 0x0D, 0x49, 0x48, 0x44, 0x52,
    0x00, 0x00, 0x00, 0x20, 0x00, 0x00, 0x00, 0x20,
    0x08, 0x06, 0x00, 0x00, 0x00, 0x73, 0x7A, 0x7A,
    0xF4, 0x00, 0x00, 0x00, 0x01, 0x73, 0x52, 0x47,
    0x42, 0x00, 0xAE, 0xCE, 0x1C, 0xE9, 0x00, 0x00,
    0x00, 0x04, 0x67, 0x41, 0x4D, 0x41, 0x00, 0x00,
    0xB1, 0x8F, 0x0B, 0xFC, 0x61, 0x05, 0x00, 0x00,
    0x00, 0x09, 0x70, 0x48, 0x59, 0x73, 0x00, 0x00,
    0x0E, 0xC3, 0x00, 0x00, 0x0E, 0xC3, 0x01, 0xC7,
    0x6F, 0xA8, 0x64, 0x00, 0x00, 0x00, 0x0C, 0x49,
    0x44, 0x41, 0x54, 0x68, 0x81, 0x63, 0x00, 0x01,
    0x00, 0x00, 0x05, 0x00, 0x01, 0x0D, 0x0A, 0x2D,
    0xB4, 0x00, 0x00, 0x00, 0x00, 0x49, 0x45, 0x4E,
    0x44, 0xAE, 0x42, 0x60, 0x82,
];

/// The bytes of the tray icon's image: those of the icon file where the host
/// could read one, else the built-in icon.
pub fn tray_icon_bytes(file: Option<Vec<u8>>) -> (bytes: Vec<u8>)
    ensures
        bytes@ == match file {
            Some(contents) => contents@,
            None => FALLBACK_ICON@,
        },
{
    match file {
        Some(contents) => contents,
        None => {
            let mut bytes: Vec<u8> = Vec::new();
            let mut i: usize = 0;
            while i < FALLBACK_ICON_LEN
                invariant
                    i <= FALLBACK_ICON_LEN,
                    bytes@ == FALLBACK_ICON@.subrange(0, i as int),
                decreases FALLBACK_ICON_LEN - i,
            {
                bytes.push(FALLBACK_ICON[i]);
                i += 1;
                assert(bytes@ =~= FALLBACK_ICON@.subrange(0, i as int));
            }
            assert(bytes@ =~= FALLBACK_ICON@);
            bytes
        },
    }
}

} // verus!
