//! What the tray icon and its menu do.

use crate::text;
use vstd::prelude::*;

verus! {

/// What a choice from the tray menu asks for.
#[derive(Debug, Clone, Copy, PartialEq, Eq, Structural)]
pub enum MenuAction {
    /// Show the window and give it the focus.
    ShowWindow,
    /// Leave the application.
    Quit,
    Nothing,
}

/// An entry of the tray menu.
#[derive(Debug, PartialEq, Eq)]
pub struct MenuEntry {
    pub id: String,
    pub label: String,
}

/// The model of a [`MenuEntry`].
#[verifier::ext_equal]
pub struct MenuEntryView {
    pub id: Seq<char>,
    pub label: Seq<char>,
}

impl View for MenuEntry {
    type V = MenuEntryView;

    open spec fn view(&self) -> MenuEntryView {
        MenuEntryView { id: self.id@, label: self.label@ }
    }
}

/// The entries of the tray menu, from top to bottom.
pub open spec fn menu_entries() -> Seq<MenuEntryView> {
    seq![
        MenuEntryView { id: "show"@, label: "Show Installer"@ },
        MenuEntryView { id: "quit"@, label: "Quit"@ },
    ]
}

/// The entries of the tray menu, from top to bottom.
pub fn tray_menu() -> (entries: Vec<MenuEntry>)
    ensures
        entries@.map_values(|entry: MenuEntry| entry@) == menu_entries(),
{
    let mut entries: Vec<MenuEntry> = Vec::new();
    entries.push(MenuEntry { id: "show".to_string(), label: "Show Installer".to_string() });
    entries.push(MenuEntry { id: "quit".to_string(), label: "Quit".to_string() });
    assert(entries@.map_values(|entry: MenuEntry| entry@) =~= menu_entries());
    entries
}

/// What the menu entry with this id asks for.
pub open spec fn menu_action_of(id: Seq<char>) -> MenuAction {
    if id == "show"@ {
        MenuAction::ShowWindow
    } else if id == "quit"@ {
        MenuAction::Quit
    } else {
        MenuAction::Nothing
    }
}

/// What the menu entry with this id asks for.
pub fn menu_action(id: &str) -> (action: MenuAction)
    ensures
        action == menu_action_of(id@),
{
    if text::same(id, "show") {
        MenuAction::ShowWindow
    } else if text::same(id, "quit") {
        MenuAction::Quit
    } else {
        MenuAction::Nothing
    }
}

/// A button of the pointer.
#[derive(Debug, Clone, Copy, PartialEq, Eq, Structural)]
pub enum PointerButton {
    Left,
    Right,
    Middle,
}

/// What happened to a button.
#[derive(Debug, Clone, Copy, PartialEq, Eq, Structural)]
pub enum ButtonState {
    Up,
    Down,
}

/// A click with this button toggles the window: a left click does, on release.
pub open spec fn is_toggle(button: PointerButton, state: ButtonState) -> bool {
    button == PointerButton::Left && state == ButtonState::Up
}

/// Whether a click on the tray icon toggles the window: a left click does, on release.
pub fn click_toggles(button: PointerButton, state: ButtonState) -> (toggles: bool)
    ensures
        toggles == is_toggle(button, state),
        toggles == (button == PointerButton::Left && state == ButtonState::Up),
{
    button == PointerButton::Left && state == ButtonState::Up
}

/// What a toggle does to the window.
#[derive(Debug, Clone, Copy, PartialEq, Eq, Structural)]
pub enum WindowAction {
    /// Show the window and give it the focus.
    Show,
    Hide,
}

/// A visible window is hidden; one that is hidden, or of which that is not known, is shown.
pub open spec fn toggle_of(visible: Option<bool>) -> WindowAction {
    if visible == Some(true) {
        WindowAction::Hide
    } else {
        WindowAction::Show
    }
}

/// What a toggle does to a window that is visible or not, `None` where that is not known.
pub fn toggle_window(visible: Option<bool>) -> (action: WindowAction)
    ensures
        action == toggle_of(visible),
{
    if visible.unwrap_or(false) {
        WindowAction::Hide
    } else {
        WindowAction::Show
    }
}

/// Whether the window is visible once an action has been taken.
pub open spec fn visible_after(action: WindowAction) -> bool {
    action == WindowAction::Show
}

/// A toggle changes whether the window is visible, and a second toggle changes it back.
pub proof fn law_toggle_flips(visible: bool)
    ensures
        visible_after(toggle_of(Some(visible))) == !visible,
        visible_after(toggle_of(Some(visible_after(toggle_of(Some(visible)))))) == visible,
{
}

/// Every entry of the menu does something, distinct entries do distinct things, and what is not
/// in the menu does nothing.
pub proof fn law_menu_entries_act(id: Seq<char>)
    ensures
        menu_action_of(id) != MenuAction::Nothing <==> exists|k: int|
            0 <= k < menu_entries().len() && #[trigger] menu_entries()[k].id == id,
        forall|j: int, k: int|
            0 <= j < k < menu_entries().len() ==> #[trigger] menu_action_of(menu_entries()[j].id)
                != #[trigger] menu_action_of(menu_entries()[k].id),
{
    reveal_strlit("show");
    reveal_strlit("quit");
    assert("show"@[0] == 's' && "quit"@[0] == 'q');
    assert(menu_entries()[0].id == "show"@);
    assert(menu_entries()[1].id == "quit"@);
}

/// The menu offers to show the installer and to quit, in this order, and no other id does either.
pub proof fn law_menu_shows_and_quits(id: Seq<char>)
    ensures
        menu_entries().len() == 2,
        menu_entries()[0].label == "Show Installer"@,
        menu_entries()[1].label == "Quit"@,
        menu_action_of(id) == MenuAction::ShowWindow <==> id == menu_entries()[0].id,
        menu_action_of(id) == MenuAction::Quit <==> id == menu_entries()[1].id,
        menu_action_of("show"@) == MenuAction::ShowWindow,
        menu_action_of("quit"@) == MenuAction::Quit,
{
    reveal_strlit("show");
    reveal_strlit("quit");
    assert("show"@[0] == 's' && "quit"@[0] == 'q');
}

/// A window of which it is not known whether it is visible is treated as one that is not.
pub proof fn law_unknown_window_is_shown()
    ensures
        toggle_of(None) == toggle_of(Some(false)),
        visible_after(toggle_of(None)),
{
}

/// The model of a menu entry is its two texts.
pub proof fn law_entry_is_its_texts(entry: MenuEntry)
    ensures
        entry@.id == entry.id@,
        entry@.label == entry.label@,
{
}

/// Pressing a button never toggles the window, nor does releasing any but the left one; releasing
/// the left one does.
pub proof fn law_left_release_toggles(button: PointerButton)
    ensures
        !is_toggle(button, ButtonState::Down),
        !is_toggle(PointerButton::Right, ButtonState::Up),
        !is_toggle(PointerButton::Middle, ButtonState::Up),
        is_toggle(PointerButton::Left, ButtonState::Up),
{
}

} // verus!
