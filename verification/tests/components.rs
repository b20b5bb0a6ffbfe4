//! The console prompt and the menu widget on their own.

use pico_term::console::{Console, ConsoleAction};
use pico_term::events::{Key, KeyInput};
use pico_term::menu::Menu;

#[test]
fn console_captures_typed_text() {
    let mut console = Console::new();
    assert!(matches!(*console.get_action(), ConsoleAction::SaveAs));
    for c in "abc".chars() {
        console.handle_key_event(KeyInput::plain(Key::Char(c)));
    }
    // a non-character key leaves the captured text alone
    console.handle_key_event(KeyInput::plain(Key::Up));
    let text: String = console.submit().into_iter().collect();
    assert_eq!(text, "abc");
    assert_eq!(console.input.len(), 0);
    assert_eq!(console.current_char, 0);
}

#[test]
fn console_discard_empties_the_prompt() {
    let mut console = Console::new();
    console.handle_key_event(KeyInput::plain(Key::Char('z')));
    console.discard();
    assert_eq!(console.input.len(), 0);
}

#[test]
fn menu_starts_hidden_with_fixed_entries() {
    let menu = Menu::new();
    assert!(menu.menu_option > 2);
    assert_eq!(menu.titles, vec!["File", "Color", "Settings"]);
    assert_eq!(menu.items[0], vec!["New file", "Open file", "Save", "Save as"]);
    assert_eq!(menu.items[1], vec!["Theme1", "Theme2", "Theme3"]);
    assert_eq!(menu.items[2], vec!["Save on unfocus", "Something"]);
}

#[test]
fn menu_movement_wraps_in_both_directions() {
    let mut menu = Menu::new();
    menu.reset();
    menu.move_left();
    assert_eq!(menu.menu_option, 2);
    menu.move_right();
    assert_eq!(menu.menu_option, 0);
    menu.move_up();
    assert_eq!(menu.menu_item, 3);
    menu.move_down();
    assert_eq!(menu.menu_item, 0);
    menu.move_down();
    assert_eq!(menu.menu_item, 1);
}

#[test]
fn menu_selection_returns_text_and_hides() {
    let mut menu = Menu::new();
    menu.reset();
    menu.move_down();
    menu.move_down();
    menu.move_down();
    let picked = menu.select();
    assert_eq!(picked, "Save as");
    assert!(menu.menu_option > 2);
}

#[test]
fn menu_column_switch_resets_highlight() {
    let mut menu = Menu::new();
    menu.reset();
    menu.move_down();
    menu.move_right();
    assert_eq!((menu.menu_option, menu.menu_item), (1, 0));
}
