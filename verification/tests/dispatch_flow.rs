//! Mode transitions and input routing through the dispatcher: global
//! bindings, menu confirmation, the console prompt, and the save actions.

use pico_term::dispatch::dispatch;
use pico_term::events::{EditorAction, InputEvent, Key, KeyInput};
use pico_term::state::EditorState;
use pico_term::{ChangedLineType, Mode};

const TERM_HEIGHT: usize = 24;

fn doc(lines: &[&str]) -> Vec<Vec<char>> {
    lines.iter().map(|s| s.chars().collect()).collect()
}

fn chars(s: &str) -> Vec<char> {
    s.chars().collect()
}

fn texts(lines: &Vec<Vec<char>>) -> Vec<String> {
    lines.iter().map(|l| l.iter().collect()).collect()
}

fn fresh(lines: &[&str]) -> EditorState {
    EditorState::new(doc(lines), chars("new_file.txt"))
}

fn key(state: &mut EditorState, k: Key) -> (ChangedLineType, EditorAction) {
    dispatch(state, InputEvent::Key(KeyInput::plain(k)), TERM_HEIGHT)
}

fn alt_key(state: &mut EditorState, k: Key) -> (ChangedLineType, EditorAction) {
    dispatch(
        state,
        InputEvent::Key(KeyInput { code: k, alt: true, ctrl: false }),
        TERM_HEIGHT,
    )
}

fn ctrl_key(state: &mut EditorState, k: Key) -> (ChangedLineType, EditorAction) {
    dispatch(
        state,
        InputEvent::Key(KeyInput { code: k, alt: false, ctrl: true }),
        TERM_HEIGHT,
    )
}

#[test]
fn empty_start_gets_one_empty_line() {
    let state = fresh(&[]);
    assert_eq!(texts(&state.lines), vec!["".to_string()]);
    assert!(matches!(state.mode, Mode::WriteMode));
}

#[test]
fn typing_inserts_at_cursor_and_advances() {
    // buffer ["abc"], cursor {0, 3}, insert 'd' -> ["abcd"], cursor {0, 4}
    let mut state = fresh(&["abc"]);
    state.current_char = 3;
    let (dirty, action) = key(&mut state, Key::Char('d'));
    assert_eq!(texts(&state.lines), vec!["abcd".to_string()]);
    assert_eq!((state.current_line, state.current_char), (0, 4));
    assert!(matches!(dirty, ChangedLineType::All));
    assert!(matches!(action, EditorAction::Nothing));
}

#[test]
fn backspace_at_line_start_joins_lines() {
    // buffer ["ab", "cd"], cursor {1, 0} -> ["abcd"], cursor {0, 2}
    let mut state = fresh(&["ab", "cd"]);
    state.current_line = 1;
    state.current_char = 0;
    let (dirty, _) = key(&mut state, Key::Backspace);
    assert_eq!(texts(&state.lines), vec!["abcd".to_string()]);
    assert_eq!((state.current_line, state.current_char), (0, 2));
    assert!(matches!(dirty, ChangedLineType::AllLines));
}

#[test]
fn enter_splits_current_line() {
    let mut state = fresh(&["hello world"]);
    state.current_char = 5;
    let (dirty, _) = key(&mut state, Key::Enter);
    assert_eq!(texts(&state.lines), vec!["hello".to_string(), " world".to_string()]);
    assert_eq!((state.current_line, state.current_char), (1, 0));
    assert!(matches!(dirty, ChangedLineType::AllLines));
}

#[test]
fn tab_inserts_four_space_indent() {
    let mut state = fresh(&["ab"]);
    state.current_char = 1;
    key(&mut state, Key::Tab);
    assert_eq!(texts(&state.lines), vec!["a    b".to_string()]);
    assert_eq!(state.current_char, 5);
}

#[test]
fn escape_quits_outside_console() {
    let mut state = fresh(&["x"]);
    let (_, action) = key(&mut state, Key::Esc);
    assert!(matches!(action, EditorAction::Quit));
}

#[test]
fn alt_j_toggles_edit_mode_and_q_returns() {
    let mut state = fresh(&["some words"]);
    alt_key(&mut state, Key::Char('j'));
    assert!(matches!(state.mode, Mode::EditMode));
    key(&mut state, Key::Char('q'));
    assert!(matches!(state.mode, Mode::WriteMode));
}

#[test]
fn alt_j_in_edit_mode_moves_a_word_left() {
    let mut state = fresh(&["hello world"]);
    state.current_char = 6;
    alt_key(&mut state, Key::Char('j'));
    assert!(matches!(state.mode, Mode::EditMode));
    alt_key(&mut state, Key::Char('j'));
    assert_eq!(state.current_char, 0);
}

#[test]
fn edit_mode_letters_navigate() {
    let mut state = fresh(&["hello world", "second"]);
    alt_key(&mut state, Key::Char('j'));
    key(&mut state, Key::Char('o'));
    assert_eq!(state.current_char, 11);
    key(&mut state, Key::Char('u'));
    assert_eq!(state.current_char, 0);
    key(&mut state, Key::Char('k'));
    assert_eq!(state.current_line, 1);
    key(&mut state, Key::Char('i'));
    assert_eq!(state.current_line, 0);
    key(&mut state, Key::Char('l'));
    assert_eq!(state.current_char, 1);
    key(&mut state, Key::Char('j'));
    assert_eq!(state.current_char, 0);
}

#[test]
fn edit_mode_whole_word_right() {
    let mut state = fresh(&["hello world"]);
    alt_key(&mut state, Key::Char('j'));
    alt_key(&mut state, Key::Char('l'));
    assert_eq!(state.current_char, 6);
}

#[test]
fn edit_mode_alt_drags_line_down() {
    let mut state = fresh(&["one", "two"]);
    alt_key(&mut state, Key::Char('j'));
    alt_key(&mut state, Key::Char('k'));
    assert_eq!(texts(&state.lines), vec!["two".to_string(), "one".to_string()]);
    assert_eq!(state.current_line, 1);
}

#[test]
fn ctrl_s_saves_under_current_name() {
    let mut state = fresh(&["data"]);
    let (dirty, action) = ctrl_key(&mut state, Key::Char('s'));
    assert!(matches!(dirty, ChangedLineType::All));
    match action {
        EditorAction::Save(name) => {
            let name: String = name.into_iter().collect();
            assert_eq!(name, "new_file.txt");
        },
        other => panic!("expected a save action, got {:?}", other),
    }
}

#[test]
fn function_key_toggles_menu() {
    let mut state = fresh(&["x"]);
    key(&mut state, Key::Function(2));
    assert!(matches!(state.mode, Mode::MenuMode));
    assert_eq!((state.menu.menu_option, state.menu.menu_item), (0, 0));
    key(&mut state, Key::Function(2));
    assert!(matches!(state.mode, Mode::WriteMode));
    assert!(state.menu.menu_option > 2);
}

#[test]
fn menu_arrows_wrap_around() {
    let mut state = fresh(&["x"]);
    key(&mut state, Key::Function(2));
    key(&mut state, Key::Left);
    assert_eq!(state.menu.menu_option, 2);
    key(&mut state, Key::Right);
    assert_eq!(state.menu.menu_option, 0);
    key(&mut state, Key::Up);
    assert_eq!(state.menu.menu_item, 3);
    key(&mut state, Key::Down);
    assert_eq!(state.menu.menu_item, 0);
}

#[test]
fn menu_save_as_flows_through_console() {
    // menu selection "Save as" opens the console; submitting "out.txt"
    // saves under that name and returns to write mode
    let mut state = fresh(&["content"]);
    key(&mut state, Key::Function(2));
    key(&mut state, Key::Down);
    key(&mut state, Key::Down);
    key(&mut state, Key::Down);
    assert_eq!((state.menu.menu_option, state.menu.menu_item), (0, 3));
    let (_, action) = key(&mut state, Key::Enter);
    assert!(matches!(action, EditorAction::Nothing));
    assert!(matches!(state.mode, Mode::ConsoleMode));
    for c in "out.txt".chars() {
        key(&mut state, Key::Char(c));
    }
    let (_, action) = key(&mut state, Key::Enter);
    match action {
        EditorAction::Save(name) => {
            let name: String = name.into_iter().collect();
            assert_eq!(name, "out.txt");
        },
        other => panic!("expected a save action, got {:?}", other),
    }
    assert!(matches!(state.mode, Mode::WriteMode));
    assert_eq!(state.console.input.len(), 0);
}

#[test]
fn menu_save_uses_current_file_name() {
    let mut state = fresh(&["content"]);
    key(&mut state, Key::Function(2));
    key(&mut state, Key::Down);
    key(&mut state, Key::Down);
    assert_eq!((state.menu.menu_option, state.menu.menu_item), (0, 2));
    let (_, action) = key(&mut state, Key::Enter);
    match action {
        EditorAction::Save(name) => {
            let name: String = name.into_iter().collect();
            assert_eq!(name, "new_file.txt");
        },
        other => panic!("expected a save action, got {:?}", other),
    }
    assert!(matches!(state.mode, Mode::WriteMode));
}

#[test]
fn console_escape_cancels_and_discards() {
    let mut state = fresh(&["content"]);
    key(&mut state, Key::Function(2));
    key(&mut state, Key::Up);
    let (_, _) = key(&mut state, Key::Enter);
    assert!(matches!(state.mode, Mode::ConsoleMode));
    key(&mut state, Key::Char('x'));
    let (_, action) = key(&mut state, Key::Esc);
    assert!(matches!(action, EditorAction::Nothing));
    assert!(matches!(state.mode, Mode::WriteMode));
    assert_eq!(state.console.input.len(), 0);
}

#[test]
fn other_menu_entries_just_close_the_menu() {
    let mut state = fresh(&["content"]);
    key(&mut state, Key::Function(2));
    let (_, action) = key(&mut state, Key::Enter);
    assert!(matches!(action, EditorAction::Nothing));
    assert!(matches!(state.mode, Mode::WriteMode));
}

#[test]
fn mouse_scroll_moves_window_and_clamps() {
    let lines: Vec<&str> = (0..40).map(|_| "line").collect();
    let mut state = fresh(&lines);
    let (dirty, _) = dispatch(&mut state, InputEvent::ScrollDown, TERM_HEIGHT);
    assert!(matches!(dirty, ChangedLineType::All));
    assert_eq!(state.current_scroll, 2);
    let (dirty, _) = dispatch(&mut state, InputEvent::ScrollUp, TERM_HEIGHT);
    assert!(matches!(dirty, ChangedLineType::All));
    assert_eq!(state.current_scroll, 0);
    let (dirty, _) = dispatch(&mut state, InputEvent::ScrollUp, TERM_HEIGHT);
    assert!(matches!(dirty, ChangedLineType::Unchanged));
    assert_eq!(state.current_scroll, 0);
}

#[test]
fn mouse_scroll_stops_at_buffer_end() {
    let mut state = fresh(&["only", "four", "short", "lines"]);
    let (dirty, _) = dispatch(&mut state, InputEvent::ScrollDown, TERM_HEIGHT);
    assert!(matches!(dirty, ChangedLineType::Unchanged));
    assert_eq!(state.current_scroll, 0);
}

#[test]
fn mouse_scroll_clamps_to_last_window() {
    // 21 lines in a 20-row window: only one row can ever be scrolled away
    let lines: Vec<&str> = (0..21).map(|_| "line").collect();
    let mut state = fresh(&lines);
    let (dirty, _) = dispatch(&mut state, InputEvent::ScrollDown, TERM_HEIGHT);
    assert!(matches!(dirty, ChangedLineType::All));
    assert_eq!(state.current_scroll, 1);
    let (dirty, _) = dispatch(&mut state, InputEvent::ScrollDown, TERM_HEIGHT);
    assert!(matches!(dirty, ChangedLineType::Unchanged));
    assert_eq!(state.current_scroll, 1);
}

#[test]
fn resize_forces_full_redraw() {
    let mut state = fresh(&["x"]);
    let (dirty, action) = dispatch(&mut state, InputEvent::Resize(80, 30), TERM_HEIGHT);
    assert!(matches!(dirty, ChangedLineType::All));
    assert!(matches!(action, EditorAction::Nothing));
}

#[test]
fn arrow_moves_report_no_change_at_boundaries() {
    let mut state = fresh(&["abc"]);
    let (dirty, _) = key(&mut state, Key::Up);
    assert!(matches!(dirty, ChangedLineType::Unchanged));
    let (dirty, _) = key(&mut state, Key::Down);
    assert!(matches!(dirty, ChangedLineType::Unchanged));
    let (dirty, _) = key(&mut state, Key::Left);
    assert!(matches!(dirty, ChangedLineType::Unchanged));
    state.current_char = 3;
    let (dirty, _) = key(&mut state, Key::Right);
    assert!(matches!(dirty, ChangedLineType::Unchanged));
}

#[test]
fn cursor_invariant_holds_through_random_walk() {
    // the cursor invariant after every operation, over a mixed key script
    let mut state = fresh(&["alpha beta", "", "gamma delta epsilon", "x"]);
    let script = [
        Key::Down,
        Key::Right,
        Key::Char('q'),
        Key::Enter,
        Key::Up,
        Key::Backspace,
        Key::Tab,
        Key::Left,
        Key::Down,
        Key::Down,
        Key::Down,
        Key::Down,
        Key::Backspace,
        Key::Char('z'),
        Key::Up,
        Key::Enter,
    ];
    for k in script {
        key(&mut state, k);
        assert!(state.current_line < state.lines.len());
        assert!(state.current_char <= state.lines[state.current_line].len());
        assert!(state.current_scroll <= state.lines.len());
    }
}
