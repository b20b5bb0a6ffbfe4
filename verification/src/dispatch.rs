//! The input dispatcher: for every terminal event it intercepts the global
//! bindings (quit, edit-mode toggle, save, menu toggle), routes everything
//! else to exactly one mode's handler, and reports the minimal redraw plus
//! the outside action the caller must perform.

use vstd::prelude::*;
use crate::buffer::clone_line;
use crate::console::ConsoleAction;
use crate::editmode;
use crate::events::{ActionModel, EditorAction, InputEvent, Key, KeyInput};
use crate::functions::{calculate_editor_height, clamp, clamp_spec, move_left, move_left_spec};
use crate::menu::{menu_nav_step, MENU_HIDDEN};
use crate::state::{EditorModel, EditorState};
use crate::writemode;
use crate::{ChangedLineType, Mode};

verus! {

/// What one key does while the console prompt is active: Enter submits the
/// captured text and triggers the pending action (a save under that name),
/// Esc cancels and discards the text — both return to write mode — and a
/// printable character is appended to the text.
pub open spec fn console_step(m: EditorModel, key: KeyInput) -> (EditorModel, ChangedLineType,
    ActionModel) {
    match key.code {
        Key::Enter => (
            EditorModel { mode: Mode::WriteMode, console_input: Seq::empty(), ..m },
            ChangedLineType::All,
            ActionModel::Save(m.console_input),
        ),
        Key::Esc => (
            EditorModel { mode: Mode::WriteMode, console_input: Seq::empty(), ..m },
            ChangedLineType::All,
            ActionModel::Nothing,
        ),
        Key::Char(c) => (
            EditorModel { console_input: m.console_input.push(c), ..m },
            ChangedLineType::All,
            ActionModel::Nothing,
        ),
        _ => (m, ChangedLineType::Unchanged, ActionModel::Nothing),
    }
}

/// What one key does while the menu is open: Enter confirms the highlighted
/// entry — "Save" saves under the current file name, "Save as" opens the
/// console prompt for a name, anything else just closes the menu — and the
/// arrow keys move the highlight.
pub open spec fn menu_step(m: EditorModel, key: KeyInput) -> (EditorModel, ChangedLineType,
    ActionModel) {
    if key.code == Key::Enter {
        if m.menu_option == 0 && m.menu_item == 2 {
            (
                EditorModel { mode: Mode::WriteMode, menu_option: MENU_HIDDEN as int, ..m },
                ChangedLineType::All,
                ActionModel::Save(m.file_name),
            )
        } else if m.menu_option == 0 && m.menu_item == 3 {
            (
                EditorModel { mode: Mode::ConsoleMode, menu_option: MENU_HIDDEN as int, ..m },
                ChangedLineType::All,
                ActionModel::Nothing,
            )
        } else {
            (
                EditorModel { mode: Mode::WriteMode, menu_option: MENU_HIDDEN as int, ..m },
                ChangedLineType::All,
                ActionModel::Nothing,
            )
        }
    } else {
        let nav = menu_nav_step(m.menu_option, m.menu_item, key);
        (
            EditorModel { menu_option: nav.0, menu_item: nav.1, ..m },
            if key.code == Key::Up || key.code == Key::Down || key.code == Key::Left || key.code
                == Key::Right {
                ChangedLineType::All
            } else {
                ChangedLineType::Unchanged
            },
            ActionModel::Nothing,
        )
    }
}

/// What one input event does to the whole editor, given the terminal
/// height. Resizes force a full redraw; mouse wheel steps move the scroll
/// offset by two rows, clamped to the buffer; a key press is first held
/// against the global bindings — Esc quits, Alt+J toggles edit mode (and
/// moves a whole word left when already there), Ctrl+S saves in place, the
/// menu function key opens or closes the menu — and otherwise goes to the
/// active mode's handler.
pub open spec fn dispatch_step(m: EditorModel, event: InputEvent, term_height: int) -> (EditorModel,
    ChangedLineType, ActionModel) {
    let h = term_height - 4;
    match event {
        InputEvent::Resize(_, _) => (m, ChangedLineType::All, ActionModel::Nothing),
        InputEvent::ScrollDown => {
            if m.scroll + h < m.lines.len() {
                (
                    EditorModel {
                        scroll: clamp_spec(m.scroll + 2, 0, m.lines.len() - h),
                        ..m
                    },
                    ChangedLineType::All,
                    ActionModel::Nothing,
                )
            } else {
                (m, ChangedLineType::Unchanged, ActionModel::Nothing)
            }
        },
        InputEvent::ScrollUp => {
            if m.scroll == 0 {
                (m, ChangedLineType::Unchanged, ActionModel::Nothing)
            } else {
                (
                    EditorModel {
                        scroll: if m.scroll >= 2 {
                            m.scroll - 2
                        } else {
                            0
                        },
                        ..m
                    },
                    ChangedLineType::All,
                    ActionModel::Nothing,
                )
            }
        },
        InputEvent::Key(k) => {
            if m.mode == Mode::ConsoleMode {
                console_step(m, k)
            } else if k.code == Key::Esc {
                (m, ChangedLineType::Unchanged, ActionModel::Quit)
            } else if k.code == Key::Char('j') && k.alt {
                if m.mode == Mode::WriteMode {
                    (
                        EditorModel { mode: Mode::EditMode, ..m },
                        ChangedLineType::All,
                        ActionModel::Nothing,
                    )
                } else if m.mode == Mode::EditMode {
                    (
                        EditorModel { col: move_left_spec(m.lines[m.line], m.col, true), ..m },
                        ChangedLineType::All,
                        ActionModel::Nothing,
                    )
                } else {
                    (m, ChangedLineType::Unchanged, ActionModel::Nothing)
                }
            } else if k.code == Key::Char('s') && k.ctrl {
                (m, ChangedLineType::All, ActionModel::Save(m.file_name))
            } else if k.code == Key::Function(2) {
                if m.mode == Mode::MenuMode {
                    (
                        EditorModel { mode: Mode::WriteMode, menu_option: MENU_HIDDEN as int, ..m },
                        ChangedLineType::All,
                        ActionModel::Nothing,
                    )
                } else {
                    (
                        EditorModel { mode: Mode::MenuMode, menu_option: 0, menu_item: 0, ..m },
                        ChangedLineType::All,
                        ActionModel::Nothing,
                    )
                }
            } else {
                match m.mode {
                    Mode::WriteMode => {
                        let step = writemode::writemode_step(m, k, h);
                        (step.0, step.1, ActionModel::Nothing)
                    },
                    Mode::EditMode => (
                        editmode::editmode_step(m, k, h),
                        ChangedLineType::All,
                        ActionModel::Nothing,
                    ),
                    Mode::MenuMode => menu_step(m, k),
                    Mode::ConsoleMode => (m, ChangedLineType::Unchanged, ActionModel::Nothing),
                }
            }
        },
    }
}

/// Routes one input event, mutating the editor exactly as `dispatch_step`
/// says, and hands back what must be redrawn together with the action the
/// caller must perform. The editor invariants are preserved; the caller is
/// asked to quit exactly on an Esc key press outside the console prompt.
pub fn dispatch(state: &mut EditorState, event: InputEvent, term_height: usize) -> (r: (
    ChangedLineType,
    EditorAction,
))
    requires
        old(state).wf(),
        term_height >= 5,
        old(state).lines@.len() + term_height <= usize::MAX,
        old(state).lines.deep_view()[old(state).current_line as int].len() + 4 <= usize::MAX,
        old(state).current_line >= 1 ==> old(state).lines.deep_view()[old(state).current_line
            - 1].len() + old(state).lines.deep_view()[old(state).current_line as int].len()
            <= usize::MAX,
    ensures
        final(state).wf(),
        ({
            let (m2, dirty, act) = dispatch_step(old(state)@, event, term_height as int);
            &&& final(state)@ == m2
            &&& r.0 == dirty
            &&& r.1@ == act
        }),
        (r.1 matches EditorAction::Quit) <==> (event matches InputEvent::Key(k) && k.code
            == Key::Esc && old(state).mode != Mode::ConsoleMode),
        final(state).menu.titles == old(state).menu.titles,
        final(state).menu.items == old(state).menu.items,
        final(state).console.action == old(state).console.action,
{
    let ghost m0 = state@;
    let ghost target = dispatch_step(m0, event, term_height as int);
    let editor_height = calculate_editor_height(&term_height);
    match event {
        InputEvent::Resize(_, _) => (ChangedLineType::All, EditorAction::Nothing),
        InputEvent::ScrollDown => {
            if state.current_scroll + editor_height < state.lines.len() {
                let max_scroll = state.lines.len() - editor_height;
                state.current_scroll = clamp(state.current_scroll + 2, 0, max_scroll);
                proof {
                    assert(state@ =~~= target.0);
                }
                (ChangedLineType::All, EditorAction::Nothing)
            } else {
                (ChangedLineType::Unchanged, EditorAction::Nothing)
            }
        },
        InputEvent::ScrollUp => {
            if state.current_scroll == 0 {
                (ChangedLineType::Unchanged, EditorAction::Nothing)
            } else {
                if state.current_scroll >= 2 {
                    state.current_scroll -= 2;
                } else {
                    state.current_scroll = 0;
                }
                proof {
                    assert(state@ =~~= target.0);
                }
                (ChangedLineType::All, EditorAction::Nothing)
            }
        },
        InputEvent::Key(k) => {
            if state.mode == Mode::ConsoleMode {
                match k.code {
                    Key::Enter => {
                        let text = state.console.submit();
                        let action = match *state.console.get_action() {
                            ConsoleAction::SaveAs => EditorAction::Save(text),
                        };
                        state.mode = Mode::WriteMode;
                        proof {
                            assert(state@ =~~= target.0);
                            assert(action@ =~~= target.2);
                        }
                        (ChangedLineType::All, action)
                    },
                    Key::Esc => {
                        state.console.discard();
                        state.mode = Mode::WriteMode;
                        proof {
                            assert(state@ =~~= target.0);
                        }
                        (ChangedLineType::All, EditorAction::Nothing)
                    },
                    Key::Char(_) => {
                        state.console.handle_key_event(k);
                        proof {
                            assert(state@ =~~= target.0);
                        }
                        (ChangedLineType::All, EditorAction::Nothing)
                    },
                    _ => (ChangedLineType::Unchanged, EditorAction::Nothing),
                }
            } else if k.code == Key::Esc {
                (ChangedLineType::Unchanged, EditorAction::Quit)
            } else if k.code == Key::Char('j') && k.alt {
                if state.mode == Mode::WriteMode {
                    state.mode = Mode::EditMode;
                    proof {
                        assert(state@ =~~= target.0);
                    }
                    (ChangedLineType::All, EditorAction::Nothing)
                } else if state.mode == Mode::EditMode {
                    proof {
                        assert(state.lines.deep_view()[state.current_line as int]
                            == state.lines@[state.current_line as int]@);
                    }
                    move_left(&mut state.current_char, &state.current_line, &state.lines, true);
                    proof {
                        assert(state@ =~~= target.0);
                    }
                    (ChangedLineType::All, EditorAction::Nothing)
                } else {
                    (ChangedLineType::Unchanged, EditorAction::Nothing)
                }
            } else if k.code == Key::Char('s') && k.ctrl {
                let name = clone_line(&state.file_name);
                let action = EditorAction::Save(name);
                proof {
                    assert(action@ =~~= target.2);
                }
                (ChangedLineType::All, action)
            } else if k.code == Key::Function(2) {
                if state.mode == Mode::MenuMode {
                    state.menu.hide_menu();
                    state.mode = Mode::WriteMode;
                    proof {
                        assert(state@ =~~= target.0);
                    }
                    (ChangedLineType::All, EditorAction::Nothing)
                } else {
                    state.menu.reset();
                    state.mode = Mode::MenuMode;
                    proof {
                        assert(state@ =~~= target.0);
                    }
                    (ChangedLineType::All, EditorAction::Nothing)
                }
            } else {
                match state.mode {
                    Mode::WriteMode => {
                        let dirty = writemode::handle_key_event(state, k, editor_height);
                        (dirty, EditorAction::Nothing)
                    },
                    Mode::EditMode => {
                        let dirty = editmode::handle_key_event(state, k, editor_height);
                        (dirty, EditorAction::Nothing)
                    },
                    Mode::MenuMode => {
                        if k.code == Key::Enter {
                            let option = state.menu.menu_option;
                            let item = state.menu.menu_item;
                            let _ = state.menu.select();
                            if option == 0 && item == 2 {
                                state.mode = Mode::WriteMode;
                                let name = clone_line(&state.file_name);
                                let action = EditorAction::Save(name);
                                proof {
                                    assert(state@ =~~= target.0);
                                    assert(action@ =~~= target.2);
                                }
                                (ChangedLineType::All, action)
                            } else if option == 0 && item == 3 {
                                state.mode = Mode::ConsoleMode;
                                proof {
                                    assert(state@ =~~= target.0);
                                }
                                (ChangedLineType::All, EditorAction::Nothing)
                            } else {
                                state.mode = Mode::WriteMode;
                                proof {
                                    assert(state@ =~~= target.0);
                                }
                                (ChangedLineType::All, EditorAction::Nothing)
                            }
                        } else {
                            let dirty = state.menu.handle_key_event(k);
                            proof {
                                assert(state@ =~~= target.0);
                            }
                            (dirty, EditorAction::Nothing)
                        }
                    },
                    Mode::ConsoleMode => (ChangedLineType::Unchanged, EditorAction::Nothing),
                }
            }
        },
    }
}

} // verus!
