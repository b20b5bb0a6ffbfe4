//! Write mode: literal character entry. Arrow keys move the cursor, Enter
//! breaks the line, Tab inserts a four-space indent, Backspace deletes
//! backward (joining lines at column 0), and any printable character is
//! inserted at the cursor.

use vstd::prelude::*;
use crate::buffer::{
    insert_char, insert_char_spec, insert_tab, insert_tab_spec, delete_before, join_lines_spec,
    remove_before_spec, split_at_spec, split_line_at,
};
use crate::events::{Key, KeyInput};
use crate::functions::{
    jump_to_editor_point, move_down, move_left, move_left_spec, move_right, move_right_spec,
    move_up, recompute_scroll_spec,
};
use crate::state::{can_move_down, can_move_up, move_down_model, move_up_model, EditorModel,
    EditorState};
use crate::ChangedLineType;

verus! {

/// What one key does to the editor in write mode, and what must be redrawn
/// afterwards. Movement keys and character entry also clear the status
/// message; a backspace clears it only when it works at column 0, as a line
/// join (or a no-op at the very start) does.
pub open spec fn writemode_step(m: EditorModel, key: KeyInput, h: int) -> (EditorModel,
    ChangedLineType) {
    match key.code {
        Key::Down => {
            let m1 = EditorModel { info_text: Seq::empty(), ..m };
            (
                move_down_model(m1, h),
                if can_move_down(m) {
                    ChangedLineType::All
                } else {
                    ChangedLineType::Unchanged
                },
            )
        },
        Key::Up => {
            let m1 = EditorModel { info_text: Seq::empty(), ..m };
            (
                move_up_model(m1, h),
                if can_move_up(m) {
                    ChangedLineType::All
                } else {
                    ChangedLineType::Unchanged
                },
            )
        },
        Key::Right => {
            (
                EditorModel {
                    col: move_right_spec(m.lines[m.line], m.col, false),
                    info_text: Seq::empty(),
                    ..m
                },
                if m.col < m.lines[m.line].len() {
                    ChangedLineType::All
                } else {
                    ChangedLineType::Unchanged
                },
            )
        },
        Key::Left => {
            (
                EditorModel {
                    col: move_left_spec(m.lines[m.line], m.col, false),
                    info_text: Seq::empty(),
                    ..m
                },
                if m.col > 0 {
                    ChangedLineType::All
                } else {
                    ChangedLineType::Unchanged
                },
            )
        },
        Key::Enter => {
            (
                EditorModel {
                    lines: split_at_spec(m.lines, m.line, m.col),
                    line: m.line + 1,
                    col: 0,
                    scroll: recompute_scroll_spec(m.line + 1, m.scroll, h),
                    ..m
                },
                ChangedLineType::AllLines,
            )
        },
        Key::Tab => {
            (
                EditorModel { lines: insert_tab_spec(m.lines, m.line, m.col), col: m.col + 4, ..m },
                ChangedLineType::All,
            )
        },
        Key::Char(c) => {
            (
                EditorModel {
                    lines: insert_char_spec(m.lines, m.line, m.col, c),
                    col: m.col + 1,
                    scroll: recompute_scroll_spec(m.line, m.scroll, h),
                    info_text: Seq::empty(),
                    ..m
                },
                ChangedLineType::All,
            )
        },
        Key::Backspace => {
            if m.col > 0 {
                (
                    EditorModel {
                        lines: remove_before_spec(m.lines, m.line, m.col),
                        col: m.col - 1,
                        scroll: recompute_scroll_spec(m.line, m.scroll, h),
                        ..m
                    },
                    ChangedLineType::AllLines,
                )
            } else if m.line > 0 {
                (
                    EditorModel {
                        lines: join_lines_spec(m.lines, m.line),
                        line: m.line - 1,
                        col: m.lines[m.line - 1].len() as int,
                        scroll: recompute_scroll_spec(m.line - 1, m.scroll, h),
                        info_text: Seq::empty(),
                        ..m
                    },
                    ChangedLineType::AllLines,
                )
            } else {
                (EditorModel { info_text: Seq::empty(), ..m }, ChangedLineType::Unchanged)
            }
        },
        _ => (m, ChangedLineType::Unchanged),
    }
}

/// Applies one key press in write mode and reports what must be redrawn,
/// exactly as `writemode_step` says. The editor invariants are preserved,
/// and nothing outside the document, cursor, scroll and status message is
/// touched.
pub fn handle_key_event(state: &mut EditorState, key_event: KeyInput, editor_height: usize) -> (r:
    ChangedLineType)
    requires
        old(state).wf(),
        editor_height >= 1,
        old(state).lines@.len() + editor_height + 2 <= usize::MAX,
        old(state).lines.deep_view()[old(state).current_line as int].len() + 4 <= usize::MAX,
        old(state).current_line >= 1 ==> old(state).lines.deep_view()[old(state).current_line
            - 1].len() + old(state).lines.deep_view()[old(state).current_line as int].len()
            <= usize::MAX,
    ensures
        final(state).wf(),
        final(state)@ == writemode_step(old(state)@, key_event, editor_height as int).0,
        r == writemode_step(old(state)@, key_event, editor_height as int).1,
        final(state).mode == old(state).mode,
        final(state).menu == old(state).menu,
        final(state).console == old(state).console,
        final(state).file_name == old(state).file_name,
        final(state).lines@.len() <= old(state).lines@.len() + 1,
{
    let ghost m0 = state@;
    let ghost target = writemode_step(m0, key_event, editor_height as int);
    match key_event.code {
        Key::Down => {
            state.info_text = Vec::new();
            let changed = move_down(
                &mut state.current_line,
                &mut state.current_char,
                &mut state.current_scroll,
                &editor_height,
                &state.lines,
            );
            proof {
                assert(state@ =~~= target.0);
            }
            if changed {
                ChangedLineType::All
            } else {
                ChangedLineType::Unchanged
            }
        },
        Key::Up => {
            state.info_text = Vec::new();
            let changed = move_up(
                &mut state.current_line,
                &mut state.current_char,
                &mut state.current_scroll,
                &editor_height,
                &state.lines,
            );
            proof {
                assert(state@ =~~= target.0);
            }
            if changed {
                ChangedLineType::All
            } else {
                ChangedLineType::Unchanged
            }
        },
        Key::Right => {
            state.info_text = Vec::new();
            let changed = move_right(
                &mut state.current_char,
                &state.current_line,
                &state.lines,
                false,
            );
            proof {
                assert(state@ =~~= target.0);
            }
            if changed {
                ChangedLineType::All
            } else {
                ChangedLineType::Unchanged
            }
        },
        Key::Left => {
            state.info_text = Vec::new();
            let changed = move_left(
                &mut state.current_char,
                &state.current_line,
                &state.lines,
                false,
            );
            proof {
                assert(state@ =~~= target.0);
            }
            if changed {
                ChangedLineType::All
            } else {
                ChangedLineType::Unchanged
            }
        },
        Key::Enter => {
            split_line_at(&mut state.lines, &mut state.current_line, &mut state.current_char);
            jump_to_editor_point(
                &mut state.current_line,
                &mut state.current_scroll,
                &editor_height,
            );
            proof {
                assert(state@ =~~= target.0);
            }
            ChangedLineType::AllLines
        },
        Key::Tab => {
            insert_tab(&mut state.lines, state.current_line, state.current_char);
            state.current_char += 4;
            proof {
                assert(state@ =~~= target.0);
            }
            ChangedLineType::All
        },
        Key::Char(c) => {
            state.info_text = Vec::new();
            let _ = insert_char(&mut state.lines, state.current_line, state.current_char, c);
            state.current_char += 1;
            jump_to_editor_point(
                &mut state.current_line,
                &mut state.current_scroll,
                &editor_height,
            );
            proof {
                assert(state@ =~~= target.0);
            }
            ChangedLineType::All
        },
        Key::Backspace => {
            if state.current_char == 0 {
                state.info_text = Vec::new();
            }
            let changed = delete_before(
                &mut state.lines,
                &mut state.current_line,
                &mut state.current_char,
            );
            if changed {
                jump_to_editor_point(
                    &mut state.current_line,
                    &mut state.current_scroll,
                    &editor_height,
                );
                proof {
                    assert(state@ =~~= target.0);
                }
                ChangedLineType::AllLines
            } else {
                proof {
                    assert(state@ =~~= target.0);
                }
                ChangedLineType::Unchanged
            }
        },
        _ => {
            proof {
                assert(state@ =~~= target.0);
            }
            ChangedLineType::Unchanged
        },
    }
}

} // verus!
