//! Edit mode: navigation with single letter keys, in the style of a modal
//! editor. Plain letters move the cursor; with Alt held, a line is dragged
//! past its neighbour or a move covers a whole word; `q` returns to write
//! mode.

use vstd::prelude::*;
use crate::buffer::{swap_lines_spec, swap_with_next, swap_with_previous};
use crate::events::{Key, KeyInput};
use crate::functions::{
    move_down, move_left, move_left_spec, move_right, move_right_spec, move_up,
};
use crate::state::{move_down_model, move_up_model, EditorModel, EditorState};
use crate::{ChangedLineType, Mode};

verus! {

/// What one key does to the editor in edit mode. `i`/`k` move up and down
/// (with Alt: drag the current line past its neighbour), `l`/`j` move right
/// and left (`l` with Alt covers a whole word), `u`/`o` jump to the start
/// and end of the line, and `q` returns to write mode; everything else is a
/// no-op.
pub open spec fn editmode_step(m: EditorModel, key: KeyInput, h: int) -> EditorModel {
    match key.code {
        Key::Char(c) => {
            if c == 'i' {
                if key.alt {
                    if m.line > 0 {
                        EditorModel {
                            lines: swap_lines_spec(m.lines, m.line - 1, m.line),
                            line: m.line - 1,
                            ..m
                        }
                    } else {
                        m
                    }
                } else {
                    move_up_model(m, h)
                }
            } else if c == 'k' {
                if key.alt {
                    if m.line + 1 < m.lines.len() {
                        EditorModel {
                            lines: swap_lines_spec(m.lines, m.line, m.line + 1),
                            line: m.line + 1,
                            ..m
                        }
                    } else {
                        m
                    }
                } else {
                    move_down_model(m, h)
                }
            } else if c == 'l' {
                EditorModel { col: move_right_spec(m.lines[m.line], m.col, key.alt), ..m }
            } else if c == 'j' {
                EditorModel { col: move_left_spec(m.lines[m.line], m.col, false), ..m }
            } else if c == 'u' {
                EditorModel { col: 0, ..m }
            } else if c == 'o' {
                EditorModel { col: m.lines[m.line].len() as int, ..m }
            } else if c == 'q' {
                EditorModel { mode: Mode::WriteMode, ..m }
            } else {
                m
            }
        },
        _ => m,
    }
}

/// Applies one key press in edit mode, exactly as `editmode_step` says, and
/// asks for a full redraw. The editor invariants are preserved, and nothing
/// outside the document, cursor, scroll and mode is touched.
pub fn handle_key_event(state: &mut EditorState, key_event: KeyInput, editor_height: usize) -> (r:
    ChangedLineType)
    requires
        old(state).wf(),
        editor_height >= 1,
        old(state).lines@.len() + editor_height + 2 <= usize::MAX,
    ensures
        final(state).wf(),
        final(state)@ == editmode_step(old(state)@, key_event, editor_height as int),
        r == ChangedLineType::All,
        final(state).menu == old(state).menu,
        final(state).console == old(state).console,
        final(state).file_name == old(state).file_name,
        final(state).info_text == old(state).info_text,
        final(state).lines@.len() == old(state).lines@.len(),
{
    let ghost m0 = state@;
    let ghost target = editmode_step(m0, key_event, editor_height as int);
    match key_event.code {
        Key::Char(c) => {
            match c {
                'i' => {
                    if key_event.alt {
                        let changed = swap_with_previous(&mut state.lines, state.current_line);
                        if changed {
                            state.current_line -= 1;
                        }
                        proof {
                            assert(state@ =~~= target);
                        }
                    } else {
                        move_up(
                            &mut state.current_line,
                            &mut state.current_char,
                            &mut state.current_scroll,
                            &editor_height,
                            &state.lines,
                        );
                        proof {
                            assert(state@ =~~= target);
                        }
                    }
                },
                'k' => {
                    if key_event.alt {
                        let changed = swap_with_next(&mut state.lines, state.current_line);
                        if changed {
                            state.current_line += 1;
                        }
                        proof {
                            assert(state@ =~~= target);
                        }
                    } else {
                        move_down(
                            &mut state.current_line,
                            &mut state.current_char,
                            &mut state.current_scroll,
                            &editor_height,
                            &state.lines,
                        );
                        proof {
                            assert(state@ =~~= target);
                        }
                    }
                },
                'l' => {
                    proof {
                        assert(state.lines.deep_view()[state.current_line as int]
                            == state.lines@[state.current_line as int]@);
                    }
                    move_right(
                        &mut state.current_char,
                        &state.current_line,
                        &state.lines,
                        key_event.alt,
                    );
                    proof {
                        assert(state@ =~~= target);
                    }
                },
                'j' => {
                    proof {
                        assert(state.lines.deep_view()[state.current_line as int]
                            == state.lines@[state.current_line as int]@);
                    }
                    move_left(&mut state.current_char, &state.current_line, &state.lines, false);
                    proof {
                        assert(state@ =~~= target);
                    }
                },
                'u' => {
                    state.current_char = 0;
                },
                'o' => {
                    state.current_char = state.lines[state.current_line].len();
                },
                'q' => {
                    state.mode = Mode::WriteMode;
                },
                _ => {},
            }
        },
        _ => {},
    }
    proof {
        assert(state@ =~~= target);
    }
    ChangedLineType::All
}

} // verus!
