//! The whole editor state as one explicit aggregate, together with its
//! mathematical model. Handlers and the dispatcher take the state by
//! reference; their contracts are stated over the model.

use vstd::prelude::*;
use crate::console::Console;
use crate::functions::{
    cursor_wf, doc_wf, landed_col_spec, move_up_scroll_spec, recompute_scroll_spec,
};
use crate::menu::Menu;
use crate::Mode;

verus! {

/// The mathematical model of the editor: the document as a sequence of
/// character sequences, the cursor, the scroll offset, the active mode, the
/// menu highlight, and the captured console text.
#[verifier::ext_equal]
pub struct EditorModel {
    pub lines: Seq<Seq<char>>,
    pub line: int,
    pub col: int,
    pub scroll: int,
    pub mode: Mode,
    pub menu_option: int,
    pub menu_item: int,
    pub console_input: Seq<char>,
    pub file_name: Seq<char>,
    pub info_text: Seq<char>,
}

/// A downward cursor move has room to go.
pub open spec fn can_move_down(m: EditorModel) -> bool {
    m.line + 1 < m.lines.len()
}

/// An upward cursor move has room to go.
pub open spec fn can_move_up(m: EditorModel) -> bool {
    m.line > 0
}

/// The model after the cursor moves down one line: the column is clamped to
/// the new line's length and the scroll offset keeps the cursor row
/// visible. At the last line nothing changes.
pub open spec fn move_down_model(m: EditorModel, h: int) -> EditorModel {
    if can_move_down(m) {
        EditorModel {
            line: m.line + 1,
            col: landed_col_spec(m.lines[m.line + 1], m.col),
            scroll: recompute_scroll_spec(m.line + 1, m.scroll, h),
            ..m
        }
    } else {
        m
    }
}

/// The model after the cursor moves up one line, mirroring
/// `move_down_model`; at the first line only the scroll offset is reset.
pub open spec fn move_up_model(m: EditorModel, h: int) -> EditorModel {
    if can_move_up(m) {
        EditorModel {
            line: m.line - 1,
            col: landed_col_spec(m.lines[m.line - 1], m.col),
            scroll: move_up_scroll_spec(m.line - 1, m.scroll, h),
            ..m
        }
    } else {
        EditorModel { scroll: 0, ..m }
    }
}

/// The in-memory editor state. The document always holds at least one line;
/// the cursor always points into it.
pub struct EditorState {
    pub lines: Vec<Vec<char>>,
    pub current_line: usize,
    pub current_char: usize,
    pub current_scroll: usize,
    pub mode: Mode,
    pub menu: Menu,
    pub console: Console,
    /// The name the buffer is saved under when no other is given.
    pub file_name: Vec<char>,
    /// A one-line status message shown in the skeleton.
    pub info_text: Vec<char>,
}

impl View for EditorState {
    type V = EditorModel;

    open spec fn view(&self) -> EditorModel {
        EditorModel {
            lines: self.lines.deep_view(),
            line: self.current_line as int,
            col: self.current_char as int,
            scroll: self.current_scroll as int,
            mode: self.mode,
            menu_option: self.menu.menu_option as int,
            menu_item: self.menu.menu_item as int,
            console_input: self.console.input@,
            file_name: self.file_name@,
            info_text: self.info_text@,
        }
    }
}

impl EditorState {
    /// Every invariant of the editor at once: the document is non-empty,
    /// the cursor points at an existing line with its column at most that
    /// line's length, the scroll offset never runs past the end of the
    /// document, the menu and console are well formed, and menu mode is
    /// only ever active with a visible menu.
    pub open spec fn wf(self) -> bool {
        &&& doc_wf(self.lines.deep_view())
        &&& cursor_wf(self.lines.deep_view(), self.current_line as int, self.current_char as int)
        &&& self.current_scroll <= self.lines@.len()
        &&& self.menu.wf()
        &&& self.console.wf()
        &&& (self.mode == Mode::MenuMode ==> self.menu.visible())
    }

    /// A fresh editor over the given document (or a single empty line when
    /// none is given), in write mode, with the cursor and scroll at the top.
    pub fn new(lines: Vec<Vec<char>>, file_name: Vec<char>) -> (r: EditorState)
        ensures
            r.wf(),
            lines@.len() > 0 ==> r.lines@ == lines@,
            lines@.len() == 0 ==> r.lines.deep_view() == seq![Seq::<char>::empty()],
            r.current_line == 0,
            r.current_char == 0,
            r.current_scroll == 0,
            r.mode == Mode::WriteMode,
            r.file_name@ == file_name@,
            r.info_text@.len() == 0,
            r.console.input@.len() == 0,
            !r.menu.visible(),
    {
        let mut lines = lines;
        if lines.len() == 0 {
            lines.push(Vec::new());
            assert(lines.deep_view() =~~= seq![Seq::<char>::empty()]);
        }
        EditorState {
            lines,
            current_line: 0,
            current_char: 0,
            current_scroll: 0,
            mode: Mode::WriteMode,
            menu: Menu::new(),
            console: Console::new(),
            file_name,
            info_text: Vec::new(),
        }
    }

    /// Replaces the status message, as after a save attempt is reported.
    pub fn set_info_text(&mut self, text: Vec<char>)
        requires
            old(self).wf(),
        ensures
            final(self).wf(),
            *final(self) == (EditorState { info_text: final(self).info_text, ..*old(self) }),
            final(self).info_text@ == text@,
    {
        self.info_text = text;
    }
}

} // verus!
