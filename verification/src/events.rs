//! Input events as plain values. The terminal layer decodes whatever the
//! backend delivers into these types before handing them to the dispatcher.

use vstd::prelude::*;

verus! {

/// A decoded key, without modifiers.
#[derive(Clone, Copy, Debug, PartialEq, Eq, Structural)]
pub enum Key {
    /// A printable character.
    Char(char),
    Enter,
    Backspace,
    Tab,
    Esc,
    Up,
    Down,
    Left,
    Right,
    /// A function key, by number.
    Function(u8),
    /// Any key the editor does not interpret.
    Other,
}

/// A key press together with its modifier state.
#[derive(Clone, Copy, Debug, PartialEq, Eq, Structural)]
pub struct KeyInput {
    pub code: Key,
    pub alt: bool,
    pub ctrl: bool,
}

impl KeyInput {
    /// A key press with no modifiers held.
    pub fn plain(code: Key) -> (r: KeyInput)
        ensures
            r == (KeyInput { code, alt: false, ctrl: false }),
    {
        KeyInput { code, alt: false, ctrl: false }
    }
}

/// One terminal input event, as seen by the dispatcher.
#[derive(Clone, Copy, Debug, PartialEq, Eq, Structural)]
pub enum InputEvent {
    Key(KeyInput),
    /// The terminal was resized to the given width and height.
    Resize(u16, u16),
    /// A mouse wheel step away from the top of the buffer.
    ScrollDown,
    /// A mouse wheel step towards the top of the buffer.
    ScrollUp,
}

/// What the caller of the dispatcher must do after an input cycle. The
/// library only decides; performing the action (writing a file, exiting)
/// is the caller's job.
#[derive(Debug)]
pub enum EditorAction {
    /// Keep looping; no outside work requested.
    Nothing,
    /// Leave the editor.
    Quit,
    /// Join the buffer lines with newlines and write them under this name.
    Save(Vec<char>),
}

/// The mathematical model of an [`EditorAction`]: the saved-under name as a
/// character sequence.
#[verifier::ext_equal]
pub enum ActionModel {
    Nothing,
    Quit,
    Save(Seq<char>),
}

impl View for EditorAction {
    type V = ActionModel;

    open spec fn view(&self) -> ActionModel {
        match self {
            EditorAction::Nothing => ActionModel::Nothing,
            EditorAction::Quit => ActionModel::Quit,
            EditorAction::Save(name) => ActionModel::Save(name@),
        }
    }
}

} // verus!
