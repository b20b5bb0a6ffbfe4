//! The single-line console prompt: it captures typed text for a pending
//! action (such as choosing a file name) until the text is submitted or
//! discarded.

use vstd::prelude::*;
use crate::events::{Key, KeyInput};

verus! {

/// What a submitted console line is for.
#[derive(Clone, Copy, Debug, PartialEq, Eq, Structural)]
pub enum ConsoleAction {
    /// The captured text is the file name to save the buffer under.
    SaveAs,
}

pub struct Console {
    /// A message shown above the input line.
    pub prompt: Vec<char>,
    /// The text captured so far.
    pub input: Vec<char>,
    /// The caret position within the captured text.
    pub current_char: usize,
    pub submitted: bool,
    /// The pending action a submission will trigger.
    pub action: ConsoleAction,
}

impl Console {
    /// The caret never leaves the captured text.
    pub open spec fn wf(self) -> bool {
        self.current_char <= self.input@.len()
    }

    /// An empty prompt pending a save-as action.
    pub fn new() -> (r: Console)
        ensures
            r.wf(),
            r.prompt@.len() == 0,
            r.input@.len() == 0,
            r.current_char == 0,
            !r.submitted,
            r.action == ConsoleAction::SaveAs,
    {
        Console {
            prompt: Vec::new(),
            input: Vec::new(),
            current_char: 0,
            submitted: false,
            action: ConsoleAction::SaveAs,
        }
    }

    /// The action a submission will trigger.
    pub fn get_action(&mut self) -> (r: &ConsoleAction)
        ensures
            *final(self) == *old(self),
            *r == old(self).action,
    {
        &self.action
    }

    /// Hands back the captured text and clears the prompt for the next use.
    pub fn submit(&mut self) -> (r: Vec<char>)
        ensures
            r@ == old(self).input@,
            *final(self) == (Console { input: final(self).input, current_char: 0, ..*old(self) }),
            final(self).input@.len() == 0,
            final(self).wf(),
    {
        let result = self.input.clone();
        assert(result@ =~= old(self).input@);
        self.input.clear();
        self.current_char = 0;
        result
    }

    /// Throws the captured text away, as when the prompt is cancelled.
    pub fn discard(&mut self)
        ensures
            *final(self) == (Console { input: final(self).input, current_char: 0, ..*old(self) }),
            final(self).input@.len() == 0,
            final(self).wf(),
    {
        self.input.clear();
        self.current_char = 0;
    }

    /// Appends a typed character to the captured text; any other key leaves
    /// the console untouched.
    pub fn handle_key_event(&mut self, key_event: KeyInput)
        requires
            old(self).wf(),
        ensures
            (key_event.code matches Key::Char(_)) ==> *final(self) == (Console {
                input: final(self).input,
                ..*old(self)
            }) && final(self).input@ == old(self).input@.push(key_event.code->Char_0),
            !(key_event.code matches Key::Char(_)) ==> *final(self) == *old(self),
            final(self).wf(),
    {
        match key_event.code {
            Key::Char(c) => {
                self.input.push(c);
            },
            _ => {},
        }
    }
}

} // verus!
