pub mod log;

use vstd::prelude::*;
use crate::debugger::shell::log::{Log, log_wf, spec_back, spec_forward, spec_push};

verus! {

/// The debugger's prompt: the history of what was typed in it.
pub struct Shell {
    pub history: Log,
}

impl Shell {
    /// A prompt with a history of 500 entries.
    pub fn new() -> (r: Shell)
        ensures
            r.history@.data == seq![Seq::<char>::empty()],
            r.history@.limit == 500,
            r.history@.index == 0,
            log_wf(r.history@),
    {
        Shell { history: Log::new(500) }
    }

    /// Records an input that was submitted.
    pub fn submit(&mut self, input: String)
        ensures
            final(self).history@ == spec_push(old(self).history@, input@),
            log_wf(final(self).history@),
    {
        self.history.push(input);
    }

    /// Moves to the older entry and returns it.
    pub fn back(&mut self) -> (r: Option<String>)
        ensures
            final(self).history@ == spec_back(old(self).history@),
            log_wf(final(self).history@),
            r matches Some(s) && s@ == final(self).history@.data[final(self).history@.index as int],
    {
        self.history.back();
        match self.history.get() {
            Some(value) => Some(value.clone()),
            None => None,
        }
    }

    /// Moves to the newer entry and returns it.
    pub fn forward(&mut self) -> (r: Option<String>)
        ensures
            final(self).history@ == spec_forward(old(self).history@),
            log_wf(final(self).history@),
            r matches Some(s) && s@ == final(self).history@.data[final(self).history@.index as int],
    {
        self.history.forward();
        match self.history.get() {
            Some(value) => Some(value.clone()),
            None => None,
        }
    }

    /// Applies one action to the line being typed, `input`: returns the line after it,
    /// and whether it was submitted. Submitting records the line in the history; moving
    /// back or forward replaces the line by the history entry reached; a character is
    /// appended; a backspace removes the last character, if any.
    pub fn step(&mut self, input: String, action: Action) -> (r: (String, bool))
        ensures
            r.1 == (action == Action::Submit),
            match action {
                Action::Submit => r.0@ == input@
                    && final(self).history@ == spec_push(old(self).history@, input@),
                Action::Back => final(self).history@ == spec_back(old(self).history@)
                    && r.0@ == final(self).history@.data[final(self).history@.index as int],
                Action::Forward => final(self).history@ == spec_forward(old(self).history@)
                    && r.0@ == final(self).history@.data[final(self).history@.index as int],
                Action::Char(c) => r.0@ == input@.push(c) && final(self).history@ == old(self).history@,
                Action::Backspace => r.0@ == (if input@.len() > 0 { input@.drop_last() } else { input@ })
                    && final(self).history@ == old(self).history@,
            },
    {
        let mut input = input;
        match action {
            Action::Submit => {
                self.submit(input.clone());
                (input, true)
            },
            Action::Back => {
                if let Some(value) = self.back() {
                    input = value;
                }
                (input, false)
            },
            Action::Forward => {
                if let Some(value) = self.forward() {
                    input = value;
                }
                (input, false)
            },
            Action::Char(c) => {
                string_push(&mut input, c);
                (input, false)
            },
            Action::Backspace => {
                let _ = string_pop(&mut input);
                (input, false)
            },
        }
    }
}

/// What a key at the prompt asks for.
#[derive(Debug, Copy, Clone, PartialEq, Eq, Structural)]
pub enum Action {
    /// Show the next older entry of the history.
    Back,
    /// Show the next newer entry of the history.
    Forward,
    /// Type a character.
    Char(char),
    /// Submit the line.
    Submit,
    /// Erase the last character.
    Backspace,
}

/// The action a typed character asks for: DEL (0x7F) erases, printable ASCII (0x20 to
/// 0x7E) is typed, anything else is ignored.
pub open spec fn spec_char_action(value: char) -> Option<Action> {
    if value as u32 == 0x7F {
        Some(Action::Backspace)
    } else if 0x20 <= value as u32 <= 0x7E {
        Some(Action::Char(value))
    } else {
        None
    }
}

/// The action a typed character asks for, if any.
pub fn char_action(value: char) -> (r: Option<Action>)
    ensures
        r == spec_char_action(value),
{
    let code: u32 = value as u32;
    if code == 0x7F {
        Some(Action::Backspace)
    } else if 0x20 <= code && code <= 0x7E {
        Some(Action::Char(value))
    } else {
        None
    }
}

/// `String::push`: appends a character at the end.
#[verifier::external_body]
fn string_push(s: &mut String, c: char)
    ensures
        final(s)@ == old(s)@.push(c),
{
    s.push(c);
}

/// `String::pop`: removes the last character and returns it, or returns `None` and
/// leaves the string as it is when it is empty.
#[verifier::external_body]
fn string_pop(s: &mut String) -> (r: Option<char>)
    ensures
        old(s)@.len() == 0 ==> r is None && final(s)@ == old(s)@,
        old(s)@.len() > 0 ==> r == Some(old(s)@.last()) && final(s)@ == old(s)@.drop_last(),
{
    s.pop()
}

} // verus!
