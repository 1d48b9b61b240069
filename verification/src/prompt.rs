//! Decision logic of the interactive masked password prompt.
//!
//! The surrounding program reads one terminal key at a time, turns it into a
//! [`PromptEvent`], and performs the [`PromptAction`] that `prompt_step`
//! decides: echo a mask character, erase one, or finish. The buffer of
//! characters typed so far lives here and is edited only by `prompt_step`.

use vstd::prelude::*;

verus! {

/// One terminal key, as the prompt cares about it.
#[derive(Clone, Copy, Debug, PartialEq, Eq)]
pub enum PromptEvent {
    /// The enter key: the password is complete.
    Enter,
    /// A printable character.
    Char(char),
    /// The backspace key.
    Backspace,
    /// Any other key, which the prompt ignores.
    Other,
}

/// What the surrounding program must do after a step.
#[derive(Clone, Copy, Debug, PartialEq, Eq)]
pub enum PromptAction {
    /// Stop reading: the buffer holds the whole password.
    Finish,
    /// Echo one mask character for the character just typed.
    EchoMask,
    /// Erase one echoed mask character for the character just removed.
    EraseMask,
    /// Do nothing and read the next key.
    Pass,
}

/// One step of the prompt: apply `event` to the buffer of characters typed
/// so far and say what to do next. Enter leaves the buffer as the final
/// password; a character is appended and echoed as a mask; backspace removes
/// the last character and erases its mask, or does nothing when the buffer
/// is empty; every other key is ignored.
pub fn prompt_step(input: &mut Vec<char>, event: PromptEvent) -> (r: PromptAction)
    ensures
        event matches PromptEvent::Enter ==> final(input)@ == old(input)@ && r == PromptAction::Finish,
        event matches PromptEvent::Char(c)
            ==> final(input)@ == old(input)@.push(c) && r == PromptAction::EchoMask,
        event == PromptEvent::Backspace && old(input)@.len() > 0
            ==> final(input)@ == old(input)@.drop_last() && r == PromptAction::EraseMask,
        event == PromptEvent::Backspace && old(input)@.len() == 0
            ==> final(input)@ == old(input)@ && r == PromptAction::Pass,
        event == PromptEvent::Other ==> final(input)@ == old(input)@ && r == PromptAction::Pass,
{
    match event {
        PromptEvent::Enter => PromptAction::Finish,
        PromptEvent::Char(c) => {
            input.push(c);
            PromptAction::EchoMask
        },
        PromptEvent::Backspace => {
            if input.len() > 0 {
                input.pop();
                PromptAction::EraseMask
            } else {
                PromptAction::Pass
            }
        },
        PromptEvent::Other => PromptAction::Pass,
    }
}

} // verus!
