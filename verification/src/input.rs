//! The input accumulator: turns resolved key events into edits of the secret
//! buffer. Keysym resolution itself happens outside; only the resolved stream
//! is consumed here.

use vstd::prelude::*;

verus! {

/// One key event after external keysym resolution.
#[derive(Clone, Copy, Debug, PartialEq, Eq, Structural)]
pub enum Key {
    /// Return or keypad Enter: submit the buffer for authentication.
    Return,
    /// Backspace: drop the last character, if any.
    Backspace,
    /// A keysym that maps to a printable character.
    Char(char),
    /// Modifiers, function keys and everything else: ignored.
    Other,
}

/// What the orchestrator should do after a key event was applied.
#[derive(Clone, Copy, Debug, PartialEq, Eq, Structural)]
pub enum KeyAction {
    /// The buffer should be submitted to the authentication gate.
    Submit,
    /// Keep collecting input.
    Continue,
}

/// Relies on std's String::push: appends one character at the end.
#[verifier::external_body]
pub(crate) fn string_push(s: &mut String, c: char)
    ensures
        final(s)@ == old(s)@.push(c),
{
    s.push(c);
}

/// Relies on std's String::pop: removes and returns the last character, or
/// returns None and leaves the string as it is when it is empty.
#[verifier::external_body]
pub(crate) fn string_pop(s: &mut String) -> (r: Option<char>)
    ensures
        old(s)@.len() == 0 ==> r is None && final(s)@ == old(s)@,
        old(s)@.len() > 0 ==> r == Some(old(s)@.last()) && final(s)@ == old(s)@.drop_last(),
{
    s.pop()
}

/// Relies on std's String::clear: removes every character.
#[verifier::external_body]
pub(crate) fn string_clear(s: &mut String)
    ensures
        final(s)@ == Seq::<char>::empty(),
{
    s.clear();
}

/// Apply one resolved key event to the secret buffer.
///
/// Return asks for a submit and leaves the buffer alone (clearing it is the
/// authentication gate's job); Backspace drops the last character and is a
/// no-op on an empty buffer; a printable character is appended; any other key
/// leaves the buffer unchanged.
pub fn on_key(buffer: &mut String, key: Key) -> (action: KeyAction)
    ensures
        key == Key::Return ==> action == KeyAction::Submit && final(buffer)@ == old(buffer)@,
        key == Key::Backspace ==> action == KeyAction::Continue && (old(buffer)@.len() == 0
            ==> final(buffer)@ == old(buffer)@) && (old(buffer)@.len() > 0 ==> final(buffer)@
            == old(buffer)@.drop_last()),
        key matches Key::Char(c) ==> action == KeyAction::Continue && final(buffer)@ == old(
        buffer)@.push(c),
        key == Key::Other ==> action == KeyAction::Continue && final(buffer)@ == old(buffer)@,
{
    match key {
        Key::Return => KeyAction::Submit,
        Key::Backspace => {
            let _ = string_pop(buffer);
            KeyAction::Continue
        },
        Key::Char(c) => {
            string_push(buffer, c);
            KeyAction::Continue
        },
        Key::Other => KeyAction::Continue,
    }
}

} // verus!
