//! Classification of terminal key presses.
//!
//! The input reader blocks on the terminal in the surrounding process; every
//! key press it sees is reduced to a [`KeyPress`] and classified here. Quit
//! signals (Escape, 'q', Ctrl+C) stop the reader, recognized command keys are
//! relayed to the multiplexer, everything else is dropped.

use vstd::prelude::*;

verus! {

/// A key as the terminal delivers it, reduced to what the bridge reads.
#[derive(Clone, Copy, PartialEq, Eq, Structural, Debug)]
pub enum TermKey {
    Up,
    Down,
    Left,
    Right,
    Esc,
    Char(char),
    Other,
}

/// One terminal key press: the key and whether Control was held.
#[derive(Clone, Copy, PartialEq, Eq, Structural, Debug)]
pub struct KeyPress {
    pub key: TermKey,
    pub ctrl: bool,
}

/// A classified key event, as the multiplexer consumes it.
#[derive(Clone, Copy, PartialEq, Eq, Structural, Debug)]
pub enum KeyEvent {
    ArrowUp,
    ArrowDown,
    ArrowLeft,
    ArrowRight,
    Space,
    Quit,
    Other,
}

/// What the input reader does with one key press.
#[derive(Clone, Copy, PartialEq, Eq, Structural, Debug)]
pub enum ReaderAction {
    /// Stop the reader loop; no further events are relayed.
    Stop,
    /// Push the event onto the relay channel.
    Relay(KeyEvent),
    /// Drop the event silently.
    Ignore,
}

/// True of the events that translate into a velocity command.
pub open spec fn is_command_key(k: KeyEvent) -> bool {
    match k {
        KeyEvent::ArrowUp => true,
        KeyEvent::ArrowDown => true,
        KeyEvent::ArrowLeft => true,
        KeyEvent::ArrowRight => true,
        KeyEvent::Space => true,
        KeyEvent::Quit => false,
        KeyEvent::Other => false,
    }
}

/// How a key press is classified: Escape, 'q' and Ctrl+C are quit signals,
/// the arrow keys and the space bar are command keys, anything else is noise.
pub open spec fn spec_classify(p: KeyPress) -> KeyEvent {
    match p.key {
        TermKey::Esc => KeyEvent::Quit,
        TermKey::Up => KeyEvent::ArrowUp,
        TermKey::Down => KeyEvent::ArrowDown,
        TermKey::Left => KeyEvent::ArrowLeft,
        TermKey::Right => KeyEvent::ArrowRight,
        TermKey::Char(c) => if c == 'q' {
            KeyEvent::Quit
        } else if c == 'c' && p.ctrl {
            KeyEvent::Quit
        } else if c == ' ' {
            KeyEvent::Space
        } else {
            KeyEvent::Other
        },
        TermKey::Other => KeyEvent::Other,
    }
}

/// What the reader does with a classified event: quit signals stop it,
/// command keys are relayed, the rest is dropped.
pub open spec fn spec_reader_action(p: KeyPress) -> ReaderAction {
    let k = spec_classify(p);
    if k == KeyEvent::Quit {
        ReaderAction::Stop
    } else if is_command_key(k) {
        ReaderAction::Relay(k)
    } else {
        ReaderAction::Ignore
    }
}

/// Classifies one terminal key press.
pub fn classify(p: KeyPress) -> (k: KeyEvent)
    ensures
        k == spec_classify(p),
{
    match p.key {
        TermKey::Esc => KeyEvent::Quit,
        TermKey::Up => KeyEvent::ArrowUp,
        TermKey::Down => KeyEvent::ArrowDown,
        TermKey::Left => KeyEvent::ArrowLeft,
        TermKey::Right => KeyEvent::ArrowRight,
        TermKey::Char(c) => {
            if c == 'q' {
                KeyEvent::Quit
            } else if c == 'c' && p.ctrl {
                KeyEvent::Quit
            } else if c == ' ' {
                KeyEvent::Space
            } else {
                KeyEvent::Other
            }
        },
        TermKey::Other => KeyEvent::Other,
    }
}

/// Decides what the input reader does with one key press. A quit signal
/// always stops the reader, and a quit signal is never relayed.
pub fn reader_action(p: KeyPress) -> (a: ReaderAction)
    ensures
        a == spec_reader_action(p),
        spec_classify(p) == KeyEvent::Quit <==> a == ReaderAction::Stop,
        forall|k: KeyEvent| a == ReaderAction::Relay(k) ==> is_command_key(k),
{
    let k = classify(p);
    match k {
        KeyEvent::Quit => ReaderAction::Stop,
        KeyEvent::Other => ReaderAction::Ignore,
        _ => ReaderAction::Relay(k),
    }
}

} // verus!
