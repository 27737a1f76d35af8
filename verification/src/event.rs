//! Keys as the editor reads them, and what each key asks for.

use vstd::prelude::*;

verus! {

/// The keys that the editor tells apart.
#[derive(Clone, Copy, Debug, PartialEq, Eq, Structural)]
pub enum KeyCode {
    /// A key that stands for a character.
    Char(char),
    Backspace,
    Left,
    Right,
    Enter,
    /// Any other key.
    Other,
}

/// The modifier keys that were held down with a key, one bit for each, in
/// the layout of crossterm's `KeyModifiers`.
#[derive(Clone, Copy, Debug, PartialEq, Eq, Structural)]
pub struct KeyModifiers {
    pub bits: u8,
}

/// The bit of the shift key in [`KeyModifiers`].
pub const SHIFT: u8 = 0x01;

/// The bit of the control key in [`KeyModifiers`].
pub const CONTROL: u8 = 0x02;

/// One event from the terminal.
#[derive(Clone, Copy, Debug, PartialEq, Eq, Structural)]
pub enum Event {
    /// A key was pressed.
    Key(KeyModifiers, KeyCode),
    /// Anything else: the terminal was resized, the mouse moved.
    Other,
}

/// What a key asks the editor to do.
#[derive(Clone, Copy, Debug, PartialEq, Eq, Structural)]
pub enum Intent {
    /// Put a character in at the cursor.
    Insert(char),
    /// Remove the character before the cursor.
    Backspace,
    /// Move the cursor one character to the left.
    Left,
    /// Move the cursor one character to the right.
    Right,
    /// Hand the line over.
    Enter,
    /// Leave the shell.
    Interrupt,
    /// Drop the line and start again on a cleared screen.
    ClearScreen,
    /// Nothing at all.
    Nothing,
}

/// What the read loop is told to do after a key.
#[derive(Clone, Copy, Debug, PartialEq, Eq, Structural)]
pub enum ReplAction {
    /// Hand the line to the shell.
    Return,
    /// Drop the line and prompt again.
    Clear,
    /// Leave the shell.
    Exit,
    /// Go on reading.
    Ignore,
}

impl Event {
    /// The table of the keys. A character is typed with no modifier or with
    /// shift alone; backspace, the two arrows and enter count with no
    /// modifier; `c` and `l` with control alone leave the shell and clear the
    /// screen. Every other key, and every event that is no key, asks for
    /// nothing.
    pub open spec fn intent(self) -> Intent {
        match self {
            Event::Key(modifiers, KeyCode::Char(ch)) => if modifiers.bits == 0 || modifiers.bits
                == SHIFT {
                Intent::Insert(ch)
            } else if modifiers.bits == CONTROL && ch == 'c' {
                Intent::Interrupt
            } else if modifiers.bits == CONTROL && ch == 'l' {
                Intent::ClearScreen
            } else {
                Intent::Nothing
            },
            Event::Key(modifiers, KeyCode::Backspace) => if modifiers.bits == 0 {
                Intent::Backspace
            } else {
                Intent::Nothing
            },
            Event::Key(modifiers, KeyCode::Left) => if modifiers.bits == 0 {
                Intent::Left
            } else {
                Intent::Nothing
            },
            Event::Key(modifiers, KeyCode::Right) => if modifiers.bits == 0 {
                Intent::Right
            } else {
                Intent::Nothing
            },
            Event::Key(modifiers, KeyCode::Enter) => if modifiers.bits == 0 {
                Intent::Enter
            } else {
                Intent::Nothing
            },
            Event::Key(_, KeyCode::Other) => Intent::Nothing,
            Event::Other => Intent::Nothing,
        }
    }

    /// What this event asks for.
    pub fn classify(&self) -> (intent: Intent)
        ensures
            intent == self.intent(),
    {
        match *self {
            Event::Key(modifiers, code) => {
                let plain = modifiers.bits == 0;
                match code {
                    KeyCode::Char(ch) => {
                        if plain || modifiers.bits == SHIFT {
                            Intent::Insert(ch)
                        } else if modifiers.bits == CONTROL && ch == 'c' {
                            Intent::Interrupt
                        } else if modifiers.bits == CONTROL && ch == 'l' {
                            Intent::ClearScreen
                        } else {
                            Intent::Nothing
                        }
                    },
                    KeyCode::Backspace => if plain {
                        Intent::Backspace
                    } else {
                        Intent::Nothing
                    },
                    KeyCode::Left => if plain {
                        Intent::Left
                    } else {
                        Intent::Nothing
                    },
                    KeyCode::Right => if plain {
                        Intent::Right
                    } else {
                        Intent::Nothing
                    },
                    KeyCode::Enter => if plain {
                        Intent::Enter
                    } else {
                        Intent::Nothing
                    },
                    KeyCode::Other => Intent::Nothing,
                }
            },
            Event::Other => Intent::Nothing,
        }
    }
}

} // verus!
