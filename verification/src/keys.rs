//! Key and mouse events, as far as the UI tells them apart.

use crate::host::Platform;
use vstd::prelude::*;

verus! {

/// A key.
#[derive(Clone, Copy, PartialEq, Eq, Structural, Debug)]
pub enum KeyCode {
    Char(char),
    Enter,
    Esc,
    Tab,
    Backspace,
    Delete,
    Left,
    Right,
    Up,
    Down,
    Home,
    End,
    PageUp,
    PageDown,
    Other,
}

/// A key event with the modifiers that were held.
#[derive(Clone, Copy, PartialEq, Eq, Structural, Debug)]
pub struct KeyEvent {
    pub code: KeyCode,
    pub control: bool,
    pub alt: bool,
    /// Cmd on a Mac.
    pub command: bool,
    /// A press, as opposed to a repeat or a release.
    pub press: bool,
}

/// A mouse event.
#[derive(Clone, Copy, PartialEq, Eq, Structural, Debug)]
pub enum MouseEvent {
    ScrollUp,
    ScrollDown,
    Other,
}

/// Whether a key is the letter `c`, in either case.
pub open spec fn letter(code: KeyCode, lower: char, upper: char) -> bool {
    code == KeyCode::Char(lower) || code == KeyCode::Char(upper)
}

fn is_letter(code: KeyCode, lower: char, upper: char) -> (r: bool)
    ensures
        r == letter(code, lower, upper),
{
    match code {
        KeyCode::Char(c) => c == lower || c == upper,
        _ => false,
    }
}

impl KeyEvent {
    /// A key pressed with no modifier.
    pub fn plain(code: KeyCode) -> (r: KeyEvent)
        ensures
            r == (KeyEvent { code, control: false, alt: false, command: false, press: true }),
    {
        KeyEvent { code, control: false, alt: false, command: false, press: true }
    }

    /// A key pressed with Ctrl.
    pub fn with_control(code: KeyCode) -> (r: KeyEvent)
        ensures
            r == (KeyEvent { code, control: true, alt: false, command: false, press: true }),
    {
        KeyEvent { code, control: true, alt: false, command: false, press: true }
    }

    /// Whether the event is Ctrl and a letter.
    pub open spec fn control_letter(self, lower: char, upper: char) -> bool {
        self.control && letter(self.code, lower, upper)
    }

    /// Whether the event is Ctrl and a letter.
    pub fn is_control_letter(&self, lower: char, upper: char) -> (r: bool)
        ensures
            r == self.control_letter(lower, upper),
    {
        self.control && is_letter(self.code, lower, upper)
    }

    /// Whether the event is a letter, whatever is held.
    pub fn is_letter(&self, lower: char, upper: char) -> (r: bool)
        ensures
            r == letter(self.code, lower, upper),
    {
        is_letter(self.code, lower, upper)
    }

    /// The chord that pastes an image: Alt+V on Windows, Cmd+V on a Mac,
    /// Ctrl+V on any other Unix.
    pub open spec fn pastes_image(self, platform: Platform) -> bool {
        letter(self.code, 'v', 'V') && match platform {
            Platform::Windows => self.alt && !self.control,
            Platform::MacOs => self.command,
            Platform::Unix => self.control && !self.alt,
            Platform::Other => false,
        }
    }

    /// The chord that pastes an image.
    pub fn is_image_paste_chord(&self, platform: Platform) -> (r: bool)
        ensures
            r == self.pastes_image(platform),
    {
        if !is_letter(self.code, 'v', 'V') {
            return false;
        }
        match platform {
            Platform::Windows => self.alt && !self.control,
            Platform::MacOs => self.command,
            Platform::Unix => self.control && !self.alt,
            Platform::Other => false,
        }
    }
}

} // verus!
