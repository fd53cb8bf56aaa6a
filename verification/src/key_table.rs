//! What a matrix position produces when its switch is pressed.
//!
//! Keyboard codes are HID keyboard usage values (one byte), consumer codes
//! are HID consumer usage values (two bytes).  A key table is a dense
//! two-dimensional array with one [`KeyFunction`] per position; positions
//! without a switch hold [`KeyFunction::Nothing`].

use vstd::prelude::*;

verus! {

/// Keyboard usage that stands for "no event"; it never enters a report.
pub const NO_EVENT: u8 = 0x00;

/// First of the eight modifier usages (left control).
pub const FIRST_MODIFIER: u8 = 0xE0;

/// Last of the eight modifier usages (right GUI).
pub const LAST_MODIFIER: u8 = 0xE7;

/// A pointer button that a dual-purpose key can stand for.
#[derive(Clone, Copy, Debug, PartialEq, Eq, Structural)]
pub enum MouseButton {
    Left,
    Right,
}

/// The function wired to one matrix position.
#[derive(Clone, Copy, Debug)]
pub enum KeyFunction<'a> {
    /// No switch here.
    Nothing,
    /// One keyboard code.
    Key(u8),
    /// One consumer (media) code.
    Media(u16),
    /// Several keyboard codes emitted together by one switch.
    MultiKey(&'a [u8]),
    /// A keyboard code, or a pointer button while pointer mode is active.
    Dual(u8, MouseButton),
}

/// One entry of a report: what a pressed switch can contribute.
pub enum Event {
    /// A keyboard code in the keyboard report.
    Key(u8),
    /// A consumer code in the consumer report.
    Media(u16),
    /// A button in the pointer report.
    Button(MouseButton),
}

/// The modifier usages: control, shift, alt and GUI, left and right.  Holding
/// only these keeps pointer mode alive.
pub open spec fn is_modifier(code: u8) -> bool {
    FIRST_MODIFIER <= code <= LAST_MODIFIER
}

/// Whether `code` is one of the modifier usages.
pub fn is_mouse_modifier(code: u8) -> (modifier: bool)
    ensures
        modifier == is_modifier(code),
{
    FIRST_MODIFIER <= code && code <= LAST_MODIFIER
}

impl<'a> KeyFunction<'a> {
    /// Whether a pressed switch with this function puts `code` into the
    /// keyboard report.
    pub open spec fn emits_key(self, mouse_mode: bool, code: u8) -> bool {
        code != NO_EVENT && match self {
            KeyFunction::Nothing => false,
            KeyFunction::Key(k) => k == code,
            KeyFunction::Media(_) => false,
            KeyFunction::MultiKey(ks) => ks@.contains(code),
            KeyFunction::Dual(k, _) => !mouse_mode && k == code,
        }
    }

    /// Whether a pressed switch with this function puts `code` into the
    /// consumer report.
    pub open spec fn emits_media(self, code: u16) -> bool {
        self matches KeyFunction::Media(m) && m == code
    }

    /// Whether a pressed switch with this function presses pointer button
    /// `button`.
    pub open spec fn emits_button(self, mouse_mode: bool, button: MouseButton) -> bool {
        self matches KeyFunction::Dual(_, b) && mouse_mode && b == button
    }

    /// Whether a pressed switch with this function contributes `event`.
    pub open spec fn emits(self, mouse_mode: bool, event: Event) -> bool {
        match event {
            Event::Key(code) => self.emits_key(mouse_mode, code),
            Event::Media(code) => self.emits_media(code),
            Event::Button(button) => self.emits_button(mouse_mode, button),
        }
    }
}

} // verus!
