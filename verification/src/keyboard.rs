//! Decoding of keyboard scancodes.
//!
//! A scancode is looked up in [`SCANCODE_TABLE`]. A code with a character
//! there is a printable key. A code without one is a named key if it is one
//! of the control codes listed by [`named_key`], and is ignored otherwise;
//! this covers key releases (codes with the high bit set) and every code
//! past the end of the table.

use vstd::prelude::*;
use crate::terminal::{BackgroundColor, ForegroundColor};

verus! {

/// Entry of [`SCANCODE_TABLE`] for a code that has no character.
pub const NO_CHAR: char = '\0';

/// Number of entries in [`SCANCODE_TABLE`].
pub const SCANCODE_COUNT: usize = 89;

/// Bit that distinguishes the release of a key from its press.
pub const RELEASE_BIT: u8 = 0x80;

/// The character of each scancode from `0x00` to `0x58`, or [`NO_CHAR`].
/// The keypad is read with num lock on.
pub const SCANCODE_TABLE: [char; 89] = [
    '\0', '\0', '1', '2', '3', '4', '5', '6',
    '7', '8', '9', '0', '-', '=', '\0', '\t',
    'q', 'w', 'e', 'r', 't', 'y', 'u', 'i',
    'o', 'p', '[', ']', '\n', '\0', 'a', 's',
    'd', 'f', 'g', 'h', 'j', 'k', 'l', ';',
    '\'', '`', '\0', '\\', 'z', 'x', 'c', 'v',
    'b', 'n', 'm', ',', '.', '/', '\0', '*',
    '\0', ' ', '\0', '\0', '\0', '\0', '\0', '\0',
    '\0', '\0', '\0', '\0', '\0', '\0', '\0', '7',
    '8', '9', '-', '4', '5', '6', '+', '1',
    '2', '3', '0', '.', '\0', '\0', '\0', '\0',
    '\0',
];

/// A key that produces no character but is known by name.
#[derive(Clone, Copy, Debug, PartialEq, Eq, Structural)]
pub enum NamedKey {
    Escape,
    Backspace,
    LeftCtrl,
    LeftShift,
    RightShift,
    LeftAlt,
    CapsLock,
    F1,
    F2,
    F3,
    F4,
    F5,
    F6,
    F7,
    F8,
    F9,
    F10,
    F11,
    F12,
    NumLock,
    ScrollLock,
}

/// What a scancode means.
#[derive(Clone, Copy, Debug, PartialEq, Eq, Structural)]
pub enum KeyEvent {
    /// A key with a character was pressed.
    Printable(char),
    /// A key known by name was pressed.
    Named(NamedKey),
    /// The code carries no event and is ignored.
    Unhandled,
}

/// The table entry of `code`; a code past the end of the table has none.
pub open spec fn table_char(code: u8) -> char {
    if code < SCANCODE_COUNT {
        SCANCODE_TABLE@[code as int]
    } else {
        NO_CHAR
    }
}

/// The named key of a control code.
pub open spec fn named_key(code: u8) -> Option<NamedKey> {
    if code == 0x01 {
        Some(NamedKey::Escape)
    } else if code == 0x0E {
        Some(NamedKey::Backspace)
    } else if code == 0x1D {
        Some(NamedKey::LeftCtrl)
    } else if code == 0x2A {
        Some(NamedKey::LeftShift)
    } else if code == 0x36 {
        Some(NamedKey::RightShift)
    } else if code == 0x38 {
        Some(NamedKey::LeftAlt)
    } else if code == 0x3A {
        Some(NamedKey::CapsLock)
    } else if code == 0x3B {
        Some(NamedKey::F1)
    } else if code == 0x3C {
        Some(NamedKey::F2)
    } else if code == 0x3D {
        Some(NamedKey::F3)
    } else if code == 0x3E {
        Some(NamedKey::F4)
    } else if code == 0x3F {
        Some(NamedKey::F5)
    } else if code == 0x40 {
        Some(NamedKey::F6)
    } else if code == 0x41 {
        Some(NamedKey::F7)
    } else if code == 0x42 {
        Some(NamedKey::F8)
    } else if code == 0x43 {
        Some(NamedKey::F9)
    } else if code == 0x44 {
        Some(NamedKey::F10)
    } else if code == 0x45 {
        Some(NamedKey::NumLock)
    } else if code == 0x46 {
        Some(NamedKey::ScrollLock)
    } else if code == 0x57 {
        Some(NamedKey::F11)
    } else if code == 0x58 {
        Some(NamedKey::F12)
    } else {
        None
    }
}

/// The event of a scancode: its character if the table has one, else its
/// named key if it is a control code, else nothing.
pub open spec fn decode(code: u8) -> KeyEvent {
    if table_char(code) != NO_CHAR {
        KeyEvent::Printable(table_char(code))
    } else {
        match named_key(code) {
            Some(key) => KeyEvent::Named(key),
            None => KeyEvent::Unhandled,
        }
    }
}

/// Looks `code` up in the scancode table. A code past the end of the table
/// is unmapped and yields [`NO_CHAR`].
pub fn scancode_char(code: u8) -> (c: char)
    ensures
        c == table_char(code),
{
    if (code as usize) < SCANCODE_COUNT {
        SCANCODE_TABLE[code as usize]
    } else {
        NO_CHAR
    }
}

/// Recognises the control codes.
pub fn control_key(code: u8) -> (key: Option<NamedKey>)
    ensures
        key == named_key(code),
{
    match code {
        0x01 => Some(NamedKey::Escape),
        0x0E => Some(NamedKey::Backspace),
        0x1D => Some(NamedKey::LeftCtrl),
        0x2A => Some(NamedKey::LeftShift),
        0x36 => Some(NamedKey::RightShift),
        0x38 => Some(NamedKey::LeftAlt),
        0x3A => Some(NamedKey::CapsLock),
        0x3B => Some(NamedKey::F1),
        0x3C => Some(NamedKey::F2),
        0x3D => Some(NamedKey::F3),
        0x3E => Some(NamedKey::F4),
        0x3F => Some(NamedKey::F5),
        0x40 => Some(NamedKey::F6),
        0x41 => Some(NamedKey::F7),
        0x42 => Some(NamedKey::F8),
        0x43 => Some(NamedKey::F9),
        0x44 => Some(NamedKey::F10),
        0x45 => Some(NamedKey::NumLock),
        0x46 => Some(NamedKey::ScrollLock),
        0x57 => Some(NamedKey::F11),
        0x58 => Some(NamedKey::F12),
        _ => None,
    }
}

/// Decodes one scancode into the event that is handed to the output sink.
pub fn keyboard_handler(code: u8) -> (event: KeyEvent)
    ensures
        event == decode(code),
{
    let c = scancode_char(code);
    if c != NO_CHAR {
        KeyEvent::Printable(c)
    } else {
        match control_key(code) {
            Some(key) => KeyEvent::Named(key),
            None => KeyEvent::Unhandled,
        }
    }
}

/// What the output sink is asked to do for an event.
#[derive(Clone, Copy, Debug, PartialEq, Eq)]
pub enum SinkRequest {
    /// Print a character in the given colours.
    Char { c: char, fg: ForegroundColor, bg: BackgroundColor },
    /// Print a text in the given colours.
    Text { text: &'static str, fg: ForegroundColor, bg: BackgroundColor },
    /// Take back the character before the cursor.
    Backspace,
    /// Nothing.
    Nothing,
}

/// The text shown for a named key. Backspace is an action and has none.
pub open spec fn label_text(key: NamedKey) -> Seq<char> {
    match key {
        NamedKey::Escape => "<ESC>"@,
        NamedKey::Backspace => Seq::empty(),
        NamedKey::LeftCtrl => "<LCTRL>"@,
        NamedKey::LeftShift => "<LSHIFT>"@,
        NamedKey::RightShift => "<RSHIFT>"@,
        NamedKey::LeftAlt => "<LALT>"@,
        NamedKey::CapsLock => "<CPSLK>"@,
        NamedKey::F1 => "<F1>"@,
        NamedKey::F2 => "<F2>"@,
        NamedKey::F3 => "<F3>"@,
        NamedKey::F4 => "<F4>"@,
        NamedKey::F5 => "<F5>"@,
        NamedKey::F6 => "<F6>"@,
        NamedKey::F7 => "<F7>"@,
        NamedKey::F8 => "<F8>"@,
        NamedKey::F9 => "<F9>"@,
        NamedKey::F10 => "<F10>"@,
        NamedKey::F11 => "<F11>"@,
        NamedKey::F12 => "<F12>"@,
        NamedKey::NumLock => "<NMLK>"@,
        NamedKey::ScrollLock => "<SCRLK>"@,
    }
}

impl NamedKey {
    /// The text shown for the key, or `None` for backspace, which is an
    /// action.
    pub fn label(self) -> (text: Option<&'static str>)
        ensures
            text is None <==> self == NamedKey::Backspace,
            text matches Some(t) ==> t@ == label_text(self),
    {
        match self {
            NamedKey::Escape => Some("<ESC>"),
            NamedKey::Backspace => None,
            NamedKey::LeftCtrl => Some("<LCTRL>"),
            NamedKey::LeftShift => Some("<LSHIFT>"),
            NamedKey::RightShift => Some("<RSHIFT>"),
            NamedKey::LeftAlt => Some("<LALT>"),
            NamedKey::CapsLock => Some("<CPSLK>"),
            NamedKey::F1 => Some("<F1>"),
            NamedKey::F2 => Some("<F2>"),
            NamedKey::F3 => Some("<F3>"),
            NamedKey::F4 => Some("<F4>"),
            NamedKey::F5 => Some("<F5>"),
            NamedKey::F6 => Some("<F6>"),
            NamedKey::F7 => Some("<F7>"),
            NamedKey::F8 => Some("<F8>"),
            NamedKey::F9 => Some("<F9>"),
            NamedKey::F10 => Some("<F10>"),
            NamedKey::F11 => Some("<F11>"),
            NamedKey::F12 => Some("<F12>"),
            NamedKey::NumLock => Some("<NMLK>"),
            NamedKey::ScrollLock => Some("<SCRLK>"),
        }
    }
}

impl KeyEvent {
    /// What the output sink is asked to do for this event: a printable key
    /// is printed white on black, a named key is shown by its label in blue
    /// on black, backspace takes a character back, and an ignored code asks
    /// for nothing.
    pub fn sink_request(self) -> (request: SinkRequest)
        ensures
            match self {
                KeyEvent::Printable(c) => request == (SinkRequest::Char {
                    c: c,
                    fg: ForegroundColor::White,
                    bg: BackgroundColor::Black,
                }),
                KeyEvent::Named(NamedKey::Backspace) => request == SinkRequest::Backspace,
                KeyEvent::Named(key) => request matches SinkRequest::Text { text, fg, bg }
                    && text@ == label_text(key) && fg == ForegroundColor::Blue && bg
                    == BackgroundColor::Black,
                KeyEvent::Unhandled => request == SinkRequest::Nothing,
            },
    {
        match self {
            KeyEvent::Printable(c) => SinkRequest::Char {
                c: c,
                fg: ForegroundColor::White,
                bg: BackgroundColor::Black,
            },
            KeyEvent::Named(key) => match key.label() {
                Some(text) => SinkRequest::Text {
                    text: text,
                    fg: ForegroundColor::Blue,
                    bg: BackgroundColor::Black,
                },
                None => SinkRequest::Backspace,
            },
            KeyEvent::Unhandled => SinkRequest::Nothing,
        }
    }
}

/// A code that the table does not cover carries no event: every code above
/// `0x58` is ignored.
pub proof fn lemma_out_of_range_ignored(code: u8)
    requires
        code >= SCANCODE_COUNT,
    ensures
        decode(code) == KeyEvent::Unhandled,
{
}

/// The release of a key carries no event: every code with [`RELEASE_BIT`]
/// set is ignored.
pub proof fn lemma_release_ignored(code: u8)
    requires
        code & RELEASE_BIT != 0,
    ensures
        decode(code) == KeyEvent::Unhandled,
{
    assert(code & 0x80 != 0 ==> code >= 0x80) by (bit_vector);
}

/// No control code is shadowed by a character: each code that names a key
/// decodes to that key.
pub proof fn lemma_control_codes_named(code: u8)
    requires
        named_key(code) is Some,
    ensures
        decode(code) == KeyEvent::Named(named_key(code).unwrap()),
{
}

/// A printable event carries the table's character for the code, which is
/// never [`NO_CHAR`], and comes only from codes inside the table.
pub proof fn lemma_printable_from_table(code: u8)
    requires
        decode(code) is Printable,
    ensures
        code < SCANCODE_COUNT,
        decode(code) == KeyEvent::Printable(SCANCODE_TABLE@[code as int]),
        SCANCODE_TABLE@[code as int] != NO_CHAR,
{
}

} // verus!
