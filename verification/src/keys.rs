//! Keyboard events, and the text by which the UI toolkit knows each key.
use slint::platform::Key as SlintKey;
use slint::SharedString;
use vstd::prelude::*;

verus! {

/// What a key means under the current layout: some text, or a function without text.
#[derive(Debug, PartialEq, Eq)]
pub enum Key {
    /// The key produces this text.
    Character(String),
    /// The key has a name and produces no text.
    Named,
}

/// The physical keys that have a text of their own in the UI toolkit, and all the others.
#[derive(Clone, Copy, Debug, PartialEq, Eq, Structural)]
pub enum Code {
    Enter,
    Tab,
    Space,
    Backspace,
    Escape,
    ArrowUp,
    ArrowDown,
    ArrowLeft,
    ArrowRight,
    ShiftLeft,
    ShiftRight,
    ControlLeft,
    ControlRight,
    AltLeft,
    AltRight,
    MetaLeft,
    MetaRight,
    Other,
}

#[derive(Clone, Copy, Debug, PartialEq, Eq, Structural)]
pub enum KeyState {
    Down,
    Up,
}

/// A key went down or came up.
#[derive(Debug, PartialEq, Eq)]
pub struct KeyboardEvent {
    pub key: Key,
    pub code: Code,
    pub state: KeyState,
    /// The key is held down and this event repeats an earlier one.
    pub repeat: bool,
}

/// The keys without printable text, under the names that Slint has for them.
#[derive(Clone, Copy, Debug, PartialEq, Eq, Structural)]
pub enum SpecialKey {
    Return,
    Tab,
    Space,
    Backspace,
    Escape,
    UpArrow,
    DownArrow,
    LeftArrow,
    RightArrow,
    Shift,
    ShiftR,
    Control,
    ControlR,
    Alt,
    AltGr,
    Meta,
    MetaR,
}

/// The special key at a physical position of the keyboard.
pub open spec fn special_key_at(code: Code) -> Option<SpecialKey> {
    match code {
        Code::Enter => Some(SpecialKey::Return),
        Code::Tab => Some(SpecialKey::Tab),
        Code::Space => Some(SpecialKey::Space),
        Code::Backspace => Some(SpecialKey::Backspace),
        Code::Escape => Some(SpecialKey::Escape),
        Code::ArrowUp => Some(SpecialKey::UpArrow),
        Code::ArrowDown => Some(SpecialKey::DownArrow),
        Code::ArrowLeft => Some(SpecialKey::LeftArrow),
        Code::ArrowRight => Some(SpecialKey::RightArrow),
        Code::ShiftLeft => Some(SpecialKey::Shift),
        Code::ShiftRight => Some(SpecialKey::ShiftR),
        Code::ControlLeft => Some(SpecialKey::Control),
        Code::ControlRight => Some(SpecialKey::ControlR),
        Code::AltLeft => Some(SpecialKey::Alt),
        Code::AltRight => Some(SpecialKey::AltGr),
        Code::MetaLeft => Some(SpecialKey::Meta),
        Code::MetaRight => Some(SpecialKey::MetaR),
        Code::Other => None,
    }
}

/// The character by which Slint denotes a special key.
pub open spec fn special_key_char(key: SpecialKey) -> char {
    match key {
        SpecialKey::Return => '\u{000a}',
        SpecialKey::Tab => '\u{0009}',
        SpecialKey::Space => '\u{0020}',
        SpecialKey::Backspace => '\u{0008}',
        SpecialKey::Escape => '\u{001b}',
        SpecialKey::UpArrow => '\u{f700}',
        SpecialKey::DownArrow => '\u{f701}',
        SpecialKey::LeftArrow => '\u{f702}',
        SpecialKey::RightArrow => '\u{f703}',
        SpecialKey::Shift => '\u{0010}',
        SpecialKey::ShiftR => '\u{0015}',
        SpecialKey::Control => '\u{0011}',
        SpecialKey::ControlR => '\u{0016}',
        SpecialKey::Alt => '\u{0012}',
        SpecialKey::AltGr => '\u{0013}',
        SpecialKey::Meta => '\u{0017}',
        SpecialKey::MetaR => '\u{0018}',
    }
}

/// The text of a key: what it types, else the character of the special key at its
/// position, else nothing.
pub open spec fn text_of(key: Key, code: Code) -> Seq<char> {
    match key {
        Key::Character(text) => text@,
        Key::Named => match special_key_at(code) {
            Some(special) => seq![special_key_char(special)],
            None => Seq::empty(),
        },
    }
}

/// Calls `slint::SharedString::from` on a `slint::platform::Key`.
///
/// Claims that the string holds one character: the one that Slint's table of key codes
/// has for the key of that name.
#[verifier::external_body]
fn special_key_text(key: SpecialKey) -> (text: String)
    ensures
        text@ == seq![special_key_char(key)],
{
    let key = match key {
        SpecialKey::Return => SlintKey::Return, SpecialKey::Tab => SlintKey::Tab,
        SpecialKey::Space => SlintKey::Space, SpecialKey::Backspace => SlintKey::Backspace,
        SpecialKey::Escape => SlintKey::Escape, SpecialKey::UpArrow => SlintKey::UpArrow,
        SpecialKey::DownArrow => SlintKey::DownArrow, SpecialKey::LeftArrow => SlintKey::LeftArrow,
        SpecialKey::RightArrow => SlintKey::RightArrow, SpecialKey::Shift => SlintKey::Shift,
        SpecialKey::ShiftR => SlintKey::ShiftR, SpecialKey::Control => SlintKey::Control,
        SpecialKey::ControlR => SlintKey::ControlR, SpecialKey::Alt => SlintKey::Alt,
        SpecialKey::AltGr => SlintKey::AltGr, SpecialKey::Meta => SlintKey::Meta,
        SpecialKey::MetaR => SlintKey::MetaR,
    };
    SharedString::from(key).to_string()
}

/// The special key at a physical position of the keyboard.
pub fn special_key(code: Code) -> (key: Option<SpecialKey>)
    ensures
        key == special_key_at(code),
{
    match code {
        Code::Enter => Some(SpecialKey::Return),
        Code::Tab => Some(SpecialKey::Tab),
        Code::Space => Some(SpecialKey::Space),
        Code::Backspace => Some(SpecialKey::Backspace),
        Code::Escape => Some(SpecialKey::Escape),
        Code::ArrowUp => Some(SpecialKey::UpArrow),
        Code::ArrowDown => Some(SpecialKey::DownArrow),
        Code::ArrowLeft => Some(SpecialKey::LeftArrow),
        Code::ArrowRight => Some(SpecialKey::RightArrow),
        Code::ShiftLeft => Some(SpecialKey::Shift),
        Code::ShiftRight => Some(SpecialKey::ShiftR),
        Code::ControlLeft => Some(SpecialKey::Control),
        Code::ControlRight => Some(SpecialKey::ControlR),
        Code::AltLeft => Some(SpecialKey::Alt),
        Code::AltRight => Some(SpecialKey::AltGr),
        Code::MetaLeft => Some(SpecialKey::Meta),
        Code::MetaRight => Some(SpecialKey::MetaR),
        Code::Other => None,
    }
}

/// The text of a key: what it types, else the character of the special key at its
/// position, else nothing.
pub fn key_text(key: Key, code: Code) -> (text: String)
    ensures
        text@ == text_of(key, code),
{
    match key {
        Key::Character(text) => text,
        Key::Named => match special_key(code) {
            Some(special) => special_key_text(special),
            None => String::new(),
        },
    }
}

} // verus!
