//! Key codes: the named-key table of the key-combination grammar and the
//! text that a key is shown as.

use vstd::prelude::*;
use crate::text::{decimal, push_char, push_decimal, str_equals};

verus! {

/// A media key.
#[derive(Debug, Clone, Copy, PartialEq, Eq, Hash, Structural)]
pub enum MediaKeyCode {
    Play,
    Pause,
    PlayPause,
    Reverse,
    Stop,
    FastForward,
    Rewind,
    TrackNext,
    TrackPrevious,
    Record,
    LowerVolume,
    RaiseVolume,
    MuteVolume,
}

/// A modifier key pressed on its own.
#[derive(Debug, Clone, Copy, PartialEq, Eq, Hash, Structural)]
pub enum ModifierKeyCode {
    LeftShift,
    LeftControl,
    LeftAlt,
    LeftSuper,
    LeftHyper,
    LeftMeta,
    RightShift,
    RightControl,
    RightAlt,
    RightSuper,
    RightHyper,
    RightMeta,
    IsoLevel3Shift,
    IsoLevel5Shift,
}

/// A key of the keyboard.
#[derive(Debug, Clone, Copy, PartialEq, Eq, Hash, Structural)]
pub enum KeyCode {
    Backspace,
    Enter,
    Left,
    Right,
    Up,
    Down,
    Home,
    End,
    PageUp,
    PageDown,
    Tab,
    BackTab,
    Delete,
    Insert,
    F(u8),
    Char(char),
    Null,
    Esc,
    CapsLock,
    ScrollLock,
    NumLock,
    PrintScreen,
    Pause,
    Menu,
    KeypadBegin,
    Media(MediaKeyCode),
    Modifier(ModifierKeyCode),
}

/// The name of a media key: that of its variant.
pub open spec fn media_key_name(key: MediaKeyCode) -> Seq<char> {
    match key {
        MediaKeyCode::Play => "Play"@,
        MediaKeyCode::Pause => "Pause"@,
        MediaKeyCode::PlayPause => "PlayPause"@,
        MediaKeyCode::Reverse => "Reverse"@,
        MediaKeyCode::Stop => "Stop"@,
        MediaKeyCode::FastForward => "FastForward"@,
        MediaKeyCode::Rewind => "Rewind"@,
        MediaKeyCode::TrackNext => "TrackNext"@,
        MediaKeyCode::TrackPrevious => "TrackPrevious"@,
        MediaKeyCode::Record => "Record"@,
        MediaKeyCode::LowerVolume => "LowerVolume"@,
        MediaKeyCode::RaiseVolume => "RaiseVolume"@,
        MediaKeyCode::MuteVolume => "MuteVolume"@,
    }
}

/// The name of a media key: that of its variant.
pub fn media_key_str(key: MediaKeyCode) -> (name: &'static str)
    ensures
        name@ == media_key_name(key),
{
    match key {
        MediaKeyCode::Play => "Play",
        MediaKeyCode::Pause => "Pause",
        MediaKeyCode::PlayPause => "PlayPause",
        MediaKeyCode::Reverse => "Reverse",
        MediaKeyCode::Stop => "Stop",
        MediaKeyCode::FastForward => "FastForward",
        MediaKeyCode::Rewind => "Rewind",
        MediaKeyCode::TrackNext => "TrackNext",
        MediaKeyCode::TrackPrevious => "TrackPrevious",
        MediaKeyCode::Record => "Record",
        MediaKeyCode::LowerVolume => "LowerVolume",
        MediaKeyCode::RaiseVolume => "RaiseVolume",
        MediaKeyCode::MuteVolume => "MuteVolume",
    }
}

/// The name of a modifier key: that of its variant.
pub open spec fn modifier_key_name(key: ModifierKeyCode) -> Seq<char> {
    match key {
        ModifierKeyCode::LeftShift => "LeftShift"@,
        ModifierKeyCode::LeftControl => "LeftControl"@,
        ModifierKeyCode::LeftAlt => "LeftAlt"@,
        ModifierKeyCode::LeftSuper => "LeftSuper"@,
        ModifierKeyCode::LeftHyper => "LeftHyper"@,
        ModifierKeyCode::LeftMeta => "LeftMeta"@,
        ModifierKeyCode::RightShift => "RightShift"@,
        ModifierKeyCode::RightControl => "RightControl"@,
        ModifierKeyCode::RightAlt => "RightAlt"@,
        ModifierKeyCode::RightSuper => "RightSuper"@,
        ModifierKeyCode::RightHyper => "RightHyper"@,
        ModifierKeyCode::RightMeta => "RightMeta"@,
        ModifierKeyCode::IsoLevel3Shift => "IsoLevel3Shift"@,
        ModifierKeyCode::IsoLevel5Shift => "IsoLevel5Shift"@,
    }
}

/// The name of a modifier key: that of its variant.
pub fn modifier_key_str(key: ModifierKeyCode) -> (name: &'static str)
    ensures
        name@ == modifier_key_name(key),
{
    match key {
        ModifierKeyCode::LeftShift => "LeftShift",
        ModifierKeyCode::LeftControl => "LeftControl",
        ModifierKeyCode::LeftAlt => "LeftAlt",
        ModifierKeyCode::LeftSuper => "LeftSuper",
        ModifierKeyCode::LeftHyper => "LeftHyper",
        ModifierKeyCode::LeftMeta => "LeftMeta",
        ModifierKeyCode::RightShift => "RightShift",
        ModifierKeyCode::RightControl => "RightControl",
        ModifierKeyCode::RightAlt => "RightAlt",
        ModifierKeyCode::RightSuper => "RightSuper",
        ModifierKeyCode::RightHyper => "RightHyper",
        ModifierKeyCode::RightMeta => "RightMeta",
        ModifierKeyCode::IsoLevel3Shift => "IsoLevel3Shift",
        ModifierKeyCode::IsoLevel5Shift => "IsoLevel5Shift",
    }
}

/// The text that a key is shown as: a character key as the character
/// itself, any other key in its developer-facing form, which is the name of
/// the variant, followed in parentheses by the number of a function key or
/// by the name of a media or modifier key.
pub open spec fn key_label(key: KeyCode) -> Seq<char> {
    match key {
        KeyCode::Char(c) => seq![c],
        KeyCode::F(n) => "F("@ + decimal(n as nat) + ")"@,
        KeyCode::Media(media) => "Media("@ + media_key_name(media) + ")"@,
        KeyCode::Modifier(modifier) => "Modifier("@ + modifier_key_name(modifier) + ")"@,
        KeyCode::Backspace => "Backspace"@,
        KeyCode::Enter => "Enter"@,
        KeyCode::Left => "Left"@,
        KeyCode::Right => "Right"@,
        KeyCode::Up => "Up"@,
        KeyCode::Down => "Down"@,
        KeyCode::Home => "Home"@,
        KeyCode::End => "End"@,
        KeyCode::PageUp => "PageUp"@,
        KeyCode::PageDown => "PageDown"@,
        KeyCode::Tab => "Tab"@,
        KeyCode::BackTab => "BackTab"@,
        KeyCode::Delete => "Delete"@,
        KeyCode::Insert => "Insert"@,
        KeyCode::Null => "Null"@,
        KeyCode::Esc => "Esc"@,
        KeyCode::CapsLock => "CapsLock"@,
        KeyCode::ScrollLock => "ScrollLock"@,
        KeyCode::NumLock => "NumLock"@,
        KeyCode::PrintScreen => "PrintScreen"@,
        KeyCode::Pause => "Pause"@,
        KeyCode::Menu => "Menu"@,
        KeyCode::KeypadBegin => "KeypadBegin"@,
    }
}

/// Appends to `text` the text that a key is shown as.
pub fn push_key_label(text: &mut String, key: KeyCode)
    ensures
        final(text)@ == old(text)@ + key_label(key),
{
    match key {
        KeyCode::Char(c) => {
            push_char(text, c);
        },
        KeyCode::F(n) => {
            text.append("F(");
            push_decimal(text, n as u16);
            text.append(")");
            assert(old(text)@ + "F("@ + decimal(n as nat) + ")"@ =~= old(text)@ + ("F("@
                + decimal(n as nat) + ")"@));
        },
        KeyCode::Media(media) => {
            text.append("Media(");
            text.append(media_key_str(media));
            text.append(")");
            assert(old(text)@ + "Media("@ + media_key_name(media) + ")"@ =~= old(text)@ + (
            "Media("@ + media_key_name(media) + ")"@));
        },
        KeyCode::Modifier(modifier) => {
            text.append("Modifier(");
            text.append(modifier_key_str(modifier));
            text.append(")");
            assert(old(text)@ + "Modifier("@ + modifier_key_name(modifier) + ")"@ =~= old(text)@
                + ("Modifier("@ + modifier_key_name(modifier) + ")"@));
        },
        KeyCode::Backspace => text.append("Backspace"),
        KeyCode::Enter => text.append("Enter"),
        KeyCode::Left => text.append("Left"),
        KeyCode::Right => text.append("Right"),
        KeyCode::Up => text.append("Up"),
        KeyCode::Down => text.append("Down"),
        KeyCode::Home => text.append("Home"),
        KeyCode::End => text.append("End"),
        KeyCode::PageUp => text.append("PageUp"),
        KeyCode::PageDown => text.append("PageDown"),
        KeyCode::Tab => text.append("Tab"),
        KeyCode::BackTab => text.append("BackTab"),
        KeyCode::Delete => text.append("Delete"),
        KeyCode::Insert => text.append("Insert"),
        KeyCode::Null => text.append("Null"),
        KeyCode::Esc => text.append("Esc"),
        KeyCode::CapsLock => text.append("CapsLock"),
        KeyCode::ScrollLock => text.append("ScrollLock"),
        KeyCode::NumLock => text.append("NumLock"),
        KeyCode::PrintScreen => text.append("PrintScreen"),
        KeyCode::Pause => text.append("Pause"),
        KeyCode::Menu => text.append("Menu"),
        KeyCode::KeypadBegin => text.append("KeypadBegin"),
    }
}

/// The key that a name of the key-combination grammar stands for, if the
/// name is in the table of named keys.
pub open spec fn named_key(name: Seq<char>) -> Option<KeyCode> {
    if name == "backspace"@ {
        Some(KeyCode::Backspace)
    }     else if name == "enter"@ {
        Some(KeyCode::Enter)
    }     else if name == "left"@ {
        Some(KeyCode::Left)
    }     else if name == "right"@ {
        Some(KeyCode::Right)
    }     else if name == "up"@ {
        Some(KeyCode::Up)
    }     else if name == "down"@ {
        Some(KeyCode::Down)
    }     else if name == "home"@ {
        Some(KeyCode::Home)
    }     else if name == "end"@ {
        Some(KeyCode::End)
    }     else if name == "page_up"@ {
        Some(KeyCode::PageUp)
    }     else if name == "page_down"@ {
        Some(KeyCode::PageDown)
    }     else if name == "tab"@ {
        Some(KeyCode::Tab)
    }     else if name == "back_tab"@ {
        Some(KeyCode::BackTab)
    }     else if name == "delete"@ {
        Some(KeyCode::Delete)
    }     else if name == "insert"@ {
        Some(KeyCode::Insert)
    }     else if name == "null"@ {
        Some(KeyCode::Null)
    }     else if name == "esc"@ {
        Some(KeyCode::Esc)
    }     else if name == "f1"@ {
        Some(KeyCode::F(1))
    }     else if name == "f2"@ {
        Some(KeyCode::F(2))
    }     else if name == "f3"@ {
        Some(KeyCode::F(3))
    }     else if name == "f4"@ {
        Some(KeyCode::F(4))
    }     else if name == "f5"@ {
        Some(KeyCode::F(5))
    }     else if name == "f6"@ {
        Some(KeyCode::F(6))
    }     else if name == "f7"@ {
        Some(KeyCode::F(7))
    }     else if name == "f8"@ {
        Some(KeyCode::F(8))
    }     else if name == "f9"@ {
        Some(KeyCode::F(9))
    }     else if name == "f10"@ {
        Some(KeyCode::F(10))
    }     else if name == "f11"@ {
        Some(KeyCode::F(11))
    }     else if name == "f12"@ {
        Some(KeyCode::F(12))
    } else {
        None
    }
}

impl KeyCode {
    /// Looks a name up in the table of named keys.
    pub fn from_name(name: &str) -> (key: Option<KeyCode>)
        ensures
            key == named_key(name@),
    {
        if str_equals(name, "backspace") {
            Some(KeyCode::Backspace)
        }         else if str_equals(name, "enter") {
            Some(KeyCode::Enter)
        }         else if str_equals(name, "left") {
            Some(KeyCode::Left)
        }         else if str_equals(name, "right") {
            Some(KeyCode::Right)
        }         else if str_equals(name, "up") {
            Some(KeyCode::Up)
        }         else if str_equals(name, "down") {
            Some(KeyCode::Down)
        }         else if str_equals(name, "home") {
            Some(KeyCode::Home)
        }         else if str_equals(name, "end") {
            Some(KeyCode::End)
        }         else if str_equals(name, "page_up") {
            Some(KeyCode::PageUp)
        }         else if str_equals(name, "page_down") {
            Some(KeyCode::PageDown)
        }         else if str_equals(name, "tab") {
            Some(KeyCode::Tab)
        }         else if str_equals(name, "back_tab") {
            Some(KeyCode::BackTab)
        }         else if str_equals(name, "delete") {
            Some(KeyCode::Delete)
        }         else if str_equals(name, "insert") {
            Some(KeyCode::Insert)
        }         else if str_equals(name, "null") {
            Some(KeyCode::Null)
        }         else if str_equals(name, "esc") {
            Some(KeyCode::Esc)
        }         else if str_equals(name, "f1") {
            Some(KeyCode::F(1))
        }         else if str_equals(name, "f2") {
            Some(KeyCode::F(2))
        }         else if str_equals(name, "f3") {
            Some(KeyCode::F(3))
        }         else if str_equals(name, "f4") {
            Some(KeyCode::F(4))
        }         else if str_equals(name, "f5") {
            Some(KeyCode::F(5))
        }         else if str_equals(name, "f6") {
            Some(KeyCode::F(6))
        }         else if str_equals(name, "f7") {
            Some(KeyCode::F(7))
        }         else if str_equals(name, "f8") {
            Some(KeyCode::F(8))
        }         else if str_equals(name, "f9") {
            Some(KeyCode::F(9))
        }         else if str_equals(name, "f10") {
            Some(KeyCode::F(10))
        }         else if str_equals(name, "f11") {
            Some(KeyCode::F(11))
        }         else if str_equals(name, "f12") {
            Some(KeyCode::F(12))
        } else {
            None
        }
    }

    /// The text that the key is shown as.
    pub fn label(self) -> (text: String)
        ensures
            text@ == key_label(self),
    {
        let mut text = String::new();
        push_key_label(&mut text, self);
        text
    }
}

/// Every name in the table of named keys has at least two characters and
/// holds no `+`.
pub proof fn lemma_named_keys_are_words(name: Seq<char>)
    requires
        named_key(name) is Some,
    ensures
        name.len() >= 2,
        !name.contains('+'),
{
    reveal_strlit("backspace");
    reveal_strlit("enter");
    reveal_strlit("left");
    reveal_strlit("right");
    reveal_strlit("up");
    reveal_strlit("down");
    reveal_strlit("home");
    reveal_strlit("end");
    reveal_strlit("page_up");
    reveal_strlit("page_down");
    reveal_strlit("tab");
    reveal_strlit("back_tab");
    reveal_strlit("delete");
    reveal_strlit("insert");
    reveal_strlit("null");
    reveal_strlit("esc");
    reveal_strlit("f1");
    reveal_strlit("f2");
    reveal_strlit("f3");
    reveal_strlit("f4");
    reveal_strlit("f5");
    reveal_strlit("f6");
    reveal_strlit("f7");
    reveal_strlit("f8");
    reveal_strlit("f9");
    reveal_strlit("f10");
    reveal_strlit("f11");
    reveal_strlit("f12");
}

} // verus!
