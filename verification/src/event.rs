//! The event model: the closed set of input and control events, the
//! grammar of key-combination texts, and the text an event is shown as.

use vstd::prelude::*;
use crate::app_error::AppError;
use crate::geometry::{rect_debug, rect_debug_text, Rect};
use crate::grammar::{key_named, parsed_key, split_on_plus};
use crate::key::{key_label, push_key_label, KeyCode};
use crate::modifiers::{
    lemma_modifiers_named_in_push, modifier_from_name, modifier_prefix, modifiers_named_in,
    push_modifier_prefix, KeyModifiers, NONE,
};
use crate::text::{decimal, push_char, push_decimal};
use crossterm::event::MouseEvent;

verus! {

/// crossterm's record of one use of the mouse. The library carries it and
/// has it printed, and never looks inside.
#[verifier::external_type_specification]
#[verifier::external_body]
pub struct ExMouseEvent(MouseEvent);

/// Trusted: crossterm derives `Clone` and `Copy` for `MouseEvent`, so a
/// clone is the same record.
pub assume_specification[ <MouseEvent as Clone>::clone ](mouse: &MouseEvent) -> (copy: MouseEvent)
    ensures
        copy == *mouse,
;

/// One normalized occurrence of terminal input or of internal signalling.
#[derive(Debug, PartialEq, Eq, Hash)]
pub enum Event {
    /// An event of no known kind.
    Unknown,
    /// The terminal was resized to a width and a height.
    Resize(u16, u16),
    /// A key was pressed together with a set of modifiers.
    Key(KeyCode, KeyModifiers),
    /// Text was pasted.
    Paste(String),
    /// The mouse was used; the terminal library's own record of it.
    Mouse(MouseEvent),
    /// The application starts.
    Init,
    /// A frame is due.
    Render,
    /// The area of the layout changed.
    UpdateArea(Rect),
}

impl Clone for Event {
    /// An equal event.
    fn clone(&self) -> (copy: Event)
        ensures
            copy == *self,
    {
        match self {
            Event::Unknown => Event::Unknown,
            Event::Resize(width, height) => Event::Resize(*width, *height),
            Event::Key(key, set) => Event::Key(*key, *set),
            Event::Paste(pasted) => Event::Paste(pasted.clone()),
            Event::Mouse(mouse) => Event::Mouse(mouse.clone()),
            Event::Init => Event::Init,
            Event::Render => Event::Render,
            Event::UpdateArea(area) => Event::UpdateArea(*area),
        }
    }
}

/// What `{:?}` prints for a mouse event of the terminal library.
pub uninterp spec fn mouse_debug_text(mouse: MouseEvent) -> Seq<char>;

/// The developer-facing text of a mouse event.
///
/// Trusted: this formats crossterm's `MouseEvent` with `{:?}`, through the
/// `Debug` impl that crossterm derives for it. The text depends on the
/// event's fields alone; it is named, not spelled out.
#[verifier::external_body]
fn mouse_debug(mouse: &MouseEvent) -> (text: String)
    ensures
        text@ == mouse_debug_text(*mouse),
{
    format!("{:?}", mouse)
}

/// Whether `result` is what reading the key segment `name` under
/// `modifiers` gives: the key event of the key that the segment stands
/// for, or `InvalidEvent` with the segment where it stands for none.
pub open spec fn is_key_event_of(
    result: Result<Event, AppError>,
    name: Seq<char>,
    modifiers: KeyModifiers,
) -> bool {
    match result {
        Ok(event) => key_named(name) matches Some(key) && event == Event::Key(key, modifiers),
        Err(error) => key_named(name) is None && error.is_invalid_event(name),
    }
}

/// Whether `result` is what reading the key-combination text `input`
/// gives: the key event that the text stands for, or `InvalidEvent` with
/// the text's last segment where that segment stands for no key.
pub open spec fn is_reading_of(result: Result<Event, AppError>, input: Seq<char>) -> bool {
    match result {
        Ok(event) => parsed_key(input) matches Some(pair) && event == Event::Key(pair.0, pair.1),
        Err(error) => parsed_key(input) is None && error.is_invalid_event(
            split_on_plus(input).last(),
        ),
    }
}

/// The text that an event is shown as. It is meant for display and need
/// not parse back to the event.
pub open spec fn event_text(event: Event) -> Seq<char> {
    match event {
        Event::Unknown => "Unknown"@,
        Event::Init => "Init"@,
        Event::Render => "Render"@,
        Event::Resize(width, height) => "Resize("@ + decimal(width as nat) + ", "@ + decimal(
            height as nat,
        ) + ")"@,
        Event::Key(key, set) => modifier_prefix(set) + key_label(key),
        Event::Mouse(mouse) => "Mouse("@ + mouse_debug_text(mouse) + ")"@,
        Event::UpdateArea(area) => "UpdateArea("@ + rect_debug_text(area) + ")"@,
        Event::Paste(pasted) => "Paste("@ + pasted@ + ")"@,
    }
}

impl Event {
    /// The key event that a key segment and a set of modifiers stand for:
    /// a named key of the table, else the single ASCII character that the
    /// segment is, each with the given modifiers. Any other segment is
    /// refused with `InvalidEvent`, which then carries the segment.
    pub fn event_with_modifiers(s: &str, modifiers: KeyModifiers) -> (result: Result<
        Event,
        AppError,
    >)
        ensures
            is_key_event_of(result, s@, modifiers),
    {
        match KeyCode::from_name(s) {
            Some(key) => Ok(Event::Key(key, modifiers)),
            None => {
                if s.unicode_len() == 1 {
                    let c = s.get_char(0);
                    if (c as u32) < 128 {
                        return Ok(Event::Key(KeyCode::Char(c), modifiers));
                    }
                }
                Err(AppError::InvalidEvent(s.to_owned()))
            },
        }
    }

    /// Reads a key-combination text such as `ctrl+alt+f5`.
    ///
    /// The text is split on `+`. The last segment is the key; the segments
    /// before it are modifier names, of which those that name no modifier
    /// count for nothing. The result is the key event of that key under
    /// the union of those modifiers, or `InvalidEvent` with the key
    /// segment where that segment stands for no key.
    pub fn parse(s: &str) -> (result: Result<Event, AppError>)
        ensures
            is_reading_of(result, s@),
    {
        let mut current = String::new();
        let mut set = KeyModifiers { bits: NONE };
        let ghost mut done: Seq<Seq<char>> = Seq::empty();
        proof {
            assert(modifiers_named_in(done) == 0) by {
                assert(0u8 | 0u8 | 0u8 | 0u8 | 0u8 | 0u8 == 0u8) by (bit_vector);
            }
        }
        for c in it: s.chars()
            invariant
                it.seq() == s@,
                split_on_plus(s@.take(it.index())) == done.push(current@),
                set.bits == modifiers_named_in(done),
        {
            proof {
                let longer = s@.take(it.index() + 1);
                assert(longer.drop_last() =~= s@.take(it.index()));
            }
            if c == '+' {
                let named = modifier_from_name(current.as_str());
                proof {
                    lemma_modifiers_named_in_push(done, current@);
                    done = done.push(current@);
                }
                set = set.union(named);
                current = String::new();
            } else {
                push_char(&mut current, c);
            }
        }
        proof {
            assert(s@.take(s@.len() as int) =~= s@);
            assert(done.push(current@).drop_last() =~= done);
        }
        Event::event_with_modifiers(current.as_str(), set)
    }

    /// The text that the event is shown as.
    pub fn to_string(&self) -> (text: String)
        ensures
            text@ == event_text(*self),
    {
        match self {
            Event::Unknown => "Unknown".to_owned(),
            Event::Init => "Init".to_owned(),
            Event::Render => "Render".to_owned(),
            Event::Resize(width, height) => {
                let mut text = "Resize(".to_owned();
                push_decimal(&mut text, *width);
                text.append(", ");
                push_decimal(&mut text, *height);
                text.append(")");
                text
            },
            Event::Key(key, set) => {
                let mut text = String::new();
                push_modifier_prefix(&mut text, *set);
                push_key_label(&mut text, *key);
                assert(Seq::<char>::empty() + modifier_prefix(*set) + key_label(*key)
                    =~= modifier_prefix(*set) + key_label(*key));
                text
            },
            Event::Mouse(mouse) => {
                let mut text = "Mouse(".to_owned();
                let shown = mouse_debug(mouse);
                text.append(shown.as_str());
                text.append(")");
                text
            },
            Event::UpdateArea(area) => {
                let mut text = "UpdateArea(".to_owned();
                let shown = rect_debug(*area);
                text.append(shown.as_str());
                text.append(")");
                text
            },
            Event::Paste(pasted) => {
                let mut text = "Paste(".to_owned();
                text.append(pasted.as_str());
                text.append(")");
                text
            },
        }
    }
}

impl core::str::FromStr for Event {
    type Err = AppError;

    /// Reads a key-combination text; see [`Event::parse`].
    fn from_str(s: &str) -> (result: Result<Event, AppError>)
        ensures
            is_reading_of(result, s@),
    {
        Event::parse(s)
    }
}

} // verus!
