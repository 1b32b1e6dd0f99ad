use crossterm::event::{
    KeyCode as TerminalKey, KeyModifiers as TerminalModifiers, MediaKeyCode as TerminalMedia,
    ModifierKeyCode as TerminalModifierKey, MouseButton, MouseEvent, MouseEventKind,
};
use tui_core::event::Event;
use tui_core::geometry::Rect;
use tui_core::key::{KeyCode, MediaKeyCode, ModifierKeyCode};
use tui_core::modifiers::{KeyModifiers, ALT, CONTROL, HYPER, META, NONE, SHIFT, SUPER};
use tui_core::text::{push_decimal, str_equals};

fn shown(code: KeyCode, bits: u8) -> String {
    Event::Key(code, KeyModifiers { bits }).to_string()
}

#[test]
fn formats_the_plain_events() {
    assert_eq!(Event::Unknown.to_string(), "Unknown");
    assert_eq!(Event::Init.to_string(), "Init");
    assert_eq!(Event::Render.to_string(), "Render");
}

#[test]
fn formats_resize() {
    assert_eq!(Event::Resize(80, 24).to_string(), "Resize(80, 24)");
    assert_eq!(Event::Resize(0, 65535).to_string(), "Resize(0, 65535)");
}

#[test]
fn formats_paste() {
    assert_eq!(Event::Paste("hello".to_string()).to_string(), "Paste(hello)");
    assert_eq!(Event::Paste(String::new()).to_string(), "Paste()");
    assert_eq!(Event::Paste("a+b é".to_string()).to_string(), "Paste(a+b é)");
}

#[test]
fn formats_update_area_as_the_layout_library_prints_it() {
    let area = Rect { x: 1, y: 2, width: 30, height: 400 };
    assert_eq!(
        Event::UpdateArea(area).to_string(),
        "UpdateArea(Rect { x: 1, y: 2, width: 30, height: 400 })"
    );
    let far = Rect { x: 65535, y: 65535, width: 65535, height: 65535 };
    let same = ratatui::layout::Rect { x: 65535, y: 65535, width: 65535, height: 65535 };
    assert_eq!(Event::UpdateArea(far).to_string(), format!("UpdateArea({:?})", same));
}

#[test]
fn formats_mouse_as_the_terminal_library_prints_it() {
    let mouse = MouseEvent {
        kind: MouseEventKind::Down(MouseButton::Left),
        column: 3,
        row: 4,
        modifiers: TerminalModifiers::CONTROL,
    };
    assert_eq!(Event::Mouse(mouse).to_string(), format!("Mouse({:?})", mouse));
    assert_eq!(
        Event::Mouse(mouse).to_string(),
        "Mouse(MouseEvent { kind: Down(Left), column: 3, row: 4, modifiers: KeyModifiers(CONTROL) })"
    );
}

#[test]
fn formats_a_character_key_as_the_character() {
    assert_eq!(shown(KeyCode::Char('a'), NONE), "a");
    assert_eq!(shown(KeyCode::Char('+'), NONE), "+");
    assert_eq!(shown(KeyCode::Char('é'), NONE), "é");
}

#[test]
fn formats_each_single_modifier_by_its_title() {
    assert_eq!(shown(KeyCode::Char('a'), CONTROL), "Ctrl+a");
    assert_eq!(shown(KeyCode::Char('a'), ALT), "Alt+a");
    assert_eq!(shown(KeyCode::Char('a'), SHIFT), "Shift+a");
    assert_eq!(shown(KeyCode::Char('a'), SUPER), "Super+a");
    assert_eq!(shown(KeyCode::Char('a'), META), "Meta+a");
    assert_eq!(shown(KeyCode::Char('a'), HYPER), "Hyper+a");
    assert_eq!(shown(KeyCode::Enter, CONTROL), "Ctrl+Enter");
}

#[test]
fn formats_combined_modifiers_as_the_terminal_library_prints_them() {
    assert_eq!(shown(KeyCode::Char('a'), CONTROL | ALT), "KeyModifiers(CONTROL | ALT)+a");
    assert_eq!(
        shown(KeyCode::F(5), SHIFT | SUPER),
        format!("{:?}+F(5)", TerminalModifiers::SHIFT | TerminalModifiers::SUPER)
    );
    for bits in 0u8..=255 {
        let single = [NONE, SHIFT, CONTROL, ALT, SUPER, HYPER, META].contains(&bits);
        if !single {
            assert_eq!(
                shown(KeyCode::Tab, bits),
                format!("{:?}+Tab", TerminalModifiers::from_bits_retain(bits))
            );
        }
    }
}

#[test]
fn round_trip_of_a_control_character() {
    let event = Event::parse("ctrl+a").unwrap();
    assert_eq!(event, Event::Key(KeyCode::Char('a'), KeyModifiers { bits: CONTROL }));
    assert_eq!(event.to_string(), "Ctrl+a");
}

#[test]
fn round_trip_of_a_named_key_is_not_its_name() {
    let event = Event::parse("f5").unwrap();
    assert_eq!(event, Event::Key(KeyCode::F(5), KeyModifiers { bits: NONE }));
    assert_eq!(event.to_string(), "F(5)");
    assert_eq!(Event::parse(&event.to_string()).is_err(), true);
}

#[test]
fn formatted_combined_modifiers_do_not_parse_back() {
    let event = Event::parse("ctrl+alt+a").unwrap();
    let text = event.to_string();
    assert_eq!(text, "KeyModifiers(CONTROL | ALT)+a");
    assert_eq!(
        Event::parse(&text),
        Ok(Event::Key(KeyCode::Char('a'), KeyModifiers { bits: NONE }))
    );
}

#[test]
fn key_labels_are_the_terminal_library_debug_forms() {
    let keys = [
        (KeyCode::Backspace, TerminalKey::Backspace),
        (KeyCode::Enter, TerminalKey::Enter),
        (KeyCode::Left, TerminalKey::Left),
        (KeyCode::Right, TerminalKey::Right),
        (KeyCode::Up, TerminalKey::Up),
        (KeyCode::Down, TerminalKey::Down),
        (KeyCode::Home, TerminalKey::Home),
        (KeyCode::End, TerminalKey::End),
        (KeyCode::PageUp, TerminalKey::PageUp),
        (KeyCode::PageDown, TerminalKey::PageDown),
        (KeyCode::Tab, TerminalKey::Tab),
        (KeyCode::BackTab, TerminalKey::BackTab),
        (KeyCode::Delete, TerminalKey::Delete),
        (KeyCode::Insert, TerminalKey::Insert),
        (KeyCode::Null, TerminalKey::Null),
        (KeyCode::Esc, TerminalKey::Esc),
        (KeyCode::CapsLock, TerminalKey::CapsLock),
        (KeyCode::ScrollLock, TerminalKey::ScrollLock),
        (KeyCode::NumLock, TerminalKey::NumLock),
        (KeyCode::PrintScreen, TerminalKey::PrintScreen),
        (KeyCode::Pause, TerminalKey::Pause),
        (KeyCode::Menu, TerminalKey::Menu),
        (KeyCode::KeypadBegin, TerminalKey::KeypadBegin),
    ];
    for (ours, theirs) in keys {
        assert_eq!(ours.label(), format!("{:?}", theirs));
        assert_eq!(shown(ours, NONE), format!("{:?}", theirs));
    }
    for n in 0u8..=255 {
        assert_eq!(KeyCode::F(n).label(), format!("{:?}", TerminalKey::F(n)));
    }
}

#[test]
fn media_key_labels_are_the_terminal_library_debug_forms() {
    let keys = [
        (MediaKeyCode::Play, TerminalMedia::Play),
        (MediaKeyCode::Pause, TerminalMedia::Pause),
        (MediaKeyCode::PlayPause, TerminalMedia::PlayPause),
        (MediaKeyCode::Reverse, TerminalMedia::Reverse),
        (MediaKeyCode::Stop, TerminalMedia::Stop),
        (MediaKeyCode::FastForward, TerminalMedia::FastForward),
        (MediaKeyCode::Rewind, TerminalMedia::Rewind),
        (MediaKeyCode::TrackNext, TerminalMedia::TrackNext),
        (MediaKeyCode::TrackPrevious, TerminalMedia::TrackPrevious),
        (MediaKeyCode::Record, TerminalMedia::Record),
        (MediaKeyCode::LowerVolume, TerminalMedia::LowerVolume),
        (MediaKeyCode::RaiseVolume, TerminalMedia::RaiseVolume),
        (MediaKeyCode::MuteVolume, TerminalMedia::MuteVolume),
    ];
    for (ours, theirs) in keys {
        assert_eq!(KeyCode::Media(ours).label(), format!("{:?}", TerminalKey::Media(theirs)));
    }
    assert_eq!(KeyCode::Media(MediaKeyCode::Play).label(), "Media(Play)");
}

#[test]
fn modifier_key_labels_are_the_terminal_library_debug_forms() {
    let keys = [
        (ModifierKeyCode::LeftShift, TerminalModifierKey::LeftShift),
        (ModifierKeyCode::LeftControl, TerminalModifierKey::LeftControl),
        (ModifierKeyCode::LeftAlt, TerminalModifierKey::LeftAlt),
        (ModifierKeyCode::LeftSuper, TerminalModifierKey::LeftSuper),
        (ModifierKeyCode::LeftHyper, TerminalModifierKey::LeftHyper),
        (ModifierKeyCode::LeftMeta, TerminalModifierKey::LeftMeta),
        (ModifierKeyCode::RightShift, TerminalModifierKey::RightShift),
        (ModifierKeyCode::RightControl, TerminalModifierKey::RightControl),
        (ModifierKeyCode::RightAlt, TerminalModifierKey::RightAlt),
        (ModifierKeyCode::RightSuper, TerminalModifierKey::RightSuper),
        (ModifierKeyCode::RightHyper, TerminalModifierKey::RightHyper),
        (ModifierKeyCode::RightMeta, TerminalModifierKey::RightMeta),
        (ModifierKeyCode::IsoLevel3Shift, TerminalModifierKey::IsoLevel3Shift),
        (ModifierKeyCode::IsoLevel5Shift, TerminalModifierKey::IsoLevel5Shift),
    ];
    for (ours, theirs) in keys {
        assert_eq!(
            KeyCode::Modifier(ours).label(),
            format!("{:?}", TerminalKey::Modifier(theirs))
        );
    }
    assert_eq!(KeyCode::Modifier(ModifierKeyCode::LeftShift).label(), "Modifier(LeftShift)");
}

#[test]
fn decimal_numerals() {
    for n in [0u16, 7, 10, 99, 100, 409, 9999, 10000, 65535] {
        let mut text = String::from("n=");
        push_decimal(&mut text, n);
        assert_eq!(text, format!("n={}", n));
    }
    for n in 0u16..=2000 {
        let mut text = String::new();
        push_decimal(&mut text, n);
        assert_eq!(text, n.to_string());
    }
}

#[test]
fn string_slices_compare_by_their_characters() {
    assert!(str_equals("", ""));
    assert!(str_equals("ctrl", "ctrl"));
    assert!(!str_equals("ctrl", "ctrl+"));
    assert!(!str_equals("ctrl", "ctrL"));
    assert!(!str_equals("é", "e"));
    assert!(str_equals("日本", "日本"));
}

#[test]
fn a_cloned_event_is_equal() {
    let mouse = MouseEvent {
        kind: MouseEventKind::ScrollUp,
        column: 9,
        row: 8,
        modifiers: TerminalModifiers::ALT | TerminalModifiers::SHIFT,
    };
    let events = [
        Event::Unknown,
        Event::Init,
        Event::Render,
        Event::Resize(1, 2),
        Event::Key(KeyCode::F(3), KeyModifiers { bits: ALT }),
        Event::Paste("pasted".to_string()),
        Event::Mouse(mouse),
        Event::UpdateArea(Rect { x: 4, y: 5, width: 6, height: 7 }),
    ];
    for (i, event) in events.iter().enumerate() {
        assert_eq!(event.clone(), *event);
        assert_eq!(event.clone().to_string(), event.to_string());
        for (j, other) in events.iter().enumerate() {
            assert_eq!(event == other, i == j);
        }
    }
}
