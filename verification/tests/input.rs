use pix_engine::event::{Event, Key, KeyMod, Mouse, Scan, WindowEvent};
use pix_engine::input::{has_control, keymod, Input, RawEvent};

#[test]
fn a_press_reports_the_last_cursor_position() {
    let mut input = Input::new();
    let mut out = Vec::new();
    input.translate(1, RawEvent::CursorMoved { x: 10, y: 20 }, &mut out);
    input.translate(1, RawEvent::CursorMoved { x: 15, y: 18 }, &mut out);
    input.translate(1, RawEvent::MouseInput { button: Mouse::Left, pressed: true }, &mut out);
    input.translate(1, RawEvent::MouseInput { button: Mouse::Left, pressed: false }, &mut out);
    assert_eq!(
        out,
        vec![
            Event::MouseMotion { x: 10, y: 20, xrel: 10, yrel: 20 },
            Event::MouseMotion { x: 15, y: 18, xrel: 5, yrel: -2 },
            Event::MouseDown { button: Mouse::Left, x: 15, y: 18 },
            Event::MouseUp { button: Mouse::Left, x: 15, y: 18 },
        ]
    );
}

#[test]
fn a_resize_reports_both_size_events() {
    let mut input = Input::new();
    let mut out = Vec::new();
    input.translate(3, RawEvent::Resized { width: 800, height: 600 }, &mut out);
    input.translate(3, RawEvent::Focused(false), &mut out);
    input.translate(3, RawEvent::Other, &mut out);
    assert_eq!(
        out,
        vec![
            Event::Window { window_id: 3, win_event: WindowEvent::Resized(800, 600) },
            Event::Window { window_id: 3, win_event: WindowEvent::SizeChanged(800, 600) },
            Event::Window { window_id: 3, win_event: WindowEvent::FocusLost },
        ]
    );
}

#[test]
fn a_chord_keeps_its_text_out_of_text_fields() {
    let mut input = Input::new();
    let mut out = Vec::new();
    input.translate(1, RawEvent::ModifiersChanged { shift: false, ctrl: true, alt: false, gui: false }, &mut out);
    assert!(out.is_empty());
    input.translate(
        1,
        RawEvent::Keyboard { scan: Scan::C, key: Some(Key::C), modifier: None, pressed: true, repeat: false, text: Some(String::from("c")) },
        &mut out,
    );
    assert_eq!(out, vec![Event::KeyDown { key: Some(Key::C), keymod: KeyMod::ctrl(), repeat: false, scan: Some(Scan::C) }]);
    out.clear();
    input.translate(1, RawEvent::ModifiersChanged { shift: false, ctrl: false, alt: false, gui: false }, &mut out);
    input.translate(
        1,
        RawEvent::Keyboard { scan: Scan::C, key: Some(Key::C), modifier: None, pressed: true, repeat: false, text: Some(String::from("c")) },
        &mut out,
    );
    assert_eq!(
        out,
        vec![
            Event::KeyDown { key: Some(Key::C), keymod: KeyMod::none(), repeat: false, scan: Some(Scan::C) },
            Event::TextInput { text: String::from("c") },
        ]
    );
}

#[test]
fn a_modifier_key_folds_in_its_own_bit() {
    let mut input = Input::new();
    let mut out = Vec::new();
    input.translate(
        1,
        RawEvent::Keyboard { scan: Scan::LShift, key: Some(Key::LShift), modifier: Some(KeyMod::shift()), pressed: true, repeat: false, text: None },
        &mut out,
    );
    input.translate(
        1,
        RawEvent::Keyboard { scan: Scan::LShift, key: Some(Key::LShift), modifier: Some(KeyMod::shift()), pressed: false, repeat: false, text: None },
        &mut out,
    );
    assert_eq!(
        out,
        vec![
            Event::KeyDown { key: Some(Key::LShift), keymod: KeyMod::shift(), repeat: false, scan: Some(Scan::LShift) },
            Event::KeyUp { key: Some(Key::LShift), keymod: KeyMod::none(), repeat: false, scan: Some(Scan::LShift) },
        ]
    );
}

#[test]
fn control_characters_are_not_typed() {
    assert!(has_control("a\u{8}"));
    assert!(has_control("\u{7f}"));
    assert!(!has_control("plain text"));
    let mut input = Input::new();
    let mut out = Vec::new();
    input.translate(
        1,
        RawEvent::Keyboard { scan: Scan::Backspace, key: Some(Key::Backspace), modifier: None, pressed: true, repeat: false, text: Some(String::from("\u{8}")) },
        &mut out,
    );
    assert_eq!(out.len(), 1);
}

#[test]
fn modifier_states_set_both_sides() {
    assert_eq!(keymod(true, false, false, false).bits(), 0x0003);
    assert_eq!(keymod(false, true, true, false).bits(), 0x03c0);
    assert_eq!(keymod(true, true, true, true).bits(), 0x0fc3);
    assert_eq!(keymod(false, false, false, false), KeyMod::none());
}
