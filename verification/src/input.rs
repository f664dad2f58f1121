//! Translation of window-system input into the engine's [`Event`]s.
//!
//! Two things have to be kept between events. Modifiers arrive in an event of their own rather
//! than on each key, and a mouse button press reports no position.

use crate::event::{Event, Key, KeyMod, Mouse, Scan, WindowEvent};
use vstd::prelude::*;
use vstd::string::StrSliceExecFns;

verus! {

/// A window-system event, in the values the engine reads from it.
#[derive(Debug)]
pub enum RawEvent {
    /// The window was asked to close.
    CloseRequested,
    /// The window was destroyed.
    Destroyed,
    /// The window gained (`true`) or lost input focus.
    Focused(bool),
    /// The window's inner size changed.
    Resized { width: u32, height: u32 },
    /// The window moved.
    Moved { x: i32, y: i32 },
    /// The window became hidden (`true`) or visible.
    Occluded(bool),
    /// The cursor entered the window.
    CursorEntered,
    /// The cursor left the window.
    CursorLeft,
    /// The held modifiers changed.
    ModifiersChanged { shift: bool, ctrl: bool, alt: bool, gui: bool },
    /// A key went down or up: its position, the key the layout made of it, the modifier it
    /// stands for if it is one, and the text it produced.
    Keyboard {
        scan: Scan,
        key: Option<Key>,
        modifier: Option<KeyMod>,
        pressed: bool,
        repeat: bool,
        text: Option<String>,
    },
    /// An input method committed text.
    ImeCommit(String),
    /// The cursor moved to `(x, y)` in window pixels.
    CursorMoved { x: i32, y: i32 },
    /// A mouse button went down or up.
    MouseInput { button: Mouse, pressed: bool },
    /// The mouse wheel turned, in notches.
    MouseWheel { x: i32, y: i32 },
    /// An event the engine does not report.
    Other,
}

/// Input state that a single window-system event does not include.
#[derive(Debug, Copy, Clone)]
pub struct Input {
    /// Modifiers held as of the last modifier change.
    keymod: KeyMod,
    /// Cursor position in window pixels, from the last cursor motion.
    cursor: (i32, i32),
}

/// The abstract input state: the held modifiers' bits and the cursor position.
pub struct InputView {
    pub keymod: u16,
    pub cursor: (i32, i32),
}

impl View for Input {
    type V = InputView;

    closed spec fn view(&self) -> InputView {
        InputView { keymod: self.keymod@, cursor: self.cursor }
    }
}

/// Whether a character is a control character: `U+0000` to `U+001F`, and `U+007F` to `U+009F`.
pub open spec fn is_control_char(c: char) -> bool {
    (c as u32) <= 0x1f || (0x7f <= (c as u32) && (c as u32) <= 0x9f)
}

/// Returns whether `text` holds a control character.
pub fn has_control(text: &str) -> (b: bool)
    ensures
        b == exists|i: int| 0 <= i < text@.len() && #[trigger] is_control_char(text@[i]),
{
    let n = text.unicode_len();
    let mut i: usize = 0;
    while i < n
        invariant
            n == text@.len(),
            i <= n,
            forall|j: int| 0 <= j < i ==> !#[trigger] is_control_char(text@[j]),
        decreases n - i,
    {
        let c = text.get_char(i);
        let code = c as u32;
        if code <= 0x1f || (0x7f <= code && code <= 0x9f) {
            assert(is_control_char(text@[i as int]));
            return true;
        }
        i += 1;
    }
    false
}

/// The modifier bits of a modifier state: both shift bits for shift, and likewise for
/// control, alt and the GUI key.
pub open spec fn keymod_bits(shift: bool, ctrl: bool, alt: bool, gui: bool) -> u16 {
    ((if shift { 0x0003u16 } else { 0u16 }) | (if ctrl { 0x00c0u16 } else { 0u16 }) | (if alt { 0x0300u16 } else { 0u16 }) | (if gui { 0x0c00u16 } else { 0u16 })) as u16
}

/// Returns the modifiers the engine reports for a window-system modifier state.
pub fn keymod(shift: bool, ctrl: bool, alt: bool, gui: bool) -> (m: KeyMod)
    ensures
        m@ == keymod_bits(shift, ctrl, alt, gui),
{
    let mut m = KeyMod::none();
    m.set(KeyMod::shift(), shift);
    m.set(KeyMod::ctrl(), ctrl);
    m.set(KeyMod::alt(), alt);
    m.set(KeyMod::gui(), gui);
    let s: u16 = if shift { 0x0003 } else { 0 };
    let c: u16 = if ctrl { 0x00c0 } else { 0 };
    let a: u16 = if alt { 0x0300 } else { 0 };
    let g: u16 = if gui { 0x0c00 } else { 0 };
    proof {
        let b0: u16 = 0;
        let b1: u16 = if shift { b0 | 0x0003u16 } else { b0 & !0x0003u16 };
        let b2: u16 = if ctrl { b1 | 0x00c0u16 } else { b1 & !0x00c0u16 };
        let b3: u16 = if alt { b2 | 0x0300u16 } else { b2 & !0x0300u16 };
        let b4: u16 = if gui { b3 | 0x0c00u16 } else { b3 & !0x0c00u16 };
        assert(b1 == s) by (bit_vector)
            requires b0 == 0u16, b1 == (if shift { b0 | 0x0003u16 } else { b0 & !0x0003u16 }), s == (if shift { 0x0003u16 } else { 0u16 });
        assert(b2 == s | c) by (bit_vector)
            requires b1 == s, b2 == (if ctrl { b1 | 0x00c0u16 } else { b1 & !0x00c0u16 }), c == (if ctrl { 0x00c0u16 } else { 0u16 }), s == 0u16 || s == 0x0003u16;
        assert(b3 == s | c | a) by (bit_vector)
            requires b2 == s | c, b3 == (if alt { b2 | 0x0300u16 } else { b2 & !0x0300u16 }), a == (if alt { 0x0300u16 } else { 0u16 }), s == 0u16 || s == 0x0003u16, c == 0u16 || c == 0x00c0u16;
        assert(b4 == s | c | a | g) by (bit_vector)
            requires b3 == s | c | a, b4 == (if gui { b3 | 0x0c00u16 } else { b3 & !0x0c00u16 }), g == (if gui { 0x0c00u16 } else { 0u16 }), s == 0u16 || s == 0x0003u16, c == 0u16 || c == 0x00c0u16, a == 0u16 || a == 0x0300u16;
    }
    m
}

/// The window events a window-system event produces, given the input state kept so far.
pub open spec fn translated(i: InputView, window_id: u32, e: RawEvent) -> Seq<Event> {
    let win = |w: WindowEvent| Event::Window { window_id, win_event: w };
    match e {
        RawEvent::CloseRequested | RawEvent::Destroyed => seq![win(WindowEvent::Close)],
        RawEvent::Focused(gained) => seq![win(if gained { WindowEvent::FocusGained } else { WindowEvent::FocusLost })],
        RawEvent::Resized { width, height } => seq![
            win(WindowEvent::Resized(width as i32, height as i32)),
            win(WindowEvent::SizeChanged(width as i32, height as i32)),
        ],
        RawEvent::Moved { x, y } => seq![win(WindowEvent::Moved(x, y))],
        RawEvent::Occluded(occluded) => seq![win(if occluded { WindowEvent::Hidden } else { WindowEvent::Shown })],
        RawEvent::CursorEntered => seq![win(WindowEvent::Enter)],
        RawEvent::CursorLeft => seq![win(WindowEvent::Leave)],
        RawEvent::ModifiersChanged { .. } => Seq::empty(),
        RawEvent::Keyboard { scan, key, modifier, pressed, repeat, text } => {
            let bits = key_event_mod(i.keymod, modifier, pressed);
            let keymod = KeyMod::from_bits_spec(bits);
            if pressed {
                let down = Event::KeyDown { key, keymod, repeat, scan: Some(scan) };
                let chord = bits & 0x0cc0u16 != 0;
                match text {
                    Some(t) if !chord && !(exists|j: int| 0 <= j < t@.len() && #[trigger] is_control_char(t@[j])) => seq![
                        down,
                        Event::TextInput { text: t },
                    ],
                    _ => seq![down],
                }
            } else {
                seq![Event::KeyUp { key, keymod, repeat, scan: Some(scan) }]
            }
        },
        RawEvent::ImeCommit(text) => seq![Event::TextInput { text }],
        RawEvent::CursorMoved { x, y } => seq![
            Event::MouseMotion { x, y, xrel: (x - i.cursor.0) as i32, yrel: (y - i.cursor.1) as i32 },
        ],
        RawEvent::MouseInput { button, pressed } => if pressed {
            seq![Event::MouseDown { button, x: i.cursor.0, y: i.cursor.1 }]
        } else {
            seq![Event::MouseUp { button, x: i.cursor.0, y: i.cursor.1 }]
        },
        RawEvent::MouseWheel { x, y } => seq![Event::MouseWheel { x, y }],
        RawEvent::Other => Seq::empty(),
    }
}

/// The modifiers a key event reports: those last seen, with the bit of the key itself set
/// while it goes down and cleared as it comes up.
pub open spec fn key_event_mod(held: u16, modifier: Option<KeyMod>, pressed: bool) -> u16 {
    match modifier {
        Some(bit) => if pressed { held | bit@ } else { held & !bit@ },
        None => held,
    }
}

/// The input state after a window-system event: a modifier change replaces the held
/// modifiers, and a cursor motion the cursor position.
pub open spec fn next_input(i: InputView, e: RawEvent) -> InputView {
    match e {
        RawEvent::ModifiersChanged { shift, ctrl, alt, gui } => InputView { keymod: keymod_bits(shift, ctrl, alt, gui), ..i },
        RawEvent::CursorMoved { x, y } => InputView { cursor: (x, y), ..i },
        _ => i,
    }
}

/// Whether translating an event stays within `i32`.
pub open spec fn translate_fits(i: InputView, e: RawEvent) -> bool {
    match e {
        RawEvent::CursorMoved { x, y } => i32::MIN <= x - i.cursor.0 <= i32::MAX && i32::MIN <= y - i.cursor.1 <= i32::MAX,
        _ => true,
    }
}

impl Input {
    /// No modifier held, and the cursor at the origin.
    pub fn new() -> (i: Self)
        ensures
            i@ == (InputView { keymod: 0, cursor: (0, 0) }),
    {
        Input { keymod: KeyMod::none(), cursor: (0, 0) }
    }

    /// Whether translating `event` keeps the relative cursor motion within `i32`.
    pub fn fits(&self, event: &RawEvent) -> (b: bool)
        ensures
            b == translate_fits(self@, *event),
    {
        match event {
            RawEvent::CursorMoved { x, y } => {
                let dx = *x as i64 - self.cursor.0 as i64;
                let dy = *y as i64 - self.cursor.1 as i64;
                i32::MIN as i64 <= dx && dx <= i32::MAX as i64 && i32::MIN as i64 <= dy && dy <= i32::MAX as i64
            },
            _ => true,
        }
    }

    /// Appends the engine events a window-system event produces.
    ///
    /// A canvas is the size of its window, so a position needs no scaling on the way through.
    pub fn translate(&mut self, window_id: u32, event: RawEvent, out: &mut Vec<Event>)
        requires
            translate_fits(old(self)@, event),
        ensures
            final(out)@ == old(out)@ + translated(old(self)@, window_id, event),
            final(self)@ == next_input(old(self)@, event),
    {
        let ghost i0 = self@;
        let ghost e = event;
        let ghost start = out@;
        match event {
            RawEvent::CloseRequested | RawEvent::Destroyed => {
                out.push(Event::Window { window_id, win_event: WindowEvent::Close });
            },
            RawEvent::Focused(gained) => {
                out.push(Event::Window {
                    window_id,
                    win_event: if gained { WindowEvent::FocusGained } else { WindowEvent::FocusLost },
                });
            },
            RawEvent::Resized { width, height } => {
                let (w, h) = (width as i32, height as i32);
                out.push(Event::Window { window_id, win_event: WindowEvent::Resized(w, h) });
                out.push(Event::Window { window_id, win_event: WindowEvent::SizeChanged(w, h) });
            },
            RawEvent::Moved { x, y } => {
                out.push(Event::Window { window_id, win_event: WindowEvent::Moved(x, y) });
            },
            RawEvent::Occluded(occluded) => {
                out.push(Event::Window {
                    window_id,
                    win_event: if occluded { WindowEvent::Hidden } else { WindowEvent::Shown },
                });
            },
            RawEvent::CursorEntered => {
                out.push(Event::Window { window_id, win_event: WindowEvent::Enter });
            },
            RawEvent::CursorLeft => {
                out.push(Event::Window { window_id, win_event: WindowEvent::Leave });
            },
            RawEvent::ModifiersChanged { shift, ctrl, alt, gui } => {
                self.keymod = keymod(shift, ctrl, alt, gui);
            },
            RawEvent::Keyboard { scan, key, modifier, pressed, repeat, text } => {
                let mut keymod = self.keymod;
                if let Some(bit) = modifier {
                    keymod.set(bit, pressed);
                }
                proof {
                    KeyMod::lemma_from_bits(keymod);
                }
                if pressed {
                    out.push(Event::KeyDown { key, keymod, repeat, scan: Some(scan) });
                    let chord = keymod.intersects(KeyMod::ctrl().union(KeyMod::gui()));
                    assert(0x00c0u16 | 0x0c00u16 == 0x0cc0u16) by (bit_vector);
                    if let Some(t) = text {
                        if !chord && !has_control(t.as_str()) {
                            out.push(Event::TextInput { text: t });
                        }
                    }
                } else {
                    out.push(Event::KeyUp { key, keymod, repeat, scan: Some(scan) });
                }
            },
            RawEvent::ImeCommit(text) => {
                out.push(Event::TextInput { text });
            },
            RawEvent::CursorMoved { x, y } => {
                let (px, py) = self.cursor;
                self.cursor = (x, y);
                out.push(Event::MouseMotion { x, y, xrel: x - px, yrel: y - py });
            },
            RawEvent::MouseInput { button, pressed } => {
                let (x, y) = self.cursor;
                if pressed {
                    out.push(Event::MouseDown { button, x, y });
                } else {
                    out.push(Event::MouseUp { button, x, y });
                }
            },
            RawEvent::MouseWheel { x, y } => {
                out.push(Event::MouseWheel { x, y });
            },
            RawEvent::Other => {},
        }
        assert(out@ =~= start + translated(i0, window_id, e));
    }
}

} // verus!
