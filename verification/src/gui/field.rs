//! Text entry: how a text field's value changes with the keys entered and the text typed.

use crate::engine::PixState;
use crate::event::Key;
use crate::gui::layout::{advance_fits, advance_state, lemma_advanced_state};
use crate::error::PixResult;
use crate::gui::scroll::{lemma_scrolled_keeps_layout, scroll_fits, scrolled};
use crate::vector::Vector;
use crate::gui::state::{
    element_set, ElementField, ElementState,
    cleared, events_step, focus_step, get_label, id_hash, top_seed, try_hover_step, visible_label,
    ElementId, UiView,
};
use crate::gui::theme::Spacing;
use crate::ops::{clamp_size, clamp_size_spec};
use crate::shape::{PointI2, Rect};
use vstd::string::StringSliceAdditionalSpecFns;
use vstd::utf8::encode_utf8;
use crate::gui::keys::KeyStateView;
use crate::input::is_control_char;
use vstd::prelude::*;
use vstd::string::{StrSliceExecFns, StringExecFns};

verus! {

/// Whether a character is white space: tab, line feed, vertical tab, form feed, carriage
/// return, space, next line, no-break space, ogham space mark, the spaces from en quad to hair
/// space, line and paragraph separators, narrow no-break space, medium mathematical space and
/// ideographic space.
pub open spec fn is_whitespace_char(c: char) -> bool {
    let u = c as u32;
    ||| 0x09 <= u <= 0x0d
    ||| u == 0x20
    ||| u == 0x85
    ||| u == 0xa0
    ||| u == 0x1680
    ||| 0x2000 <= u <= 0x200a
    ||| u == 0x2028
    ||| u == 0x2029
    ||| u == 0x202f
    ||| u == 0x205f
    ||| u == 0x3000
}

fn is_whitespace(c: char) -> (b: bool)
    ensures
        b == is_whitespace_char(c),
{
    let u = c as u32;
    (0x09 <= u && u <= 0x0d) || u == 0x20 || u == 0x85 || u == 0xa0 || u == 0x1680 || (0x2000
        <= u && u <= 0x200a) || u == 0x2028 || u == 0x2029 || u == 0x202f || u == 0x205f || u
        == 0x3000
}

/// The last position of a white space character before `end`, if any.
pub open spec fn last_space_before(v: Seq<char>, end: int) -> Option<int>
    decreases end,
{
    if end <= 0 {
        None
    } else if is_whitespace_char(v[end - 1]) {
        Some(end - 1)
    } else {
        last_space_before(v, end - 1)
    }
}

/// The text left when Alt+Backspace deletes the last word: a trailing white space character
/// goes first, then everything after the last white space left, or all of it when none is.
pub open spec fn delete_word(v: Seq<char>) -> Seq<char> {
    let v1 = if v.len() > 0 && is_whitespace_char(v.last()) { v.drop_last() } else { v };
    match last_space_before(v1, v1.len() as int) {
        Some(i) => v1.subrange(0, i + 1),
        None => Seq::empty(),
    }
}

/// The text after the key entered and the text typed this frame, whether it changed, and what
/// is to be copied to the clipboard.
///
/// Backspace, on a value that is not empty, deletes everything with Ctrl, the last word with
/// Alt, and else the last character. Ctrl+X cuts the value, Ctrl+C copies it and Ctrl+V pastes
/// `clipboard` at its end. Typed text is appended.
pub open spec fn edited(
    v: Seq<char>,
    key: Option<Key>,
    ctrl: bool,
    alt: bool,
    typed: Option<Seq<char>>,
    clipboard: Seq<char>,
) -> (Seq<char>, bool, Option<Seq<char>>) {
    let (v1, c1, copy) = match key {
        Some(Key::Backspace) if v.len() > 0 => (
            if ctrl { Seq::empty() } else if alt { delete_word(v) } else { v.drop_last() },
            true,
            None,
        ),
        Some(Key::X) if ctrl => (Seq::empty(), true, Some(v)),
        Some(Key::C) if ctrl => (v, false, Some(v)),
        Some(Key::V) if ctrl => (v + clipboard, true, None),
        _ => (v, false, None),
    };
    match typed {
        Some(t) => (v1 + t, true, copy),
        None => (v1, c1, copy),
    }
}

/// Returns the text with its last character removed.
fn drop_last_char(value: &String) -> (r: String)
    requires
        value@.len() > 0,
    ensures
        r@ == value@.drop_last(),
{
    let n = value.as_str().unicode_len();
    value.as_str().substring_char(0, n - 1).to_owned()
}

/// Returns the text without its last word.
fn drop_last_word(value: &String) -> (r: String)
    ensures
        r@ == delete_word(value@),
{
    let mut v = value.as_str().to_owned();
    let n = v.as_str().unicode_len();
    if n > 0 && is_whitespace(v.as_str().get_char(n - 1)) {
        v = drop_last_char(&v);
    }
    let ghost v1 = if value@.len() > 0 && is_whitespace_char(value@.last()) { value@.drop_last() } else { value@ };
    assert(v@ == v1);
    let m = v.as_str().unicode_len();
    let mut i = m;
    while i > 0
        invariant
            i <= m == v@.len(),
            v@ == (if value@.len() > 0 && is_whitespace_char(value@.last()) { value@.drop_last() } else { value@ }),
            last_space_before(v@, m as int) == last_space_before(v@, i as int),
        decreases i,
    {
        if is_whitespace(v.as_str().get_char(i - 1)) {
            let r = v.as_str().substring_char(0, i).to_owned();
            assert(last_space_before(v@, i as int) == Some(i - 1));
            return r;
        }
        i -= 1;
    }
    assert(last_space_before(v@, 0) is None);
    let r = String::new();
    assert(r@ =~= Seq::<char>::empty());
    r
}

/// Applies the key entered and the text typed this frame to a text field's value. Returns
/// whether it changed, and the text to copy to the clipboard, if any.
pub fn edit_text(
    value: &mut String,
    key: Option<Key>,
    ctrl: bool,
    alt: bool,
    typed: Option<String>,
    clipboard: &str,
) -> (r: (bool, Option<String>))
    ensures
        ({
            let e = edited(old(value)@, key, ctrl, alt, match typed { Some(t) => Some(t@), None => None }, clipboard@);
            &&& final(value)@ == e.0
            &&& r.0 == e.1
            &&& match e.2 {
                Some(c) => r.1 matches Some(s) && s@ == c,
                None => r.1 is None,
            }
        }),
{
    let mut changed = false;
    let mut copy: Option<String> = None;
    let empty = value.as_str().unicode_len() == 0;
    match key {
        Some(Key::Backspace) if !empty => {
            if ctrl {
                *value = String::new();
            } else if alt {
                *value = drop_last_word(value);
            } else {
                *value = drop_last_char(value);
            }
            changed = true;
        },
        Some(Key::X) if ctrl => {
            copy = Some(value.clone());
            *value = String::new();
            changed = true;
        },
        Some(Key::C) if ctrl => {
            copy = Some(value.clone());
        },
        Some(Key::V) if ctrl => {
            value.append(clipboard);
            changed = true;
        },
        _ => {},
    }
    if let Some(text) = typed {
        value.append(text.as_str());
        changed = true;
    }
    (changed, copy)
}

/// The text without its control characters; line feeds stay when `keep_newlines`.
pub open spec fn strip_controls(v: Seq<char>, keep_newlines: bool) -> Seq<char>
    decreases v.len(),
{
    if v.len() == 0 {
        v
    } else {
        let rest = strip_controls(v.drop_last(), keep_newlines);
        if !is_control_char(v.last()) || (keep_newlines && v.last() == '\n') {
            rest.push(v.last())
        } else {
            rest
        }
    }
}

/// Returns the text without its control characters; line feeds stay when `keep_newlines`.
pub fn without_controls(value: &str, keep_newlines: bool) -> (r: String)
    ensures
        r@ == strip_controls(value@, keep_newlines),
{
    let n = value.unicode_len();
    let mut r = String::new();
    let mut i: usize = 0;
    while i < n
        invariant
            n == value@.len(),
            i <= n,
            r@ == strip_controls(value@.take(i as int), keep_newlines),
        decreases n - i,
    {
        let c = value.get_char(i);
        let code = c as u32;
        assert(value@.take(i + 1).drop_last() =~= value@.take(i as int));
        if !(code <= 0x1f || (0x7f <= code && code <= 0x9f)) || (keep_newlines && c == '\n') {
            let one = value.substring_char(i, i + 1);
            assert(one@ =~= seq![c]);
            r.append(one);
        }
        i += 1;
    }
    assert(value@.take(n as int) =~= value@);
    r
}

/// The input box of a text field: right of its label, when it has one, by the item padding; as
/// wide as requested for the next element, else the UI's width, else 100; as tall as the label
/// plus item padding above and below.
pub open spec fn field_input(
    s: UiView,
    ipad: PointI2,
    label_size: (i32, i32),
    has_label: bool,
    ui_width: Option<i32>,
) -> (i32, i32, i32, i32) {
    let w = match s.next_width {
        Some(w) => w,
        None => match ui_width {
            Some(w) => w,
            None => 100i32,
        },
    };
    let x = if has_label { s.cursor@[0] + label_size.0 + ipad@[0] } else { s.cursor@[0] as int };
    (x as i32, s.cursor@[1], w, (label_size.1 + 2 * ipad@[1]) as i32)
}

/// What a focused text field does with this frame's keys: Return or Escape gives up focus; the
/// value is edited (see [`edited`]) with the typed text taken; an edited value loses its
/// control characters. Returns the state, the value, whether it changed and what to copy.
pub open spec fn field_edit(s: UiView, value: Seq<char>, clipboard: Seq<char>) -> (UiView, Seq<char>, bool, Option<Seq<char>>) {
    let b = if s.keys.entered == Some(Key::Return) || s.keys.entered == Some(Key::Escape) {
        UiView { focused: None, ..s }
    } else {
        s
    };
    let ctrl = s.keys.keymod & 0x00c0u16 != 0;
    let alt = s.keys.keymod & 0x0300u16 != 0;
    let e = edited(value, s.keys.entered, ctrl, alt, s.keys.typed, clipboard);
    (
        UiView { keys: KeyStateView { typed: None, ..b.keys }, ..b },
        if e.1 { strip_controls(e.0, false) } else { e.0 },
        e.1,
        e.2,
    )
}

/// The state once a field `id` over `input` has tried to take hover and focus, which it does
/// only while the window has input focus, and whether it is focused.
pub open spec fn field_interact(s: UiView, window_focused: bool, id: ElementId, input: (i32, i32, i32, i32)) -> (UiView, bool) {
    if window_focused {
        let s1 = focus_step(try_hover_step(s, id, input), id);
        (s1, s1.is_focused(id))
    } else {
        (s, false)
    }
}

/// Whether a text field's arithmetic stays within `i32`: its input box, and the cursor moving
/// past the label and the box. The mouse is read only while the window has input focus.
pub open spec fn field_fits(
    s: UiView,
    window_focused: bool,
    spacing: Spacing,
    has_label: bool,
    label_size: (i32, i32),
    ui_width: Option<i32>,
) -> bool {
    let ipad = spacing.item_pad@;
    let input = field_input(s, spacing.item_pad, label_size, has_label, ui_width);
    &&& has_label ==> i32::MIN <= s.cursor@[0] + label_size.0 <= i32::MAX
    &&& has_label ==> i32::MIN <= s.cursor@[0] + label_size.0 + ipad[0] <= i32::MAX
    &&& i32::MIN <= 2 * ipad[1] <= i32::MAX
    &&& i32::MIN <= label_size.1 + 2 * ipad[1] <= i32::MAX
    &&& i32::MIN <= input.0 + input.2 <= i32::MAX
    &&& i32::MIN <= input.0 + input.2 - s.cursor@[0] <= i32::MAX
    &&& window_focused ==> s.mouse_fits()
    &&& advance_fits(s, spacing.frame_pad, spacing.item_pad, (input.0 + input.2 - s.cursor@[0]) as i32, input.3)
}

/// Whether a text area's input box stays within `i32`. The mouse is read only while the window
/// has input focus.
pub open spec fn area_fits(s: UiView, window_focused: bool, spacing: Spacing, has_label: bool, label_size: (i32, i32)) -> bool {
    let ipad = spacing.item_pad@;
    &&& has_label ==> i32::MIN <= s.cursor@[1] + label_size.1 <= i32::MAX
    &&& i32::MIN <= 2 * ipad[1] <= i32::MAX
    &&& has_label ==> i32::MIN <= s.cursor@[1] + label_size.1 + 2 * ipad[1] <= i32::MAX
    &&& window_focused ==> s.mouse_fits()
}

/// What a focused text area does with this frame's keys: Return adds a line feed; Escape gives
/// up focus; any other key edits the value as a text field does (see [`edited`]), the typed
/// text taken. An edited value loses its control characters but line feeds. Returns the
/// state, the value, whether it changed and what to copy.
pub open spec fn area_edit(s: UiView, value: Seq<char>, clipboard: Seq<char>) -> (UiView, Seq<char>, bool, Option<Seq<char>>) {
    match s.keys.entered {
        Some(Key::Return) => (s, strip_controls(value.push('\n'), true), true, None),
        Some(Key::Escape) => (UiView { focused: None, ..s }, value, false, None),
        _ => {
            let ctrl = s.keys.keymod & 0x00c0u16 != 0;
            let alt = s.keys.keymod & 0x0300u16 != 0;
            let e = edited(value, s.keys.entered, ctrl, alt, s.keys.typed, clipboard);
            (
                UiView { keys: KeyStateView { typed: None, ..s.keys }, ..s },
                if e.1 { strip_controls(e.0, true) } else { e.0 },
                e.1,
                e.2,
            )
        },
    }
}

/// The input box of a text area: below its label, when it has one, by twice the item padding;
/// `width` by `height`, each clamped to half of `i32::MAX`.
pub open spec fn area_input(s: UiView, ipad: PointI2, label_size: (i32, i32), has_label: bool, width: u32, height: u32) -> (i32, i32, i32, i32) {
    let y = if has_label { s.cursor@[1] + label_size.1 + 2 * ipad@[1] } else { s.cursor@[1] as int };
    (s.cursor@[0], y as i32, clamp_size_spec(width), clamp_size_spec(height))
}

/// A text area after this frame's input: its identifier, its input box, whether its value
/// changed and the text to copy to the clipboard, if any.
pub struct TextArea {
    pub id: ElementId,
    pub input: Rect<i32>,
    pub changed: bool,
    pub copy: Option<String>,
}

/// The scroll a text area stores after an edit: the text's height `th` (with padding) less the
/// box's height, or 0 when the text fits.
pub open spec fn area_scroll_y(th: int, box_height: i32) -> int {
    if th < box_height { 0 } else { th - box_height }
}

/// The text area's elements after an edit stored scroll `ny`, keeping the horizontal scroll.
pub open spec fn area_scroll_set(s: UiView, id: ElementId, e1: Seq<(u64, ElementState)>, ny: int) -> bool {
    let cur = match s.element(id) {
        Some(st) => st.scroll@,
        None => seq![0i32, 0i32],
    };
    &&& element_set(s.elements, e1, id, ElementField::Scroll)
    &&& e1[0].1.scroll@ == seq![cur[0], ny as i32]
}

/// Whether finishing a text area stays within `i32`: the text's height with padding, the
/// stored scroll, the scroll bars (see [`scroll_fits`]), and the room the area takes.
pub open spec fn area_scroll_fits(
    s: UiView,
    spacing: Spacing,
    scroll_size: i32,
    id: ElementId,
    input: (i32, i32, i32, i32),
    changed: bool,
    label_width: i32,
    text_height: i32,
) -> bool {
    let th = text_height + 2 * spacing.item_pad@[1];
    let ny = area_scroll_y(th, input.3);
    let out_w = input.2 + scroll_size;
    let w = if out_w >= label_width { out_w } else { label_width as int };
    let h = input.1 + input.3 + scroll_size - s.cursor@[1];
    &&& i32::MIN <= 2 * spacing.item_pad@[1] <= i32::MAX
    &&& i32::MIN <= th <= i32::MAX
    &&& i32::MIN <= th - input.3 <= i32::MAX
    &&& !changed ==> scroll_fits(events_step(s, id), scroll_size, id, input, 0, th as i32)
    &&& changed ==> forall|e1: Seq<(u64, ElementState)>|
        #[trigger] area_scroll_set(s, id, e1, ny) ==> scroll_fits(
            events_step(UiView { elements: e1, ..s }, id),
            scroll_size,
            id,
            input,
            0,
            th as i32,
        )
    &&& i32::MIN <= input.1 + input.3 + scroll_size <= i32::MAX
    &&& i32::MIN <= h <= i32::MAX
    &&& advance_fits(s, spacing.frame_pad, spacing.item_pad, w as i32, h as i32)
}

/// How a text area finishes, from state `s` to `fin`: after an edit its elements become `e1`
/// with the scroll that shows the end of the text stored; it handles Tab and click focus; it
/// scrolls (see [`scrolled`]) to `mid`, `out` being its box with scroll bars; the cursor moves
/// past the label and that box.
pub open spec fn area_finished(
    s: UiView,
    spacing: Spacing,
    id: ElementId,
    input: (i32, i32, i32, i32),
    changed: bool,
    label_width: i32,
    text_height: i32,
    e1: Seq<(u64, ElementState)>,
    mid: UiView,
    out: Rect<i32>,
    fin: UiView,
) -> bool {
    let th = text_height + 2 * spacing.item_pad@[1];
    let s1 = if changed { UiView { elements: e1, ..s } } else { s };
    let w = if out@.2 >= label_width { out@.2 } else { label_width };
    &&& changed ==> area_scroll_set(s, id, e1, area_scroll_y(th, input.3))
    &&& scrolled(events_step(s1, id), spacing.scroll_size, id, input, 0, th as i32, mid, out)
    &&& fin == advance_state(mid, spacing.frame_pad, spacing.item_pad, w, (out@.1 + out@.3 - s.cursor@[1]) as i32)
}

/// What a text field labelled `label` (whose visible label measures `label_size`) leaves, from
/// state `s` and value `value` to state `fin`, value `fin_value`, whether it changed and what
/// to copy: it takes the next width (see [`field_input`]) and, while the window has input
/// focus, tries to take hover and focus; when focused it edits the value (see
/// [`field_edit`]); it then handles Tab and click focus, and the cursor moves past the label
/// and the box.
pub open spec fn field_done(
    s: UiView,
    window_focused: bool,
    spacing: Spacing,
    label: Seq<char>,
    label_size: (i32, i32),
    ui_width: Option<i32>,
    value: Seq<char>,
    clipboard: Seq<char>,
    fin: UiView,
    fin_value: Seq<char>,
    changed: bool,
    copy: Option<Seq<char>>,
) -> bool {
    let id = ElementId(id_hash(encode_utf8(label), top_seed(s)));
    let has_label = visible_label(label).len() > 0;
    let input = field_input(s, spacing.item_pad, label_size, has_label, ui_width);
    let (s1, focused) = field_interact(UiView { next_width: None, ..s }, window_focused, id, input);
    let (s2, v, c, cp) = if focused {
        field_edit(s1, value, clipboard)
    } else {
        (s1, value, false, None)
    };
    &&& fin_value == v
    &&& changed == c
    &&& copy == cp
    &&& fin == advance_state(
        events_step(s2, id),
        spacing.frame_pad,
        spacing.item_pad,
        (input.0 + input.2 - s.cursor@[0]) as i32,
        input.3,
    )
}

impl PixState {
    /// Applies this frame's key entered and text typed to a text field's value, the text typed
    /// being taken. Ctrl (either control key) and Alt (either alt key) are read from the held
    /// modifiers; `clipboard` is what Ctrl+V pastes. Returns whether the value changed and the
    /// text to copy to the clipboard, if any.
    pub fn handle_text_events(&mut self, value: &mut String, clipboard: &str) -> (r: (bool, Option<String>))
        requires
            old(self).wf(),
        ensures
            final(self).wf(),
            final(self).theme == old(self).theme,
            final(self).window_focused == old(self).window_focused,
            final(self).ui@ == (UiView { keys: KeyStateView { typed: None, ..old(self).ui@.keys }, ..old(self).ui@ }),
            ({
                let s = old(self).ui@;
                let e = edited(old(value)@, s.keys.entered, s.keys.keymod & 0x00c0u16 != 0, s.keys.keymod & 0x0300u16 != 0, s.keys.typed, clipboard@);
                &&& final(value)@ == e.0
                &&& r.0 == e.1
                &&& match e.2 {
                    Some(c) => r.1 matches Some(t) && t@ == c,
                    None => r.1 is None,
                }
            }),
    {
        let key = self.ui.key_entered();
        let bits = self.ui.keymod_bits();
        let ctrl = bits & 0x00c0 != 0;
        let alt = bits & 0x0300 != 0;
        let typed = self.ui.take_typed();
        edit_text(value, key, ctrl, alt, typed, clipboard)
    }
    /// Handles a text field labelled `label`, whose visible label measures `label_size`, over
    /// `value`; `ui_width` is the UI's width when known and `clipboard` what Ctrl+V pastes. The
    /// field takes the next width (see [`field_input`]) and, while the window has input focus,
    /// tries to take hover and focus; when focused it edits the value (see [`field_edit`]). It
    /// then handles Tab and click focus, and the cursor moves past the label and the box.
    /// Returns whether the value changed and the text to copy to the clipboard, if any.
    #[verifier::rlimit(30)]
    pub fn text_field(
        &mut self,
        label: &str,
        label_size: (i32, i32),
        ui_width: Option<i32>,
        value: &mut String,
        clipboard: &str,
    ) -> (r: (bool, Option<String>))
        requires
            old(self).wf(),
            field_fits(
                old(self).ui@,
                old(self).window_focused,
                old(self).theme.spacing,
                visible_label(label@).len() > 0,
                label_size,
                ui_width,
            ),
        ensures
            final(self).wf(),
            final(self).theme == old(self).theme,
            final(self).window_focused == old(self).window_focused,
            field_done(
                old(self).ui@,
                old(self).window_focused,
                old(self).theme.spacing,
                label@,
                label_size,
                ui_width,
                old(value)@,
                clipboard@,
                final(self).ui@,
                final(value)@,
                r.0,
                match r.1 {
                    Some(t) => Some(t@),
                    None => None,
                },
            ),
    {
        let id = self.ui.get_id(label);
        let visible = get_label(label);
        let has_label = visible.unicode_len() > 0;
        let pos = self.cursor_pos();
        let ipad = self.theme.spacing.item_pad;
        proof {
            pos.lemma_len();
            ipad.lemma_len();
        }
        let width = match self.ui.take_next_width() {
            Some(w) => w,
            None => match ui_width {
                Some(w) => w,
                None => 100,
            },
        };
        let x = if has_label { pos.x() + label_size.0 + ipad.x() } else { pos.x() };
        let input = Rect::new(x, pos.y(), width, label_size.1 + 2 * ipad.y());
        let ghost s0 = self.ui@;
        let focused = if self.focused() {
            self.ui.try_hover(id, &input);
            self.ui.try_focus(id)
        } else {
            false
        };
        let ghost s1 = self.ui@;
        assert((s1, focused) == field_interact(s0, self.window_focused, id, input@));
        let ghost v0 = value@;
        let mut result: (bool, Option<String>) = (false, None);
        if focused {
            match self.ui.key_entered() {
                Some(Key::Return) | Some(Key::Escape) => self.ui.blur(),
                _ => {},
            }
            let (changed, copy) = self.handle_text_events(value, clipboard);
            if changed {
                *value = without_controls(value.as_str(), false);
            }
            result = (changed, copy);
            proof {
                let e = field_edit(s1, v0, clipboard@);
                assert(self.ui@ == e.0 && value@ == e.1 && changed == e.2);
            }
        }
        self.ui.handle_events(id);
        let ghost before = self.ui@;
        let size = [x + width - pos.x(), input.height()];
        self.advance_cursor(size);
        proof {
            lemma_advanced_state(before, self.theme.spacing.frame_pad, ipad, size@[0], size@[1], self.ui@);
            assert(label.spec_bytes() == encode_utf8(label@));
        }
        result
    }
    /// Handles the input of a text area labelled `label`, whose visible label measures
    /// `label_size`, over `value`, in a box `width` by `height` (see [`area_input`]);
    /// `clipboard` is what Ctrl+V pastes. While the window has input focus the area tries to
    /// take hover and focus; when focused it edits the value (see [`area_edit`]). The caller
    /// draws the text and then finishes the area with
    /// [`text_area_scroll`](Self::text_area_scroll).
    pub fn text_area(
        &mut self,
        label: &str,
        label_size: (i32, i32),
        width: u32,
        height: u32,
        value: &mut String,
        clipboard: &str,
    ) -> (r: TextArea)
        requires
            old(self).wf(),
            area_fits(
                old(self).ui@,
                old(self).window_focused,
                old(self).theme.spacing,
                visible_label(label@).len() > 0,
                label_size,
            ),
        ensures
            final(self).wf(),
            final(self).theme == old(self).theme,
            final(self).window_focused == old(self).window_focused,
            ({
                let s = old(self).ui@;
                let id = ElementId(id_hash(label.spec_bytes(), top_seed(s)));
                let has_label = visible_label(label@).len() > 0;
                let input = area_input(s, old(self).theme.spacing.item_pad, label_size, has_label, width, height);
                let (s1, focused) = field_interact(s, old(self).window_focused, id, input);
                let (s2, v, changed, copy) = if focused {
                    area_edit(s1, old(value)@, clipboard@)
                } else {
                    (s1, old(value)@, false, None)
                };
                &&& r.id == id
                &&& r.input@ == input
                &&& final(value)@ == v
                &&& r.changed == changed
                &&& match copy {
                    Some(c) => r.copy matches Some(t) && t@ == c,
                    None => r.copy is None,
                }
                &&& final(self).ui@ == s2
            }),
    {
        let id = self.ui.get_id(label);
        let visible = get_label(label);
        let has_label = visible.unicode_len() > 0;
        let pos = self.cursor_pos();
        let ipad = self.theme.spacing.item_pad;
        proof {
            pos.lemma_len();
            ipad.lemma_len();
        }
        let y = if has_label { pos.y() + label_size.1 + 2 * ipad.y() } else { pos.y() };
        let input = Rect::new(pos.x(), y, clamp_size(width), clamp_size(height));
        let focused = if self.focused() {
            self.ui.try_hover(id, &input);
            self.ui.try_focus(id)
        } else {
            false
        };
        let mut changed = false;
        let mut copy: Option<String> = None;
        if focused {
            match self.ui.key_entered() {
                Some(Key::Return) => {
                    proof {
                        reveal_strlit("\n");
                    }
                    value.append("\n");
                    assert(value@ =~= old(value)@.push('\n'));
                    changed = true;
                },
                Some(Key::Escape) => {
                    self.ui.blur();
                },
                _ => {
                    let (c, t) = self.handle_text_events(value, clipboard);
                    changed = c;
                    copy = t;
                },
            }
            if changed {
                *value = without_controls(value.as_str(), true);
            }
        }
        TextArea { id, input, changed, copy }
    }
    /// Finishes text area `area` (see [`text_area`](Self::text_area)) once its text is
    /// drawn: `text_height` is the height of the text drawn, measured again with the cursor
    /// after an edit, and `label_width` the width of its label. After an edit the area stores
    /// the scroll that shows the end of the text (see [`area_scroll_y`]). It handles Tab and
    /// click focus and scrolls as [`scroll`](Self::scroll) does for content as tall as the text
    /// with padding; the cursor moves past the label and the box with its scroll bars, which is
    /// returned.
    pub fn text_area_scroll(&mut self, area: &TextArea, label_width: i32, text_height: i32) -> (r: PixResult<Rect<i32>>)
        requires
            old(self).wf(),
            area_scroll_fits(
                old(self).ui@,
                old(self).theme.spacing,
                old(self).theme.spacing.scroll_size,
                area.id,
                area.input@,
                area.changed,
                label_width,
                text_height,
            ),
        ensures
            final(self).wf(),
            final(self).theme == old(self).theme,
            final(self).window_focused == old(self).window_focused,
            r matches Ok(out) && exists|e1: Seq<(u64, ElementState)>, mid: UiView|
                #[trigger] area_finished(
                    old(self).ui@,
                    old(self).theme.spacing,
                    area.id,
                    area.input@,
                    area.changed,
                    label_width,
                    text_height,
                    e1,
                    mid,
                    out,
                    final(self).ui@,
                ),
    {
        let ghost s = self.ui@;
        let pos = self.cursor_pos();
        let ipad = self.theme.spacing.item_pad;
        proof {
            pos.lemma_len();
            ipad.lemma_len();
        }
        let th = text_height + 2 * ipad.y();
        if area.changed {
            let cur = self.ui.scroll(area.id);
            proof {
                cur.lemma_len();
            }
            let ny = if th < area.input.height() { 0 } else { th - area.input.height() };
            let v = Vector::new([cur.x(), ny]);
            self.ui.set_scroll(area.id, v);
            assert(area_scroll_set(s, area.id, self.ui@.elements, area_scroll_y(th as int, area.input@.3)));
        }
        let ghost s1 = self.ui@;
        self.ui.handle_events(area.id);
        let rect = match self.scroll(area.id, area.input, 0, th) {
            Ok(r) => r,
            Err(e) => return Err(e),
        };
        let ghost mid = self.ui@;
        proof {
            lemma_scrolled_keeps_layout(
                events_step(s1, area.id),
                self.theme.spacing.scroll_size,
                area.id,
                area.input@,
                0,
                th,
                mid,
                rect,
            );
        }
        let w = if rect.width() >= label_width { rect.width() } else { label_width };
        let size = [w, rect.y() + rect.height() - pos.y()];
        self.advance_cursor(size);
        proof {
            lemma_advanced_state(mid, self.theme.spacing.frame_pad, ipad, size@[0], size@[1], self.ui@);
            assert(area_finished(s, self.theme.spacing, area.id, area.input@, area.changed, label_width, text_height, s1.elements, mid, rect, self.ui@));
        }
        Ok(rect)
    }
}

/// The characters of `s` whose flag in `keep` is set, in order.
pub open spec fn kept_chars(s: Seq<char>, keep: Seq<bool>) -> Seq<char>
    decreases s.len(),
{
    if s.len() == 0 {
        s
    } else {
        let rest = kept_chars(s.drop_last(), keep.drop_last());
        if keep.last() { rest.push(s.last()) } else { rest }
    }
}

/// Returns `value` with only the characters `filter` accepts: each character is handed to
/// `filter` once, first to last, and kept, in order, when it returns `true`.
pub fn keep_chars<F: Fn(char) -> bool>(value: &str, filter: F) -> (r: String)
    requires
        forall|c: char| call_requires(filter, (c,)),
    ensures
        exists|keep: Seq<bool>|
            {
                &&& keep.len() == value@.len()
                &&& forall|i: int| 0 <= i < keep.len() ==> call_ensures(filter, (value@[i],), #[trigger] keep[i])
                &&& r@ == kept_chars(value@, keep)
            },
{
    let n = value.unicode_len();
    let mut r = String::new();
    let ghost mut keep: Seq<bool> = Seq::empty();
    let mut i: usize = 0;
    while i < n
        invariant
            n == value@.len(),
            i <= n,
            forall|c: char| call_requires(filter, (c,)),
            keep.len() == i,
            forall|j: int| 0 <= j < i ==> call_ensures(filter, (value@[j],), #[trigger] keep[j]),
            r@ == kept_chars(value@.take(i as int), keep),
        decreases n - i,
    {
        let c = value.get_char(i);
        let b = filter(c);
        proof {
            assert(value@.take(i + 1).drop_last() =~= value@.take(i as int));
            assert(keep.push(b).drop_last() =~= keep);
            keep = keep.push(b);
        }
        if b {
            let one = value.substring_char(i, i + 1);
            assert(one@ =~= seq![c]);
            r.append(one);
        }
        i += 1;
    }
    assert(value@.take(n as int) =~= value@);
    r
}

} // verus!
