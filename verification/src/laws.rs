//! Laws that relate the library's operations to one another.

use crate::color::Color;
use crate::elementwise::{elementwise_add, elementwise_add_req, elementwise_sub};
use crate::event::{Event, Key, KeyMod, Mouse};
use crate::gui::drag::{dragged, int_text, lemma_digits_of, mouse_dx, parsed_int, MOD_ALT_BITS, MOD_SHIFT_BITS};
use crate::gui::field::{edited, is_whitespace_char, last_space_before};
use crate::gui::scroll::{axis_before_bar, scrollbar_new_value, scrollbar_spec, ScrollDirection};
use crate::gui::select::{item_top, key_selection, list_content_y, list_layout, snapped_scroll, ListInputs};
use crate::gui::selection::{after_key, key_underflows, ListSelectionView};
use crate::gui::state::{events_step, try_hover_step, ElementId, UiView};
use crate::gui::tabs::tabs_run;
use crate::gui::theme::Spacing;
use crate::gui::tooltip::tooltip_placement;
use crate::gui::widgets::{clamp_int, slider_value_step, Direction};
use crate::image::{channel, color_at, format_channels, PixelFormat};
use crate::input::{next_input, translated, InputView, RawEvent};
use vstd::prelude::*;
use vstd::std_specs::ops::{AddSpec, SubSpec};

verus! {

/// Adding a vector and then subtracting it gives back the vector started from.
pub proof fn law_add_then_sub(a: Seq<i32>, b: Seq<i32>)
    requires
        a.len() == b.len(),
        elementwise_add_req(a, b),
    ensures
        elementwise_sub(elementwise_add(a, b), b) == a,
{
    let s = elementwise_add(a, b);
    assert forall|j: int| 0 <= j < a.len() implies #[trigger] elementwise_sub(s, b)[j] == a[j] by {
        assert(a[j].add_req(b[j]));
    }
    assert(elementwise_sub(s, b) =~= a);
}

/// Reading a pixel after writing it gives the color written: all four channels in RGBA, and
/// red, green and blue with full alpha in RGB.
pub proof fn law_set_then_get_pixel(before: Seq<u8>, after: Seq<u8>, o: int, format: PixelFormat, c: Color)
    requires
        0 <= o,
        o + format_channels(format) <= before.len(),
        after.len() == before.len(),
        forall|k: int|
            0 <= k < before.len() ==> #[trigger] after[k] == if o <= k < o + format_channels(format) {
                channel(c, k - o)
            } else {
                before[k]
            },
    ensures
        color_at(after, o, format) == match format {
            PixelFormat::Rgba => c@,
            PixelFormat::Rgb => (c@.0, c@.1, c@.2, 255u8),
        },
{
    assert(after[o] == channel(c, 0));
    assert(after[o + 1] == channel(c, 1));
    assert(after[o + 2] == channel(c, 2));
    if format == PixelFormat::Rgba {
        assert(after[o + 3] == channel(c, 3));
    }
}

/// A mouse button press reports the position of the last cursor motion.
pub proof fn law_press_at_last_motion(i: InputView, window_id: u32, x: i32, y: i32, button: Mouse)
    ensures
        translated(next_input(i, RawEvent::CursorMoved { x, y }), window_id, RawEvent::MouseInput { button, pressed: true })
            == seq![Event::MouseDown { button, x, y }],
{
}

/// An element keeps the hover it took: another element cannot take it the same frame.
pub proof fn law_hover_is_kept(s: UiView, a: ElementId, b: ElementId, r: (i32, i32, i32, i32))
    requires
        s.hovered == Some(a),
        a != b,
    ensures
        try_hover_step(s, b, r) == s,
        !try_hover_step(s, b, r).is_hovered(b),
{
}

/// Shift+Tab on a focused element gives the focus back to the element before it.
pub proof fn law_shift_tab_returns_focus(s: UiView, id: ElementId)
    requires
        s.is_focused(id),
        s.keys.entered == Some(Key::Tab),
        s.keys.keymod & 0x0003u16 != 0,
        !s.clicked(id),
    ensures
        events_step(s, id).focused == s.last_focusable,
        events_step(s, id).keys.entered is None,
{
}

/// A slider's value always ends within `0..=max`.
pub proof fn law_slider_in_range(
    value: int,
    max: int,
    focused: bool,
    active: bool,
    key: Option<Key>,
    r: (i32, i32, i32, i32),
    mouse: (int, int),
    dir: Direction,
)
    requires
        max > 0,
        active ==> match dir {
            Direction::Vertical => r.3 > 0,
            Direction::Horizontal => r.2 > 0,
        },
    ensures
        0 <= slider_value_step(value, max, focused, active, key, r, mouse, dir).0 <= max,
{
    if active {
        let len = match dir {
            Direction::Vertical => r.3 as int,
            Direction::Horizontal => r.2 as int,
        };
        let d = match dir {
            Direction::Vertical => clamp_int(mouse.1 - r.1, 0, len),
            Direction::Horizontal => clamp_int(mouse.0 - r.0, 0, len),
        };
        assert(0 <= d * max <= len * max) by (nonlinear_arith)
            requires 0 <= d <= len, max > 0;
        assert(0 <= (d * max) / len <= max) by (nonlinear_arith)
            requires 0 <= d * max <= len * max, len > 0;
    }
}

/// A scroll bar's value always ends within `0..=max`.
pub proof fn law_scrollbar_in_range(
    s: UiView,
    owner: ElementId,
    r: (i32, i32, i32, i32),
    max: int,
    value: int,
    dir: ScrollDirection,
)
    requires
        max > 0,
    ensures
        0 <= scrollbar_spec(s, owner, r, max, value, dir).1 <= max,
{
}

/// Cutting a text and then pasting what was cut gives the text back.
pub proof fn law_cut_then_paste(v: Seq<char>, alt: bool)
    ensures
        ({
            let cut = edited(v, Some(Key::X), true, alt, None, Seq::empty());
            &&& cut.2 == Some(v)
            &&& edited(cut.0, Some(Key::V), true, alt, None, v) == (v, true, None::<Seq<char>>)
        }),
{
    let cut = edited(v, Some(Key::X), true, alt, None, Seq::empty());
    assert(cut.0 == Seq::<char>::empty());
    assert(cut.2 == Some(v));
    assert(Seq::<char>::empty() + v =~= v);
    let pasted = edited(cut.0, Some(Key::V), true, alt, None, v);
    assert(pasted.0 == cut.0 + v);
    assert(pasted.1);
    assert(pasted.2 is None);
}

/// An arrow key always selects an item of the list.
pub proof fn law_key_selection_in_range(selected: int, key: Key, len: int)
    requires
        0 <= selected < len,
    ensures
        key_selection(selected, key, len) matches Some(v) ==> 0 <= v < len,
{
}

/// A key keeps a list's selected item among its items.
pub proof fn law_list_selection_in_range(l: ListSelectionView, key: Key, pressed: bool)
    requires
        l.selected + l.scroll < l.items.len(),
        l.items.len() <= usize::MAX,
        !key_underflows(l, key, pressed),
    ensures
        after_key(l, key, pressed).selected + after_key(l, key, pressed).scroll < l.items.len(),
        after_key(l, key, pressed).items == l.items,
{
}

/// Setting a modifier makes it held, and clearing it makes it not held.
pub proof fn law_keymod_set(held: u16, bits: u16)
    requires
        bits != 0,
    ensures
        (held | bits) & bits == bits,
        (held & !bits) & bits == 0,
{
    assert((held | bits) & bits == bits) by (bit_vector);
    assert((held & !bits) & bits == 0) by (bit_vector);
}

/// A tab bar only ever selects one of its tabs: the tab it reports clicked among the first `n`
/// is one of them.
pub proof fn law_tab_selection_in_range(
    s: UiView,
    window_focused: bool,
    spacing: Spacing,
    labels: Seq<Seq<u8>>,
    sizes: Seq<(i32, i32)>,
    n: nat,
)
    ensures
        tabs_run(s, window_focused, spacing, labels, sizes, n).1 matches Some(k) ==> k < n,
    decreases n,
{
    if n > 0 {
        law_tab_selection_in_range(s, window_focused, spacing, labels, sizes, (n - 1) as nat);
    }
}

/// A tooltip stays inside the window: with padding that is not negative, its right edge is
/// never past the window's right edge, nor its bottom edge past the window's bottom edge.
pub proof fn law_tooltip_inside_window(r: (i32, i32, i32, i32), win_w: int, win_h: int, pad: Seq<i32>, mouse: Seq<i32>)
    requires
        pad.len() == 2,
        pad[0] >= 0,
        pad[1] >= 0,
    ensures
        ({
            let p = tooltip_placement(r, win_w, win_h, pad, mouse);
            &&& p.0 + p.2 <= win_w
            &&& p.1 + p.3 <= win_h
        }),
{
}

/// A drag box keeps its value within `min..=max`: whatever the drag, the value it moves to lies
/// in range.
pub proof fn law_drag_in_range(s: UiView, v0: int, speed: i32, min: i32, max: i32)
    requires
        min <= max,
    ensures
        min <= dragged(s, v0, speed, min, max) <= max,
{
}

/// The decimal text of an `i32`, parsed back, gives the value.
pub proof fn law_int_text_parses_back(v: i32)
    ensures
        parsed_int(int_text(v as int)) == Some(v),
{
    if v < 0 {
        let n = (-v) as nat;
        lemma_digits_of(n);
        let t = int_text(v as int);
        assert(t.drop_first() =~= crate::gui::drag::digits_of(n));
        assert(t[0] == '-');
    } else {
        let n = v as nat;
        lemma_digits_of(n);
        let t = int_text(v as int);
        assert(crate::gui::drag::is_digit(t[0]));
    }
}

/// With Shift held and Alt not, a drag moves the start by `speed` times ten times the mouse's
/// horizontal move, within `min..=max` (when ten times the move fits `i32` and `speed` is not
/// zero).
pub proof fn law_shift_drag_moves_ten_times(s: UiView, v0: int, speed: i32, min: i32, max: i32)
    requires
        s.keys.keymod & MOD_SHIFT_BITS != 0,
        s.keys.keymod & MOD_ALT_BITS == 0,
        i32::MIN <= 10 * mouse_dx(s) <= i32::MAX,
        speed != 0,
    ensures
        dragged(s, v0, speed, min, max) == clamp_int(v0 + speed * (10 * mouse_dx(s)), min as int, max as int),
{
    let dx = mouse_dx(s);
    assert(dx != 0 ==> speed * (10 * dx) != 0) by (nonlinear_arith)
        requires speed != 0;
    assert(dx == 0 ==> speed * (10 * dx) == 0) by (nonlinear_arith);
}

/// With neither Shift nor Alt held, a drag moves the start by `speed` times the mouse's
/// horizontal move, within `min..=max` (when `speed` is not zero).
pub proof fn law_plain_drag_moves_by_speed(s: UiView, v0: int, speed: i32, min: i32, max: i32)
    requires
        s.keys.keymod & MOD_SHIFT_BITS == 0,
        s.keys.keymod & MOD_ALT_BITS == 0,
        speed != 0,
    ensures
        dragged(s, v0, speed, min, max) == clamp_int(v0 + speed * mouse_dx(s), min as int, max as int),
{
    let dx = mouse_dx(s);
    assert(dx != 0 ==> speed * dx != 0) by (nonlinear_arith)
        requires speed != 0;
    assert(dx == 0 ==> speed * dx == 0) by (nonlinear_arith);
}

/// With Alt held, a drag moves the start by `speed` times a tenth of the mouse's horizontal
/// move, rounded toward zero; a move too small for that still moves it by one, its way.
pub proof fn law_alt_drag_moves_a_tenth(s: UiView, v0: int, speed: i32, min: i32, max: i32)
    requires
        s.keys.keymod & MOD_ALT_BITS != 0,
        speed != 0,
    ensures
        ({
            let dx = mouse_dx(s);
            let tenth = if dx >= 0 { dx / 10 } else { -((-dx) / 10) };
            let d = if tenth == 0 { if dx > 0 { 1int } else if dx < 0 { -1int } else { 0int } } else { speed * tenth };
            dragged(s, v0, speed, min, max) == clamp_int(v0 + d, min as int, max as int)
        }),
{
    let dx = mouse_dx(s);
    let tenth = if dx >= 0 { dx / 10 } else { -((-dx) / 10) };
    assert(tenth != 0 ==> speed * tenth != 0) by (nonlinear_arith)
        requires speed != 0;
    assert(tenth == 0 ==> speed * tenth == 0) by (nonlinear_arith);
}

/// A focused slider, not being dragged, moves by 2 along its direction with the arrow keys:
/// Down on a vertical slider and Right on a horizontal one raise the clamped value by 2, up to
/// `max`; Up and Left lower it by 2, down to 0; each reports a change. An arrow across the
/// slider's direction changes nothing.
pub proof fn law_slider_arrows_move_by_two(value: int, max: int, r: (i32, i32, i32, i32), mouse: (int, int))
    requires
        max > 0,
    ensures
        ({
            let v0 = if value < 0 { 0 } else if value > max { max } else { value };
            let up = if v0 + 2 > max { max } else { v0 + 2 };
            let down = if v0 - 2 < 0 { 0 } else { v0 - 2 };
            &&& slider_value_step(value, max, true, false, Some(Key::Down), r, mouse, Direction::Vertical) == (up, true)
            &&& slider_value_step(value, max, true, false, Some(Key::Up), r, mouse, Direction::Vertical) == (down, true)
            &&& slider_value_step(value, max, true, false, Some(Key::Right), r, mouse, Direction::Horizontal) == (up, true)
            &&& slider_value_step(value, max, true, false, Some(Key::Left), r, mouse, Direction::Horizontal) == (down, true)
            &&& slider_value_step(value, max, true, false, Some(Key::Left), r, mouse, Direction::Vertical) == (v0, false)
            &&& slider_value_step(value, max, true, false, Some(Key::Right), r, mouse, Direction::Vertical) == (v0, false)
            &&& slider_value_step(value, max, true, false, Some(Key::Up), r, mouse, Direction::Horizontal) == (v0, false)
            &&& slider_value_step(value, max, true, false, Some(Key::Down), r, mouse, Direction::Horizontal) == (v0, false)
            &&& slider_value_step(value, max, false, false, Some(Key::Down), r, mouse, Direction::Vertical) == (v0, false)
        }),
{
}

/// A focused scroll bar, neither hovered nor dragged, moves by 3 along its direction with the
/// arrow keys: Down on a vertical bar and Right on a horizontal one raise the value by 3, up to
/// `max`; Up and Left lower it by 3, down to 0. An arrow across the bar changes nothing.
pub proof fn law_scrollbar_arrows_move_by_three(v0: int, max: int, wheel: int, r: (i32, i32, i32, i32), mouse: (int, int))
    requires
        0 <= v0 <= max,
    ensures
        ({
            let up = if v0 + 3 > max { max } else { v0 + 3 };
            let down = if v0 - 3 < 0 { 0 } else { v0 - 3 };
            &&& scrollbar_new_value(v0, max, Some(Key::Down), true, false, wheel, false, r, mouse, ScrollDirection::Vertical) == up
            &&& scrollbar_new_value(v0, max, Some(Key::Up), true, false, wheel, false, r, mouse, ScrollDirection::Vertical) == down
            &&& scrollbar_new_value(v0, max, Some(Key::Right), true, false, wheel, false, r, mouse, ScrollDirection::Horizontal) == up
            &&& scrollbar_new_value(v0, max, Some(Key::Left), true, false, wheel, false, r, mouse, ScrollDirection::Horizontal) == down
            &&& scrollbar_new_value(v0, max, Some(Key::Left), true, false, wheel, false, r, mouse, ScrollDirection::Vertical) == v0
            &&& scrollbar_new_value(v0, max, Some(Key::Up), true, false, wheel, false, r, mouse, ScrollDirection::Horizontal) == v0
            &&& scrollbar_new_value(v0, max, Some(Key::Right), false, false, wheel, false, r, mouse, ScrollDirection::Horizontal) == v0
        }),
{
}

/// A scroll bar hovered, and neither focused nor dragged, moves by 3 per wheel notch along it.
pub proof fn law_scrollbar_wheel_moves_by_three(v0: int, max: int, wheel: int, key: Option<Key>, r: (i32, i32, i32, i32), mouse: (int, int), dir: ScrollDirection)
    ensures
        scrollbar_new_value(v0, max, key, false, true, wheel, false, r, mouse, dir) == v0 + 3 * wheel,
{
}

/// A wheel turn is reported as one wheel event with the same horizontal and vertical turns.
pub proof fn law_wheel_keeps_its_axes(i: InputView, window_id: u32, x: i32, y: i32)
    ensures
        translated(i, window_id, RawEvent::MouseWheel { x, y }).len() == 1,
        translated(i, window_id, RawEvent::MouseWheel { x, y })[0] matches Event::MouseWheel { x: h, y: v } && h == x && v == y,
{
}

/// A window move reports the new position, and a resize the new width and height, in order.
pub proof fn law_window_moves_and_resizes_keep_their_axes(i: InputView, window_id: u32, x: i32, y: i32, w: u32, h: u32)
    requires
        w <= i32::MAX,
        h <= i32::MAX,
    ensures
        translated(i, window_id, RawEvent::Moved { x, y })
            == seq![Event::Window { window_id, win_event: crate::event::WindowEvent::Moved(x, y) }],
        translated(i, window_id, RawEvent::Resized { width: w, height: h }) == seq![
            Event::Window { window_id, win_event: crate::event::WindowEvent::Resized(w as i32, h as i32) },
            Event::Window { window_id, win_event: crate::event::WindowEvent::SizeChanged(w as i32, h as i32) },
        ],
{
}

/// A cursor motion reports the new position and the move from the last one.
pub proof fn law_cursor_motion_reports_the_move(i: InputView, window_id: u32, x: i32, y: i32)
    requires
        i32::MIN <= x - i.cursor.0 <= i32::MAX,
        i32::MIN <= y - i.cursor.1 <= i32::MAX,
    ensures
        translated(i, window_id, RawEvent::CursorMoved { x, y }) == seq![
            Event::MouseMotion { x, y, xrel: (x - i.cursor.0) as i32, yrel: (y - i.cursor.1) as i32 },
        ],
        translated(i, window_id, RawEvent::CursorMoved { x, y })[0] matches Event::MouseMotion { x: a, y: b, xrel, yrel }
            && a == x && b == y && xrel == x - i.cursor.0 && yrel == y - i.cursor.1,
{
}

/// The white space characters of Unicode, which `char::is_whitespace` recognizes: tab, line
/// feed, vertical tab, form feed, carriage return, space, next line, no-break space, ogham
/// space mark, en quad to hair space, line and paragraph separators, narrow no-break space,
/// medium mathematical space and ideographic space.
pub open spec fn unicode_white_space(c: char) -> bool {
    ||| c == '\t'
    ||| c == '\n'
    ||| c == '\u{0b}'
    ||| c == '\u{0c}'
    ||| c == '\r'
    ||| c == ' '
    ||| c == '\u{85}'
    ||| c == '\u{a0}'
    ||| c == '\u{1680}'
    ||| ('\u{2000}' <= c && c <= '\u{200a}')
    ||| c == '\u{2028}'
    ||| c == '\u{2029}'
    ||| c == '\u{202f}'
    ||| c == '\u{205f}'
    ||| c == '\u{3000}'
}

/// A field's white space is Unicode's.
pub proof fn law_field_white_space_is_unicode(c: char)
    ensures
        is_whitespace_char(c) == unicode_white_space(c),
{
}

proof fn lemma_last_space_is_the_boundary(v: Seq<char>, b: int, end: int)
    requires
        0 <= b < end <= v.len(),
        unicode_white_space(v[b]),
        forall|k: int| b < k < v.len() ==> !unicode_white_space(#[trigger] v[k]),
    ensures
        last_space_before(v, end) == Some(b),
    decreases end,
{
    law_field_white_space_is_unicode(v[end - 1]);
    if end - 1 > b {
        lemma_last_space_is_the_boundary(v, b, end - 1);
    }
}

proof fn lemma_no_space_no_boundary(v: Seq<char>, end: int)
    requires
        0 <= end <= v.len(),
        forall|k: int| 0 <= k < v.len() ==> !unicode_white_space(#[trigger] v[k]),
    ensures
        last_space_before(v, end) is None,
    decreases end,
{
    if end > 0 {
        law_field_white_space_is_unicode(v[end - 1]);
        lemma_no_space_no_boundary(v, end - 1);
    }
}

/// Alt+Backspace deletes the last word: a text made of `before`, one white space character
/// (any of Unicode's, the line feed among them) and a word without white space loses the word
/// and keeps the white space before it.
pub proof fn law_alt_backspace_deletes_the_last_word(before: Seq<char>, sp: char, word: Seq<char>, clipboard: Seq<char>)
    requires
        unicode_white_space(sp),
        word.len() > 0,
        forall|k: int| 0 <= k < word.len() ==> !unicode_white_space(#[trigger] word[k]),
    ensures
        edited(before.push(sp) + word, Some(Key::Backspace), false, true, None, clipboard) == (before.push(sp), true, None::<Seq<char>>),
{
    let v = before.push(sp) + word;
    let b = before.len() as int;
    assert(v[b] == sp);
    assert forall|k: int| b < k < v.len() implies !unicode_white_space(#[trigger] v[k]) by {
        assert(v[k] == word[k - b - 1]);
    }
    assert(v.last() == word.last());
    law_field_white_space_is_unicode(v.last());
    lemma_last_space_is_the_boundary(v, b, v.len() as int);
    assert(v.subrange(0, b + 1) =~= before.push(sp));
}

/// Alt+Backspace on a single word without white space deletes all of it.
pub proof fn law_alt_backspace_deletes_a_lone_word(word: Seq<char>, clipboard: Seq<char>)
    requires
        word.len() > 0,
        forall|k: int| 0 <= k < word.len() ==> !unicode_white_space(#[trigger] word[k]),
    ensures
        edited(word, Some(Key::Backspace), false, true, None, clipboard) == (Seq::<char>::empty(), true, None::<Seq<char>>),
{
    law_field_white_space_is_unicode(word.last());
    lemma_no_space_no_boundary(word, word.len() as int);
}

/// In a list of `len` items, Down selects the next item, staying on the last, and Up the
/// previous one, staying on the first; other keys select nothing new.
pub proof fn law_arrows_select_the_neighbouring_item(selected: int, key: Key, len: int)
    requires
        0 <= selected < len,
    ensures
        key_selection(selected, Key::Down, len) == Some(if selected == len - 1 { selected } else { selected + 1 }),
        key_selection(selected, Key::Up, len) == Some(if selected == 0 { 0 } else { selected - 1 }),
        key != Key::Up && key != Key::Down ==> key_selection(selected, key, len) is None,
{
}

/// A pressed Down moves a list's selected item (its row plus the scroll) to the next item,
/// unless on the last, and a pressed Up to the previous one, unless on the first; a release
/// moves nothing.
pub proof fn law_list_arrows_move_one_item(l: ListSelectionView, pressed: bool)
    requires
        l.selected + l.scroll < l.items.len(),
        l.items.len() <= usize::MAX,
        !key_underflows(l, Key::Down, true),
        !key_underflows(l, Key::Up, true),
    ensures
        ({
            let at = l.selected + l.scroll;
            let len = l.items.len() as int;
            let down = after_key(l, Key::Down, true);
            let up = after_key(l, Key::Up, true);
            &&& down.selected + down.scroll == (if at < len - 1 { at + 1 } else { at })
            &&& up.selected + up.scroll == (if at > 0 { at - 1 } else { at })
            &&& after_key(l, Key::Down, false) == l
            &&& after_key(l, Key::Up, false) == l
        }),
{
}

/// Editing keys: Backspace drops the last character, all of it with Ctrl; Ctrl+X empties the
/// text and copies it; Ctrl+C copies it and leaves it; Ctrl+V appends the clipboard; typed
/// text is appended after the key's effect; Backspace on an empty text changes nothing.
pub proof fn law_editing_keys(v: Seq<char>, clipboard: Seq<char>, typed: Seq<char>)
    ensures
        v.len() > 0 ==> edited(v, Some(Key::Backspace), false, false, None, clipboard) == (v.take(v.len() - 1), true, None::<Seq<char>>),
        v.len() > 0 ==> edited(v, Some(Key::Backspace), true, false, None, clipboard) == (Seq::<char>::empty(), true, None::<Seq<char>>),
        edited(Seq::<char>::empty(), Some(Key::Backspace), false, false, None, clipboard) == (Seq::<char>::empty(), false, None::<Seq<char>>),
        edited(v, Some(Key::X), true, false, None, clipboard) == (Seq::<char>::empty(), true, Some(v)),
        edited(v, Some(Key::C), true, false, None, clipboard) == (v, false, Some(v)),
        edited(v, Some(Key::V), true, false, None, clipboard) == (v + clipboard, true, None::<Seq<char>>),
        edited(v, None, false, false, Some(typed), clipboard) == (v + typed, true, None::<Seq<char>>),
        edited(v, Some(Key::C), false, false, None, clipboard) == (v, false, None::<Seq<char>>),
{
    assert(v.drop_last() =~= v.take(v.len() - 1));
}

/// While an overflowing area is hovered and not focused, the wheel scrolls it 3 pixels per
/// notch: a vertical turn up (positive) scrolls toward the top, a horizontal turn right
/// scrolls right, within `0..=max`.
pub proof fn law_wheel_scrolls_the_area(s: UiView, id: ElementId, max: int, cur: int)
    requires
        s.is_hovered(id),
        !s.is_focused(id),
    ensures
        axis_before_bar(s, id, max, cur, ScrollDirection::Vertical) == clamp_int(cur - 3 * s.mouse.yrel, 0, max),
        axis_before_bar(s, id, max, cur, ScrollDirection::Horizontal) == clamp_int(cur + 3 * s.mouse.xrel, 0, max),
{
}

/// A dragged slider takes the value at the mouse: 0 at or before its start, `max` at or past
/// its end, along its direction.
pub proof fn law_slider_mouse_ends(value: int, max: int, focused: bool, key: Option<Key>, r: (i32, i32, i32, i32), mouse: (int, int))
    requires
        max > 0,
        r.2 > 0,
        r.3 > 0,
    ensures
        mouse.1 <= r.1 ==> slider_value_step(value, max, focused, true, key, r, mouse, Direction::Vertical).0 == 0,
        mouse.1 >= r.1 + r.3 ==> slider_value_step(value, max, focused, true, key, r, mouse, Direction::Vertical).0 == max,
        mouse.0 <= r.0 ==> slider_value_step(value, max, focused, true, key, r, mouse, Direction::Horizontal).0 == 0,
        mouse.0 >= r.0 + r.2 ==> slider_value_step(value, max, focused, true, key, r, mouse, Direction::Horizontal).0 == max,
{
    assert(0int * max == 0 && 0int / (r.3 as int) == 0 && 0int / (r.2 as int) == 0) by (nonlinear_arith)
        requires r.3 > 0, r.2 > 0;
    assert((r.3 as int * max) / (r.3 as int) == max) by (nonlinear_arith)
        requires r.3 > 0;
    assert((r.2 as int * max) / (r.2 as int) == max) by (nonlinear_arith)
        requires r.2 > 0;
}

/// Window focus, visibility and closing are reported as such.
pub proof fn law_window_state_events(i: InputView, window_id: u32)
    ensures
        translated(i, window_id, RawEvent::Focused(true)) == seq![Event::Window { window_id, win_event: crate::event::WindowEvent::FocusGained }],
        translated(i, window_id, RawEvent::Focused(false)) == seq![Event::Window { window_id, win_event: crate::event::WindowEvent::FocusLost }],
        translated(i, window_id, RawEvent::Occluded(true)) == seq![Event::Window { window_id, win_event: crate::event::WindowEvent::Hidden }],
        translated(i, window_id, RawEvent::Occluded(false)) == seq![Event::Window { window_id, win_event: crate::event::WindowEvent::Shown }],
        translated(i, window_id, RawEvent::CloseRequested) == seq![Event::Window { window_id, win_event: crate::event::WindowEvent::Close }],
        translated(i, window_id, RawEvent::CursorEntered) == seq![Event::Window { window_id, win_event: crate::event::WindowEvent::Enter }],
        translated(i, window_id, RawEvent::CursorLeft) == seq![Event::Window { window_id, win_event: crate::event::WindowEvent::Leave }],
{
}

/// A mouse button going down or up is reported at the last cursor position.
pub proof fn law_buttons_at_the_cursor(i: InputView, window_id: u32, button: Mouse)
    ensures
        translated(i, window_id, RawEvent::MouseInput { button, pressed: true }) == seq![Event::MouseDown { button, x: i.cursor.0, y: i.cursor.1 }],
        translated(i, window_id, RawEvent::MouseInput { button, pressed: false }) == seq![Event::MouseUp { button, x: i.cursor.0, y: i.cursor.1 }],
{
}

/// Snapping the scroll brings the selected line into view: a line above the window becomes
/// its top; a line below it ends at the window's bottom, less the font size and item padding;
/// a line in view leaves the scroll.
pub proof fn law_snap_brings_the_selection_into_view(scroll_y: int, sel_y: int, line_height: int, height: int, font_size: int, ipad_y: int)
    ensures
        ({
            let r = snapped_scroll(scroll_y, sel_y, line_height, height, font_size, ipad_y);
            &&& sel_y < scroll_y ==> r == sel_y
            &&& sel_y >= scroll_y && sel_y + line_height > scroll_y + height ==> r + (height - font_size - ipad_y) == sel_y + line_height
            &&& sel_y >= scroll_y && sel_y + line_height <= scroll_y + height ==> r == scroll_y
        }),
{
}

/// A select list scrolled down by `scroll_y` shows the items from the number of whole lines
/// scrolled, `displayed` of them and one more (as many as there are), each a line below the
/// one before, the first item at the content's top less the scroll.
pub proof fn law_list_shows_the_scrolled_items(inp: ListInputs, scroll_y: i32, i: int)
    requires
        scroll_y >= 0,
        inp.line_height > 0,
        0 <= inp.displayed,
        0 < inp.len,
    ensures
        ({
            let l = list_layout(inp, scroll_y as int);
            let first = (scroll_y as int) / inp.line_height;
            &&& l.first == first
            &&& l.end == (if first >= inp.len { first } else if first + inp.displayed + 1 > inp.len { inp.len } else { first + inp.displayed + 1 })
            &&& item_top(l, i) == list_content_y(inp) - scroll_y + i * inp.line_height
        }),
{
    let lh = inp.line_height;
    let q = (scroll_y as int) / lh;
    assert(0 <= q <= scroll_y) by (nonlinear_arith)
        requires scroll_y >= 0, lh > 0, q == (scroll_y as int) / lh;
    assert((q as usize) as int == q);
    assert((i - q) * lh == i * lh - q * lh) by (nonlinear_arith);
}

} // verus!
