//! Drag boxes and value sliders over integers: a box showing a value within `min..=max` that
//! the mouse drags or sets, and that Ctrl turns into a text field to type the value in.

use crate::arith::trunc_div;
use crate::engine::PixState;
use crate::event::Key;
use crate::gui::field::{field_done, field_fits};
use crate::gui::keys::opt_text;
use crate::gui::layout::{advance_fits, advance_state, lemma_advanced_state};
use crate::gui::state::{
    after_pop, element_set, events_step, ElementField, focus_step, get_label, id_hash, offset_pos, top_seed, try_hover_step,
    visible_label, ElementId, UiView,
};
use crate::gui::theme::Spacing;
use crate::gui::widgets::clamp_int;
use crate::ops::{clamp_size, clamp_size_spec};
use crate::shape::{PointI2, Rect};
use vstd::prelude::*;
use vstd::string::StringSliceAdditionalSpecFns;

verus! {

/// The character of the decimal digit `d`.
pub open spec fn digit_char(d: int) -> char {
    if d == 0 { '0' } else if d == 1 { '1' } else if d == 2 { '2' } else if d == 3 { '3' }
    else if d == 4 { '4' } else if d == 5 { '5' } else if d == 6 { '6' } else if d == 7 { '7' }
    else if d == 8 { '8' } else { '9' }
}

/// The decimal digits of `n`, most significant first, without leading zeros.
pub open spec fn digits_of(n: nat) -> Seq<char>
    decreases n,
{
    if n < 10 {
        seq![digit_char(n as int)]
    } else {
        digits_of(n / 10).push(digit_char((n % 10) as int))
    }
}

/// The decimal text of `v`: its digits, after a `-` when it is negative.
pub open spec fn int_text(v: int) -> Seq<char> {
    if v < 0 {
        seq!['-'] + digits_of((-v) as nat)
    } else {
        digits_of(v as nat)
    }
}

/// Whether `c` is a decimal digit.
pub open spec fn is_digit(c: char) -> bool {
    '0' <= c && c <= '9'
}

/// The value of the decimal digit `c`.
pub open spec fn digit_value(c: char) -> int {
    (c as int) - ('0' as int)
}

/// The value the decimal digits `s` spell, most significant first.
pub open spec fn digits_value(s: Seq<char>) -> int
    decreases s.len(),
{
    if s.len() == 0 {
        0
    } else {
        digits_value(s.drop_last()) * 10 + digit_value(s.last())
    }
}

/// The value a text spells as an optional `+` or `-` sign followed by one or more decimal
/// digits and nothing else, or nothing.
pub open spec fn signed_value(text: Seq<char>) -> Option<int> {
    let signed = text.len() > 0 && (text[0] == '+' || text[0] == '-');
    let body = if signed { text.drop_first() } else { text };
    if body.len() > 0 && forall|i: int| 0 <= i < body.len() ==> is_digit(#[trigger] body[i]) {
        Some(if signed && text[0] == '-' { -digits_value(body) } else { digits_value(body) })
    } else {
        None
    }
}

/// What `str::parse::<i32>` makes of a text: the value it spells, when that fits `i32`.
pub open spec fn parsed_int(text: Seq<char>) -> Option<i32> {
    match signed_value(text) {
        Some(v) if i32::MIN <= v <= i32::MAX => Some(v as i32),
        _ => None,
    }
}

/// The digits of `n` are decimal digits, at least one, and spell `n`.
pub proof fn lemma_digits_of(n: nat)
    ensures
        digits_of(n).len() > 0,
        forall|i: int| 0 <= i < digits_of(n).len() ==> is_digit(#[trigger] digits_of(n)[i]),
        digits_value(digits_of(n)) == n,
    decreases n,
{
    let d = n % 10;
    assert(is_digit(digit_char(d as int)) && digit_value(digit_char(d as int)) == d);
    if n >= 10 {
        lemma_digits_of(n / 10);
        let s = digits_of(n);
        assert(s.drop_last() =~= digits_of(n / 10));
        assert(s.last() == digit_char(d as int));
        assert(digits_value(s) == digits_value(digits_of(n / 10)) * 10 + digit_value(digit_char(d as int)));
        assert(n == (n / 10) * 10 + d);
    } else {
        let s = digits_of(n);
        assert(s =~= seq![digit_char(n as int)]);
        assert(s.drop_last() =~= Seq::<char>::empty());
        assert(digits_value(s.drop_last()) == 0);
        assert(d == n);
        assert(digits_value(s) == digits_value(s.drop_last()) * 10 + digit_value(s.last()));
    }
}

/// `i32::to_string`, which formats the value in decimal: its digits without leading zeros,
/// after a `-` when it is negative, as [`int_text`] spells them.
#[verifier::external_body]
fn int_to_text(v: i32) -> (s: String)
    ensures
        s@ == int_text(v as int),
{
    v.to_string()
}

/// `str::parse::<i32>`, which its documentation describes as `i32::from_str_radix` with radix
/// 10: an optional `+` or `-` sign followed by decimal digits only, and an error for anything
/// else or for a value outside `i32`, as [`parsed_int`] states.
#[verifier::external_body]
fn parse_int(text: &str) -> (r: Option<i32>)
    ensures
        r == parsed_int(text@),
{
    text.parse().ok()
}

/// The modifier bits of either control key.
pub const MOD_CTRL_BITS: u16 = 0x00c0;

/// The modifier bits of either alt key.
pub const MOD_ALT_BITS: u16 = 0x0300;

/// The modifier bits of either shift key.
pub const MOD_SHIFT_BITS: u16 = 0x0003;

/// The mouse's move along the drag, as a whole number of steps: a tenth of it (rounded toward
/// zero) with Alt, ten times it with Shift (none when that leaves `i32`), else the move itself.
pub open spec fn drag_steps(dx: int, alt: bool, shift: bool) -> int {
    if alt {
        trunc_div(dx, 10)
    } else if shift {
        if i32::MIN <= dx * 10 <= i32::MAX { dx * 10 } else { 0 }
    } else {
        dx
    }
}

/// How far a drag moves the value: `speed` per step, and at least one, in the mouse's
/// direction, when the mouse moved.
pub open spec fn drag_delta(dx: int, speed: int, alt: bool, shift: bool) -> int {
    let d = speed * drag_steps(dx, alt, shift);
    if dx != 0 && d == 0 {
        if dx > 0 { 1 } else { -1 }
    } else {
        d
    }
}

/// The value a drag box starts from: the number typed in its text, when it has a text that
/// parses, else `value`.
pub open spec fn typed_value(s: UiView, id: ElementId, value: i32) -> int {
    match s.element(id) {
        Some(st) => match parsed_int(st.text_edit@) {
            Some(v) => v as int,
            None => value as int,
        },
        None => value as int,
    }
}

/// The box of a drag or value slider: right of its label, when it has one, by the item
/// padding; as wide as requested for the next element, else the UI's width, else 100; as tall
/// as the font plus item padding above and below.
pub open spec fn drag_rect(
    s: UiView,
    spacing: Spacing,
    font_size: u32,
    has_label: bool,
    label_size: (i32, i32),
    ui_width: Option<i32>,
) -> (i32, i32, i32, i32) {
    let w = match s.next_width {
        Some(w) => w,
        None => match ui_width {
            Some(w) => w,
            None => 100i32,
        },
    };
    let x = if has_label { s.cursor@[0] + label_size.0 + spacing.item_pad@[0] } else { s.cursor@[0] as int };
    (x as i32, s.cursor@[1], w, (clamp_size_spec(font_size) + 2 * spacing.item_pad@[1]) as i32)
}

/// A drag box or value slider after its input: being edited as text in a box `width` wide,
/// which [`PixState::drag_edit`] handles, or done, with whether the value changed.
#[derive(Debug, Copy, Clone, PartialEq, Eq, Structural)]
pub enum DragStep {
    Edit { id: ElementId, width: i32 },
    Done(bool),
}

/// The state once a drag box has tried to take hover and focus, and ended a text edit that
/// lost focus.
pub open spec fn drag_interact(s: UiView, id: ElementId, r: (i32, i32, i32, i32)) -> UiView {
    let s1 = focus_step(try_hover_step(UiView { next_width: None, ..s }, id, r), id);
    if s1.is_editing(id) && !s1.is_focused(id) {
        UiView { editing: None, ..s1 }
    } else {
        s1
    }
}

/// Whether a drag box's or value slider's arithmetic stays within `i32`: its box, the cursor
/// moving past it, and (for a drag, while it is dragged) the move and the new value.
pub open spec fn drag_fits(
    s: UiView,
    spacing: Spacing,
    font_size: u32,
    has_label: bool,
    label_size: (i32, i32),
    ui_width: Option<i32>,
) -> bool {
    let ipad = spacing.item_pad@;
    let r = drag_rect(s, spacing, font_size, has_label, label_size, ui_width);
    &&& has_label ==> i32::MIN <= s.cursor@[0] + label_size.0 <= i32::MAX
    &&& has_label ==> i32::MIN <= s.cursor@[0] + label_size.0 + ipad[0] <= i32::MAX
    &&& i32::MIN <= 2 * ipad[1] <= i32::MAX
    &&& i32::MIN <= clamp_size_spec(font_size) + 2 * ipad[1] <= i32::MAX
    &&& i32::MIN <= r.0 + r.2 <= i32::MAX
    &&& i32::MIN <= r.0 + r.2 - s.cursor@[0] <= i32::MAX
    &&& s.mouse_fits()
    &&& advance_fits(s, spacing.frame_pad, spacing.item_pad, (r.0 + r.2 - s.cursor@[0]) as i32, r.3)
}

/// The mouse's horizontal move since the last frame.
pub open spec fn mouse_dx(s: UiView) -> int {
    s.mouse_pos().0 - offset_pos(s.pmouse.pos, s.mouse_offset).0
}

/// Whether a drag's move and new value stay within `i32`.
pub open spec fn drag_move_fits(s: UiView, v0: int, speed: i32) -> bool {
    let dx = mouse_dx(s);
    let alt = s.keys.keymod & MOD_ALT_BITS != 0;
    let shift = s.keys.keymod & MOD_SHIFT_BITS != 0;
    &&& i32::MIN <= dx <= i32::MAX
    &&& i32::MIN <= speed * drag_steps(dx, alt, shift) <= i32::MAX
    &&& i32::MIN <= v0 + drag_delta(dx, speed as int, alt, shift) <= i32::MAX
}

/// The characters a number typed into a drag box may hold: digits, `.` and `-`.
pub open spec fn number_char(c: char) -> bool {
    ('0' <= c && c <= '9') || c == '.' || c == '-'
}

/// The text with only the characters a number may hold.
pub open spec fn number_chars(v: Seq<char>) -> Seq<char>
    decreases v.len(),
{
    if v.len() == 0 {
        v
    } else {
        let rest = number_chars(v.drop_last());
        if number_char(v.last()) { rest.push(v.last()) } else { rest }
    }
}

/// Returns the text with only the characters a number may hold.
pub fn keep_number_chars(value: &str) -> (r: String)
    ensures
        r@ == number_chars(value@),
{
    let n = value.unicode_len();
    let mut r = String::new();
    let mut i: usize = 0;
    while i < n
        invariant
            n == value@.len(),
            i <= n,
            r@ == number_chars(value@.take(i as int)),
        decreases n - i,
    {
        let c = value.get_char(i);
        assert(value@.take(i + 1).drop_last() =~= value@.take(i as int));
        if ('0' <= c && c <= '9') || c == '.' || c == '-' {
            let one = value.substring_char(i, i + 1);
            assert(one@ =~= seq![c]);
            r.append(one);
        }
        i += 1;
    }
    assert(value@.take(n as int) =~= value@);
    r
}

/// What a drag box or value slider labelled `label` leaves, from state `s` and value `value`
/// to state `fin`, value `fin_value` and result `r`. It takes the next width (see
/// [`drag_rect`]) and tries to take hover and focus. When it is being edited as text and
/// focused, it reports the edit and changes nothing else. Otherwise a text edit that lost
/// focus ends; the value starts from the number typed, if any, else `value`, within
/// `min..=max`, and the element's state is dropped. While active, Ctrl starts a text edit and
/// else the value becomes `moved` of the state and that start. It then handles Tab and click
/// focus, the cursor moves past it, and it reports whether the value changed.
pub open spec fn drag_done(
    s: UiView,
    spacing: Spacing,
    font_size: u32,
    label: Seq<u8>,
    has_label: bool,
    label_size: (i32, i32),
    ui_width: Option<i32>,
    value: i32,
    min: i32,
    max: i32,
    moved: spec_fn(UiView, int) -> int,
    fin: UiView,
    fin_value: i32,
    r: DragStep,
) -> bool {
    let id = ElementId(id_hash(label, top_seed(s)));
    let rect = drag_rect(s, spacing, font_size, has_label, label_size, ui_width);
    let s1 = focus_step(try_hover_step(UiView { next_width: None, ..s }, id, rect), id);
    if s1.is_editing(id) && s1.is_focused(id) {
        &&& r == DragStep::Edit { id, width: rect.2 }
        &&& fin == s1
        &&& fin_value == value
    } else {
        let s2 = drag_interact(s, id, rect);
        let v0 = clamp_int(typed_value(s2, id, value), min as int, max as int);
        let s3 = UiView { elements: after_pop(s2.elements, id.0), ..s2 };
        let ctrl = s3.keys.keymod & MOD_CTRL_BITS != 0;
        let (s4, v1) = if s2.is_active(id) {
            if ctrl {
                (UiView { editing: Some(id), ..s3 }, v0)
            } else {
                (s3, moved(s3, v0))
            }
        } else {
            (s3, v0)
        };
        &&& fin == advance_state(
            events_step(s4, id),
            spacing.frame_pad,
            spacing.item_pad,
            (rect.0 + rect.2 - s.cursor@[0]) as i32,
            rect.3,
        )
        &&& fin_value == v1
        &&& r == DragStep::Done(v1 != value)
    }
}

/// Whether the value a drag or slider moves to, from state `s` and start `v0`, is computed
/// within `i32`, when it is dragged.
pub open spec fn moved_fits(
    s: UiView,
    spacing: Spacing,
    font_size: u32,
    label: Seq<u8>,
    has_label: bool,
    label_size: (i32, i32),
    ui_width: Option<i32>,
    value: i32,
    min: i32,
    max: i32,
    fits: spec_fn(UiView, int) -> bool,
) -> bool {
    let id = ElementId(id_hash(label, top_seed(s)));
    let rect = drag_rect(s, spacing, font_size, has_label, label_size, ui_width);
    let s2 = drag_interact(s, id, rect);
    let v0 = clamp_int(typed_value(s2, id, value), min as int, max as int);
    let s3 = UiView { elements: after_pop(s2.elements, id.0), ..s2 };
    let ctrl = s3.keys.keymod & MOD_CTRL_BITS != 0;
    !(s2.is_editing(id) && s2.is_focused(id)) && s2.is_active(id) && !ctrl ==> fits(s3, v0)
}

impl PixState {
    /// Handles the box of a drag or value slider up to the new value: see [`drag_done`]. Returns
    /// the box, the identifier, the state and the start value, or that it is being edited.
    fn drag_box(
        &mut self,
        label: &str,
        label_size: (i32, i32),
        ui_width: Option<i32>,
        value: i32,
        min: i32,
        max: i32,
    ) -> (r: Result<(Rect<i32>, ElementId, i32, bool), DragStep>)
        requires
            old(self).wf(),
            min <= max,
            drag_fits(
                old(self).ui@,
                old(self).theme.spacing,
                old(self).theme.font_size,
                visible_label(label@).len() > 0,
                label_size,
                ui_width,
            ),
        ensures
            final(self).wf(),
            final(self).theme == old(self).theme,
            final(self).window_focused == old(self).window_focused,
            ({
                let s = old(self).ui@;
                let spacing = old(self).theme.spacing;
                let id = ElementId(id_hash(label.spec_bytes(), top_seed(s)));
                let rect = drag_rect(s, spacing, old(self).theme.font_size, visible_label(label@).len() > 0, label_size, ui_width);
                let s1 = focus_step(try_hover_step(UiView { next_width: None, ..s }, id, rect), id);
                if s1.is_editing(id) && s1.is_focused(id) {
                    &&& r == Err::<(Rect<i32>, ElementId, i32, bool), DragStep>(DragStep::Edit { id, width: rect.2 })
                    &&& final(self).ui@ == s1
                } else {
                    let s2 = drag_interact(s, id, rect);
                    let v0 = clamp_int(typed_value(s2, id, value), min as int, max as int);
                    &&& r matches Ok((b, rid, start, active)) && b@ == rect && rid == id && start == v0
                        && active == s2.is_active(id)
                    &&& final(self).ui@ == (UiView { elements: after_pop(s2.elements, id.0), ..s2 })
                }
            }),
    {
        let id = self.ui.get_id(label);
        let has_label = get_label(label).unicode_len() > 0;
        let pos = self.cursor_pos();
        let ipad = self.theme.spacing.item_pad;
        proof {
            pos.lemma_len();
            ipad.lemma_len();
        }
        let font_size = clamp_size(self.theme.font_size);
        let width = match self.ui.take_next_width() {
            Some(w) => w,
            None => match ui_width {
                Some(w) => w,
                None => 100,
            },
        };
        let x = if has_label { pos.x() + label_size.0 + ipad.x() } else { pos.x() };
        let rect = Rect::new(x, pos.y(), width, font_size + 2 * ipad.y());
        self.ui.try_hover(id, &rect);
        let focused = self.ui.try_focus(id);
        let active = self.ui.is_active(id);
        if self.ui.is_editing(id) {
            if !focused {
                self.ui.end_edit();
            } else {
                return Err(DragStep::Edit { id, width });
            }
        }
        let start = match self.ui.take_text_edit(id) {
            Some(t) => match parse_int(t.as_str()) {
                Some(v) => v,
                None => value,
            },
            None => value,
        };
        let v0 = if start < min { min } else if start > max { max } else { start };
        Ok((rect, id, v0, active))
    }

    /// Finishes a drag or value slider `id` over box `rect`, whose cursor started at `pos`: it
    /// handles Tab and click focus and the cursor moves past the label and the box.
    fn drag_finish(&mut self, id: ElementId, rect: Rect<i32>, pos: PointI2)
        requires
            old(self).wf(),
            pos@.len() == 2,
            i32::MIN <= rect@.0 + rect@.2 <= i32::MAX,
            i32::MIN <= rect@.0 + rect@.2 - pos@[0] <= i32::MAX,
            advance_fits(
                old(self).ui@,
                old(self).theme.spacing.frame_pad,
                old(self).theme.spacing.item_pad,
                (rect@.0 + rect@.2 - pos@[0]) as i32,
                rect@.3,
            ),
        ensures
            final(self).wf(),
            final(self).theme == old(self).theme,
            final(self).window_focused == old(self).window_focused,
            final(self).ui@ == advance_state(
                events_step(old(self).ui@, id),
                old(self).theme.spacing.frame_pad,
                old(self).theme.spacing.item_pad,
                (rect@.0 + rect@.2 - pos@[0]) as i32,
                rect@.3,
            ),
    {
        self.ui.handle_events(id);
        let ghost before = self.ui@;
        let size = [rect.x() + rect.width() - pos.x(), rect.height()];
        self.advance_cursor(size);
        proof {
            lemma_advanced_state(before, self.theme.spacing.frame_pad, self.theme.spacing.item_pad, size@[0], size@[1], self.ui@);
        }
    }
}

/// The value a drag moves to from start `v0` in state `s`: the start moved by the drag (see
/// [`drag_delta`]) at `speed`, within `min..=max`.
pub open spec fn dragged(s: UiView, v0: int, speed: i32, min: i32, max: i32) -> int {
    let alt = s.keys.keymod & MOD_ALT_BITS != 0;
    let shift = s.keys.keymod & MOD_SHIFT_BITS != 0;
    clamp_int(v0 + drag_delta(mouse_dx(s), speed as int, alt, shift), min as int, max as int)
}

/// The value a slider moves to: the value at the mouse, as the caller measured it along the
/// slider (`None` when it leaves the value's type), else `value`.
pub open spec fn slid(mouse_value: Option<i32>, value: i32) -> int {
    match mouse_value {
        Some(v) => v as int,
        None => value as int,
    }
}

impl PixState {
    /// Handles a drag box labelled `label`, whose visible label measures `label_size`, over
    /// `value` within `min..=max`; `ui_width` is the UI's width when known. While active, the
    /// mouse's horizontal move drags the value at `speed` per pixel (see [`dragged`]), and Ctrl
    /// starts typing it in. See [`drag_done`] for all it does.
    pub fn advanced_drag(
        &mut self,
        label: &str,
        label_size: (i32, i32),
        ui_width: Option<i32>,
        value: &mut i32,
        speed: i32,
        min: i32,
        max: i32,
    ) -> (r: DragStep)
        requires
            old(self).wf(),
            min <= max,
            drag_fits(
                old(self).ui@,
                old(self).theme.spacing,
                old(self).theme.font_size,
                visible_label(label@).len() > 0,
                label_size,
                ui_width,
            ),
            moved_fits(
                old(self).ui@,
                old(self).theme.spacing,
                old(self).theme.font_size,
                label.spec_bytes(),
                visible_label(label@).len() > 0,
                label_size,
                ui_width,
                *old(value),
                min,
                max,
                |s3: UiView, v0: int| drag_move_fits(s3, v0, speed),
            ),
        ensures
            final(self).wf(),
            final(self).theme == old(self).theme,
            final(self).window_focused == old(self).window_focused,
            drag_done(
                old(self).ui@,
                old(self).theme.spacing,
                old(self).theme.font_size,
                label.spec_bytes(),
                visible_label(label@).len() > 0,
                label_size,
                ui_width,
                *old(value),
                min,
                max,
                |s3: UiView, v0: int| dragged(s3, v0, speed, min, max),
                final(self).ui@,
                *final(value),
                r,
            ),
    {
        let pos = self.cursor_pos();
        proof {
            pos.lemma_len();
        }
        match self.drag_box(label, label_size, ui_width, *value, min, max) {
            Err(step) => step,
            Ok((rect, id, v0, active)) => {
                let mut new_value = v0;
                if active {
                    let bits = self.ui.keymod_bits();
                    if bits & MOD_CTRL_BITS != 0 {
                        self.ui.begin_edit(id);
                    } else {
                        let dx = self.ui.mouse_pos().x() - self.ui.pmouse_pos().x();
                        let steps: i32 = if bits & MOD_ALT_BITS != 0 {
                            dx / 10
                        } else if bits & MOD_SHIFT_BITS != 0 {
                            let t = dx as i64 * 10;
                            if i32::MIN as i64 <= t && t <= i32::MAX as i64 { t as i32 } else { 0 }
                        } else {
                            dx
                        };
                        let mut delta = speed * steps;
                        if dx != 0 && delta == 0 {
                            delta = if dx > 0 { 1 } else { -1 };
                        }
                        let moved = v0 + delta;
                        new_value = if moved < min { min } else if moved > max { max } else { moved };
                    }
                }
                self.drag_finish(id, rect, pos);
                if new_value == *value {
                    DragStep::Done(false)
                } else {
                    *value = new_value;
                    DragStep::Done(true)
                }
            },
        }
    }

    /// Handles a drag box labelled `label` over `value` across the whole `i32` range: the
    /// drag box of [`PixState::advanced_drag`] with `i32::MIN..=i32::MAX`.
    pub fn drag(
        &mut self,
        label: &str,
        label_size: (i32, i32),
        ui_width: Option<i32>,
        value: &mut i32,
        speed: i32,
    ) -> (r: DragStep)
        requires
            old(self).wf(),
            drag_fits(
                old(self).ui@,
                old(self).theme.spacing,
                old(self).theme.font_size,
                visible_label(label@).len() > 0,
                label_size,
                ui_width,
            ),
            moved_fits(
                old(self).ui@,
                old(self).theme.spacing,
                old(self).theme.font_size,
                label.spec_bytes(),
                visible_label(label@).len() > 0,
                label_size,
                ui_width,
                *old(value),
                i32::MIN,
                i32::MAX,
                |s3: UiView, v0: int| drag_move_fits(s3, v0, speed),
            ),
        ensures
            final(self).wf(),
            final(self).theme == old(self).theme,
            final(self).window_focused == old(self).window_focused,
            drag_done(
                old(self).ui@,
                old(self).theme.spacing,
                old(self).theme.font_size,
                label.spec_bytes(),
                visible_label(label@).len() > 0,
                label_size,
                ui_width,
                *old(value),
                i32::MIN,
                i32::MAX,
                |s3: UiView, v0: int| dragged(s3, v0, speed, i32::MIN, i32::MAX),
                final(self).ui@,
                *final(value),
                r,
            ),
    {
        self.advanced_drag(label, label_size, ui_width, value, speed, i32::MIN, i32::MAX)
    }

    /// Handles a value slider labelled `label`, whose visible label measures `label_size`, over
    /// `value` within `min..=max`; `ui_width` is the UI's width when known. `mouse_value` is the
    /// value at the mouse along the slider, which the caller measures (`None` when it leaves
    /// `i32`); while active the value becomes it (see [`slid`]), and Ctrl starts typing it in.
    /// See [`drag_done`] for all it does.
    pub fn advanced_slider(
        &mut self,
        label: &str,
        label_size: (i32, i32),
        ui_width: Option<i32>,
        value: &mut i32,
        min: i32,
        max: i32,
        mouse_value: Option<i32>,
    ) -> (r: DragStep)
        requires
            old(self).wf(),
            min <= max,
            drag_fits(
                old(self).ui@,
                old(self).theme.spacing,
                old(self).theme.font_size,
                visible_label(label@).len() > 0,
                label_size,
                ui_width,
            ),
        ensures
            final(self).wf(),
            final(self).theme == old(self).theme,
            final(self).window_focused == old(self).window_focused,
            drag_done(
                old(self).ui@,
                old(self).theme.spacing,
                old(self).theme.font_size,
                label.spec_bytes(),
                visible_label(label@).len() > 0,
                label_size,
                ui_width,
                *old(value),
                min,
                max,
                |s3: UiView, v0: int| slid(mouse_value, *old(value)),
                final(self).ui@,
                *final(value),
                r,
            ),
    {
        let pos = self.cursor_pos();
        proof {
            pos.lemma_len();
        }
        match self.drag_box(label, label_size, ui_width, *value, min, max) {
            Err(step) => step,
            Ok((rect, id, v0, active)) => {
                let mut new_value = v0;
                if active {
                    if self.ui.keymod_bits() & MOD_CTRL_BITS != 0 {
                        self.ui.begin_edit(id);
                    } else {
                        new_value = match mouse_value {
                            Some(v) => v,
                            None => *value,
                        };
                    }
                }
                self.drag_finish(id, rect, pos);
                if new_value == *value {
                    DragStep::Done(false)
                } else {
                    *value = new_value;
                    DragStep::Done(true)
                }
            },
        }
    }
}

/// What typing into a drag box or value slider `id` labelled `label` leaves, from state `s`:
/// the box is `width` wide; the text starts as the element's text edit, taken from it, or
/// else as `value`'s decimal text (state `s1`, text `text0`); a text field edits it (state
/// `s2`, text `text1`, whether it `changed` and what to `copy`); an edited text keeps only
/// the characters of a number, and is stored as the element's text edit (state `s3`); Return
/// or Escape ends the edit (state `fin`).
pub open spec fn drag_edit_done(
    s: UiView,
    window_focused: bool,
    spacing: Spacing,
    id: ElementId,
    label: Seq<char>,
    label_size: (i32, i32),
    width: i32,
    value: i32,
    clipboard: Seq<char>,
    s1: UiView,
    text0: Seq<char>,
    s2: UiView,
    text1: Seq<char>,
    s3: UiView,
    fin: UiView,
    changed: bool,
    copy: Option<Seq<char>>,
) -> bool {
    let pre = UiView { next_width: Some(width), ..s };
    &&& s1 == (UiView { elements: s1.elements, ..pre })
    &&& match pre.element(id) {
        Some(st) => {
            &&& text0 == st.text_edit@
            &&& element_set(pre.elements, s1.elements, id, ElementField::TextEdit)
            &&& s1.elements[0].1.text_edit@ == Seq::<char>::empty()
        },
        None => text0 == int_text(value as int) && s1.elements == pre.elements,
    }
    &&& field_done(s1, window_focused, spacing, label, label_size, None, text0, clipboard, s2, text1, changed, copy)
    &&& s3 == (UiView { elements: s3.elements, ..s2 })
    &&& element_set(s2.elements, s3.elements, id, ElementField::TextEdit)
    &&& s3.elements[0].1.text_edit@ == (if changed { number_chars(text1) } else { text1 })
    &&& fin == if s3.keys.entered == Some(Key::Return) || s3.keys.entered == Some(Key::Escape) {
        UiView { editing: None, ..s3 }
    } else {
        s3
    }
}

impl PixState {
    /// Handles a drag box or value slider `id`, labelled `label`, while its value is typed in
    /// (see [`DragStep::Edit`]) in a box `width` wide; `label_size` is the visible label's size
    /// and `clipboard` what Ctrl+V pastes. See [`drag_edit_done`]. Returns whether the text
    /// changed and what to copy to the clipboard, if any.
    pub fn drag_edit(
        &mut self,
        id: ElementId,
        label: &str,
        label_size: (i32, i32),
        width: i32,
        value: i32,
        clipboard: &str,
    ) -> (r: (bool, Option<String>))
        requires
            old(self).wf(),
            field_fits(
                UiView { next_width: Some(width), ..old(self).ui@ },
                old(self).window_focused,
                old(self).theme.spacing,
                visible_label(label@).len() > 0,
                label_size,
                None,
            ),
        ensures
            final(self).wf(),
            final(self).theme == old(self).theme,
            final(self).window_focused == old(self).window_focused,
            exists|s1: UiView, text0: Seq<char>, s2: UiView, text1: Seq<char>, s3: UiView|
                #[trigger] drag_edit_done(
                    old(self).ui@,
                    old(self).window_focused,
                    old(self).theme.spacing,
                    id,
                    label@,
                    label_size,
                    width,
                    value,
                    clipboard@,
                    s1,
                    text0,
                    s2,
                    text1,
                    s3,
                    final(self).ui@,
                    r.0,
                    opt_text(r.1),
                ),
    {
        self.ui.set_next_width(Some(width));
        let initial = int_to_text(value);
        let mut text = self.ui.text_edit(id, initial);
        let ghost s1 = self.ui@;
        let ghost text0 = text@;
        let (changed, copy) = self.text_field(label, label_size, None, &mut text, clipboard);
        let ghost s2 = self.ui@;
        let ghost text1 = text@;
        if changed {
            text = keep_number_chars(text.as_str());
        }
        self.ui.set_text_edit(id, text);
        let ghost s3 = self.ui@;
        match self.ui.key_entered() {
            Some(Key::Return) | Some(Key::Escape) => self.ui.end_edit(),
            _ => {},
        }
        proof {
            assert(drag_edit_done(
                old(self).ui@,
                self.window_focused,
                self.theme.spacing,
                id,
                label@,
                label_size,
                width,
                value,
                clipboard@,
                s1,
                text0,
                s2,
                text1,
                s3,
                self.ui@,
                changed,
                opt_text(copy),
            ));
        }
        (changed, copy)
    }
}

} // verus!
