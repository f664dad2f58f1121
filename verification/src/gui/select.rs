//! Select lists: a scrollable list of items, one selected, chosen by clicking an item or by the
//! arrow keys while the list is focused, with the scroll following the selection.

use crate::arith::trunc_div;
use crate::engine::PixState;
use crate::event::{Key, Mouse};
use crate::gui::layout::{advance_fits, advanced};
use crate::gui::state::{has_key, key_index, get_label, visible_label, lemma_promote_lookup, lemma_element_set_then_read, keys_distinct, lookup, promote, ELEMENT_CACHE_SIZE,
    element_set, events_step, focus_step, id_hash, top_seed, try_hover_step, ElementField,
    ElementId, UiView, cleared,
};
use crate::gui::theme::Spacing;
use crate::gui::widgets::clamp_int;
use crate::ops::{clamp_size, clamp_size_spec};
use crate::shape::{rect_contains, rect_fits, Contains, Rect};
use crate::vector::Vector;
use vstd::prelude::*;
use vstd::string::StringSliceAdditionalSpecFns;

verus! {

/// The maximum number of select elements that can be displayed at once.
pub const MAX_DISPLAYED: usize = 100;

/// The selection after an arrow key: Up moves to the previous item, stopping at the first;
/// Down to the next, stopping at the last. Other keys select nothing new.
pub open spec fn key_selection(selected: int, key: Key, len: int) -> Option<int> {
    match key {
        Key::Up => Some(if selected == 0 { 0 } else { selected - 1 }),
        Key::Down => Some(if selected + 1 > len - 1 { len - 1 } else { selected + 1 }),
        _ => None,
    }
}

/// Returns the selection after an arrow key.
pub fn list_key_selection(selected: usize, key: Key, len: usize) -> (r: Option<usize>)
    requires
        len > 0,
    ensures
        match key_selection(selected as int, key, len as int) {
            Some(v) => r == Some(v as usize),
            None => r is None,
        },
{
    match key {
        Key::Up => Some(if selected == 0 { 0 } else { selected - 1 }),
        Key::Down => Some(if selected >= len - 1 { len - 1 } else { selected + 1 }),
        _ => None,
    }
}

/// The scroll that keeps the selected line, at `sel_y`, in view: a selection above the window
/// snaps the window's top to it; one below snaps the window's bottom to it, less the font size
/// and item padding; otherwise the scroll stays.
pub open spec fn snapped_scroll(scroll_y: int, sel_y: int, line_height: int, height: int, font_size: int, ipad_y: int) -> int {
    if sel_y < scroll_y {
        sel_y
    } else if sel_y + line_height > scroll_y + height {
        (sel_y + line_height) - (height - font_size - ipad_y)
    } else {
        scroll_y
    }
}

/// Whether the snapping arithmetic stays within `i32`.
pub open spec fn snap_fits(scroll_y: int, sel_y: int, line_height: int, height: int, font_size: int, ipad_y: int) -> bool {
    &&& i32::MIN <= sel_y + line_height <= i32::MAX
    &&& i32::MIN <= scroll_y + height <= i32::MAX
    &&& i32::MIN <= height - font_size <= i32::MAX
    &&& i32::MIN <= height - font_size - ipad_y <= i32::MAX
    &&& i32::MIN <= (sel_y + line_height) - (height - font_size - ipad_y) <= i32::MAX
}

/// Returns the scroll that keeps the selected line in view.
pub fn snap_scroll(scroll_y: i32, sel_y: i32, line_height: i32, height: i32, font_size: i32, ipad_y: i32) -> (r: i32)
    requires
        snap_fits(scroll_y as int, sel_y as int, line_height as int, height as int, font_size as int, ipad_y as int),
    ensures
        r == snapped_scroll(scroll_y as int, sel_y as int, line_height as int, height as int, font_size as int, ipad_y as int),
{
    if sel_y < scroll_y {
        sel_y
    } else if sel_y + line_height > scroll_y + height {
        (sel_y + line_height) - (height - font_size - ipad_y)
    } else {
        scroll_y
    }
}

/// The list's geometry for item hit tests: its area, the top of its content, the top of the
/// first item shown, the line height, the first item shown and one past the last.
pub struct ItemLayout {
    pub list: (i32, i32, i32, i32),
    pub content_y: int,
    pub start_y: int,
    pub line_height: int,
    pub first: int,
    pub end: int,
}

/// The top of item `i`: the items shown are laid out a line apart from the first one's top.
pub open spec fn item_top(l: ItemLayout, i: int) -> int {
    l.start_y + (i - l.first) * l.line_height
}

/// Whether the mouse at `m` hits item `i`: it is among those shown, its band lies in reach of
/// the list, and the mouse is in its band across the list.
pub open spec fn item_hit(l: ItemLayout, i: int, m: (int, int)) -> bool {
    let top = item_top(l, i);
    &&& l.first <= i < l.end
    &&& (top + l.line_height > l.content_y || top < l.list.3)
    &&& l.list.0 <= m.0 < l.list.0 + l.list.2
    &&& top <= m.1 < top + l.line_height
}

/// The last item in `from..to` the mouse hits.
pub open spec fn last_hit(l: ItemLayout, from: int, to: int, m: (int, int)) -> Option<int>
    decreases to - from,
{
    if to <= from {
        None
    } else if item_hit(l, to - 1, m) {
        Some(to - 1)
    } else {
        last_hit(l, from, to - 1, m)
    }
}

/// The item hit lies in the range searched.
pub proof fn lemma_last_hit_in_range(l: ItemLayout, from: int, to: int, m: (int, int))
    ensures
        last_hit(l, from, to, m) matches Some(i) ==> from <= i < to && item_hit(l, i, m),
    decreases to - from,
{
    if to > from && !item_hit(l, to - 1, m) {
        lemma_last_hit_in_range(l, from, to - 1, m);
    }
}

/// Whether the item bands of a layout fit in `i32`: the first top and the bottom of the last
/// item shown.
pub open spec fn layout_fits(l: ItemLayout) -> bool {
    &&& l.line_height > 0
    &&& 0 <= l.first <= l.end
    &&& i32::MIN <= l.start_y
    &&& l.start_y + (l.end - l.first) * l.line_height <= i32::MAX
    &&& i32::MIN <= l.list.0 + l.list.2 <= i32::MAX
    &&& l.end <= usize::MAX
}

/// Finds the last item the mouse hits.
fn find_hit(list: Rect<i32>, content_y: i32, start_y: i32, line_height: i32, first: usize, end: usize, mx: i32, my: i32) -> (r: Option<usize>)
    requires
        layout_fits(ItemLayout { list: list@, content_y: content_y as int, start_y: start_y as int, line_height: line_height as int, first: first as int, end: end as int }),
    ensures
        ({
            let l = ItemLayout { list: list@, content_y: content_y as int, start_y: start_y as int, line_height: line_height as int, first: first as int, end: end as int };
            match last_hit(l, first as int, end as int, (mx as int, my as int)) {
                Some(i) => r == Some(i as usize),
                None => r is None,
            }
        }),
{
    let ghost l = ItemLayout { list: list@, content_y: content_y as int, start_y: start_y as int, line_height: line_height as int, first: first as int, end: end as int };
    let ghost m = (mx as int, my as int);
    let mut hit: Option<usize> = None;
    let mut i: usize = first;
    while i < end
        invariant
            layout_fits(l),
            l.list == list@ && l.content_y == content_y && l.start_y == start_y && l.line_height == line_height && l.first == first && l.end == end,
            m == (mx as int, my as int),
            first <= i <= end,
            match last_hit(l, first as int, i as int, m) {
                Some(j) => hit == Some(j as usize),
                None => hit is None,
            },
        decreases end - i,
    {
        proof {
            assert(0 <= (i - first) * line_height && (i - first) * line_height + line_height <= (end - first) * line_height) by (nonlinear_arith)
                requires first <= i < end, line_height > 0;
            assert(i - first <= (end - first) * line_height) by (nonlinear_arith)
                requires first <= i < end, line_height > 0;
        }
        let top: i64 = start_y as i64 + ((i - first) as i64) * (line_height as i64);
        let clickable = top + line_height as i64 > content_y as i64 || top < list.height() as i64;
        let inside = list.x() as i64 <= mx as i64 && (mx as i64) < list.x() as i64 + list.width() as i64
            && top <= my as i64 && (my as i64) < top + line_height as i64;
        if clickable && inside {
            hit = Some(i);
        }
        proof {
            assert(item_top(l, i as int) == top);
        }
        i += 1;
    }
    hit
}

/// The area of a select list below the cursor `(x, y)`: below its label when it has one,
/// `width` wide and tall enough for `displayed` lines plus frame padding and a border.
pub open spec fn list_area(
    x: i32,
    y: i32,
    has_label: bool,
    label_height: i32,
    width: i32,
    displayed: int,
    line_height: int,
    fpad_y: i32,
    ipad_y: i32,
) -> (int, int, int, int) {
    let top = if has_label { y + label_height + ipad_y } else { y as int };
    (x as int, top, width as int, displayed * line_height + 2 * fpad_y + 2)
}

/// Whether the list's area fits `i32`.
pub open spec fn list_area_fits(a: (int, int, int, int)) -> bool {
    &&& i32::MIN <= a.1 <= i32::MAX
    &&& i32::MIN <= a.3 <= i32::MAX
    &&& i32::MIN <= a.1 + a.3 <= i32::MAX
    &&& i32::MIN <= a.0 + a.2 <= i32::MAX
}

/// The inputs a select list's decisions rest on, besides the UI state.
pub struct ListInputs {
    pub id: ElementId,
    pub len: int,
    pub displayed: int,
    pub area: (i32, i32, i32, i32),
    pub line_height: int,
    pub font_size: int,
    pub fpad_y: int,
    pub ipad_y: int,
}

/// The scroll of element `id`, or none.
pub open spec fn scroll_of(s: UiView, id: ElementId) -> Seq<i32> {
    match s.element(id) {
        Some(st) => st.scroll@,
        None => seq![0i32, 0i32],
    }
}

/// The first item a list scrolled by `scroll_y` shows: the number of whole lines scrolled,
/// taken as a `usize` (a negative count wraps past every item).
pub open spec fn shown_first(scroll_y: int, line_height: int) -> int {
    (trunc_div(scroll_y, line_height) as usize) as int
}

/// One past the last item shown: `displayed` lines and one more for the overflow, from `first`,
/// within the `len` items (none when `first` is past them).
pub open spec fn shown_end(first: int, displayed: int, len: int) -> int {
    if first >= len {
        first
    } else if len - first < displayed + 1 {
        len
    } else {
        first + displayed + 1
    }
}

/// The top of the list's content: inside its border and frame padding.
pub open spec fn list_content_y(inp: ListInputs) -> int {
    inp.area.1 + 1 + inp.fpad_y
}

/// The item layout of a select list scrolled by `scroll_y`: the first item shown starts the
/// scroll's remainder above the content's top.
pub open spec fn list_layout(inp: ListInputs, scroll_y: int) -> ItemLayout {
    let first = shown_first(scroll_y, inp.line_height);
    ItemLayout {
        list: inp.area,
        content_y: list_content_y(inp),
        start_y: list_content_y(inp) - scroll_y + trunc_div(scroll_y, inp.line_height) * inp.line_height,
        line_height: inp.line_height,
        first,
        end: shown_end(first, inp.displayed, inp.len),
    }
}

/// The UI state after a select list tries to take focus and hover, whether it is focused, and
/// the selection after a click: a left click released over an item while the list is hovered
/// and active selects it.
pub open spec fn list_click_step(s: UiView, window_focused: bool, inp: ListInputs, selected: int) -> (UiView, bool, int) {
    let id = inp.id;
    let s1 = if window_focused { focus_step(s, id) } else { s };
    let focused = window_focused && s1.is_focused(id);
    let s2 = if window_focused { try_hover_step(s1, id, inp.area) } else { s1 };
    let hovered = window_focused && s2.is_hovered(id);
    let active = s2.is_active(id);
    let layout = list_layout(inp, scroll_of(s2, id)[1] as int);
    let sel1 = if hovered && active && s2.mouse.clicked.contains(Mouse::Left) {
        match last_hit(layout, layout.first, layout.end, s2.mouse_pos()) {
            Some(i) => i,
            None => selected,
        }
    } else {
        selected
    };
    (s2, focused, sel1)
}

/// The top of the selected line `v`: its index taken as an `i32`, times the line height.
pub open spec fn sel_top(v: int, line_height: int) -> int {
    (v as i32) as int * line_height
}

/// Whether snapping the scroll to the selected line `v` stays within `i32`.
pub open spec fn select_snap_fits(v: int, line_height: int, scroll_y: int, height: int, font_size: int, ipad_y: int) -> bool {
    &&& i32::MIN <= sel_top(v, line_height) <= i32::MAX
    &&& snap_fits(scroll_y, sel_top(v, line_height), line_height, height, font_size, ipad_y)
}

/// The UI state, selection and new scroll after an arrow key while the list is focused: the
/// selection moves, the frame's events are cleared, and the scroll snaps to keep the selection
/// in view (a new scroll only when it moved).
pub open spec fn list_key_step(s: UiView, focused: bool, inp: ListInputs, selected: int) -> (UiView, int, Option<int>) {
    let scroll = scroll_of(s, inp.id);
    match s.keys.entered {
        Some(k) if focused => match key_selection(selected, k, inp.len) {
            Some(v) => {
                let snapped = snapped_scroll(scroll[1] as int, sel_top(v, inp.line_height), inp.line_height, inp.area.3 as int, inp.font_size, inp.ipad_y);
                (cleared(s), v, if snapped != scroll[1] { Some(snapped) } else { None })
            },
            None => (s, selected, None),
        },
        _ => (s, selected, None),
    }
}

/// Whether an arrow key's scroll snap stays within `i32`.
pub open spec fn list_key_fits(s: UiView, focused: bool, inp: ListInputs, selected: int) -> bool {
    match s.keys.entered {
        Some(k) if focused => match key_selection(selected, k, inp.len) {
            Some(v) => select_snap_fits(v, inp.line_height, scroll_of(s, inp.id)[1] as int, inp.area.3 as int, inp.font_size, inp.ipad_y),
            None => true,
        },
        _ => true,
    }
}

/// Whether a select list's item arithmetic stays within `i32`: the top of its content, that
/// top less the scroll, the first item's top, and the bottom of the last item shown.
pub open spec fn list_fits(s: UiView, inp: ListInputs) -> bool {
    let scroll_y = scroll_of(s, inp.id)[1] as int;
    let l = list_layout(inp, scroll_y);
    &&& 0 < inp.line_height
    &&& 0 <= inp.displayed <= 100
    &&& 0 < inp.len
    &&& i32::MIN <= inp.area.1 + 1 <= i32::MAX
    &&& i32::MIN <= list_content_y(inp) <= i32::MAX
    &&& i32::MIN <= list_content_y(inp) - scroll_y <= i32::MAX
    &&& i32::MIN <= l.start_y <= i32::MAX
    &&& l.first < l.end ==> l.start_y + (l.end - l.first) * l.line_height <= i32::MAX
    &&& i32::MIN <= inp.area.0 + inp.area.2 <= i32::MAX
    &&& s.mouse_fits()
}

/// The truncated quotient of `a` by a positive `b` times `b` lies between 0 and `a`.
pub proof fn lemma_trunc_div_bounds(a: int, b: int)
    requires
        b > 0,
    ensures
        a >= 0 ==> 0 <= trunc_div(a, b) * b <= a && 0 <= trunc_div(a, b) <= a,
        a < 0 ==> a <= trunc_div(a, b) * b <= 0 && a <= trunc_div(a, b) <= 0,
{
    if a >= 0 {
        assert(0 <= (a / b) * b <= a && 0 <= a / b <= a) by (nonlinear_arith)
            requires a >= 0, b > 0;
    } else {
        let n = -a;
        assert(0 <= (n / b) * b <= n && 0 <= n / b <= n) by (nonlinear_arith)
            requires n > 0, b > 0;
        assert((-(n / b)) * b == -((n / b) * b)) by (nonlinear_arith);
    }
}

impl PixState {
    /// Lets a select list take focus and hover, and selects the item a click lands on.
    fn list_clicks(&mut self, inp: Ghost<ListInputs>, id: ElementId, list: Rect<i32>, len: usize, disp: usize, line_height: i32, fpad_y: i32, selected: &mut usize) -> (focused: bool)
        requires
            old(self).wf(),
            list_fits(old(self).ui@, inp@),
            inp@.id == id,
            inp@.area == list@,
            inp@.len == len,
            inp@.displayed == disp,
            inp@.line_height == line_height,
            inp@.fpad_y == fpad_y,
        ensures
            final(self).wf(),
            final(self).theme == old(self).theme,
            final(self).window_focused == old(self).window_focused,
            (final(self).ui@, focused, *final(selected) as int) == list_click_step(old(self).ui@, old(self).window_focused, inp@, *old(selected) as int),
            *old(selected) < len ==> *final(selected) < len,
    {
        let focused = self.window_focused && self.ui.try_focus(id);
        let hovered = self.window_focused && self.ui.try_hover(id, &list);
        let active = self.ui.is_active(id);
        let scroll = self.ui.scroll(id);
        proof {
            scroll.lemma_len();
        }
        let scroll_y = scroll.y();
        let ghost l = list_layout(inp@, scroll_y as int);
        proof {
            lemma_trunc_div_bounds(scroll_y as int, line_height as int);
        }
        let q: i64 = if scroll_y >= 0 {
            scroll_y as i64 / line_height as i64
        } else {
            -((-(scroll_y as i64)) / line_height as i64)
        };
        let first = q as usize;
        let end = if first >= len {
            first
        } else if len - first < disp + 1 {
            len
        } else {
            first + disp + 1
        };
        assert(first == l.first && end == l.end);
        if hovered && active && self.ui.mouse_clicked(Mouse::Left) && first < end {
            let m = self.ui.mouse_pos();
            proof {
                m.lemma_len();
                lemma_last_hit_in_range(l, first as int, end as int, (m@[0] as int, m@[1] as int));
            }
            let content_y = list.y() + 1 + fpad_y;
            let start_y = ((content_y - scroll_y) as i64 + q * line_height as i64) as i32;
            if let Some(i) = find_hit(list, content_y, start_y, line_height, first, end, m.x(), m.y()) {
                *selected = i;
            }
        }
        focused
    }

    /// Moves a focused select list's selection by an arrow key, snapping its scroll.
    fn list_keys(&mut self, inp: Ghost<ListInputs>, focused: bool, id: ElementId, len: usize, line_height: i32, height: i32, font_size: i32, ipad_y: i32, selected: &mut usize)
        requires
            old(self).wf(),
            0 < inp@.len,
            inp@.id == id,
            inp@.len == len,
            inp@.line_height == line_height,
            inp@.area.3 == height,
            inp@.font_size == font_size,
            inp@.ipad_y == ipad_y,
            *old(selected) < len,
            list_key_fits(old(self).ui@, focused, inp@, *old(selected) as int),
        ensures
            final(self).wf(),
            final(self).theme == old(self).theme,
            final(self).window_focused == old(self).window_focused,
            ({
                let step = list_key_step(old(self).ui@, focused, inp@, *old(selected) as int);
                &&& *final(selected) == step.1
                &&& match step.2 {
                    None => final(self).ui@ == step.0,
                    Some(y) => {
                        &&& final(self).ui@ == (UiView { elements: final(self).ui@.elements, ..step.0 })
                        &&& element_set(step.0.elements, final(self).ui@.elements, id, ElementField::Scroll)
                        &&& final(self).ui@.elements[0].1.scroll@ == seq![scroll_of(step.0, id)[0], y as i32]
                    },
                }
            }),
    {
        let scroll = self.ui.scroll(id);
        proof {
            scroll.lemma_len();
        }
        let scroll_y = scroll.y();
        if focused {
            if let Some(key) = self.ui.key_entered() {
                if let Some(sel) = list_key_selection(*selected, key, len) {
                    assert(sel < len);
                    *selected = sel;
                    self.ui.clear_entered();
                    let sel_y = sel as i32 * line_height;
                    let new_y = snap_scroll(scroll_y, sel_y, line_height, height, font_size, ipad_y);
                    if new_y != scroll_y {
                        let v = Vector::new([scroll.x(), new_y]);
                        assert(v@ =~= seq![scroll@[0], new_y]);
                        self.ui.set_scroll(id, v);
                    }
                }
            }
        }
    }
}

/// The inputs of a select list labelled `label`, in the UI state `s` (whose width request for
/// the next element it takes), with the theme's font size and paddings.
pub open spec fn list_inputs(
    s: UiView,
    label: &str,
    len: int,
    displayed_count: int,
    label_size: (i32, i32),
    font_size: u32,
    fpad_y: i32,
    ipad_y: i32,
) -> ListInputs {
    let disp = if displayed_count > 100 { 100 } else { displayed_count };
    let fs = clamp_size_spec(font_size) as int;
    let lh = fs + 2 * ipad_y;
    let width = match s.next_width {
        Some(w) => w,
        None => label_size.0,
    };
    let a = list_area(s.cursor@[0], s.cursor@[1], visible_label(label@).len() > 0, label_size.1, width, disp, lh, fpad_y, ipad_y);
    ListInputs {
        id: ElementId(id_hash(label.spec_bytes(), top_seed(s))),
        len,
        displayed: disp,
        area: (a.0 as i32, a.1 as i32, a.2 as i32, a.3 as i32),
        line_height: lh,
        font_size: fs,
        fpad_y: fpad_y as int,
        ipad_y: ipad_y as int,
    }
}

/// Whether computing a select list's area stays within `i32`: the label's height and item
/// padding below the cursor (when the label shows), the line height, which is positive, and
/// the list's height for the lines displayed, with frame padding and border.
pub open spec fn list_area_ok(s: UiView, label: &str, displayed_count: int, label_size: (i32, i32), font_size: u32, fpad_y: i32, ipad_y: i32) -> bool {
    let disp = if displayed_count > 100 { 100 } else { displayed_count };
    let fs = clamp_size_spec(font_size) as int;
    let lh = fs + 2 * ipad_y;
    let width = match s.next_width {
        Some(w) => w,
        None => label_size.0,
    };
    let has_label = visible_label(label@).len() > 0;
    let a = list_area(s.cursor@[0], s.cursor@[1], has_label, label_size.1, width, disp, lh, fpad_y, ipad_y);
    &&& has_label ==> i32::MIN <= s.cursor@[1] + label_size.1 <= i32::MAX
    &&& has_label ==> i32::MIN <= s.cursor@[1] + label_size.1 + ipad_y <= i32::MAX
    &&& i32::MIN <= 2 * ipad_y <= i32::MAX
    &&& 0 < lh <= i32::MAX
    &&& disp * lh <= i32::MAX
    &&& i32::MIN <= 2 * fpad_y <= i32::MAX
    &&& i32::MIN <= disp * lh + 2 * fpad_y <= i32::MAX
    &&& i32::MIN <= disp * lh + 2 * fpad_y + 2 <= i32::MAX
    &&& list_area_fits(a)
}

impl PixState {
    /// Handles a select list labelled `label` over `items`, showing at most `displayed_count`
    /// (no more than 100) lines, at the cursor below its label: the label's visible part
    /// measures `label_size`, and the list is as wide as the width requested for the next
    /// element, else as the label. `selected` is first kept within the items; then a click
    /// on an item or an arrow key while focused selects, and the scroll follows the selection.
    /// Returns whether the selection changed, the list's area and its identifier; the caller
    /// adds scroll bars with [`PixState::scroll`] and advances the cursor past the list.
    pub fn select_list(
        &mut self,
        label: &str,
        selected: &mut usize,
        items: &[&str],
        displayed_count: usize,
        label_size: (i32, i32),
    ) -> (r: (bool, Rect<i32>, ElementId))
        requires
            old(self).wf(),
            items@.len() > 0,
            list_area_ok(old(self).ui@, label, displayed_count as int, label_size, old(self).theme.font_size, old(self).theme.spacing.frame_pad@[1], old(self).theme.spacing.item_pad@[1]),
            ({
                let s = UiView { next_width: None, ..old(self).ui@ };
                let inp = list_inputs(old(self).ui@, label, items@.len() as int, displayed_count as int, label_size, old(self).theme.font_size, old(self).theme.spacing.frame_pad@[1], old(self).theme.spacing.item_pad@[1]);
                let sel0 = if *old(selected) >= items@.len() { items@.len() - 1 } else { *old(selected) as int };
                let c = list_click_step(s, old(self).window_focused, inp, sel0);
                &&& list_fits(s, inp)
                &&& list_key_fits(c.0, c.1, inp, c.2)
            }),
        ensures
            final(self).wf(),
            final(self).theme == old(self).theme,
            final(self).window_focused == old(self).window_focused,
            ({
                let s = old(self).ui@;
                let inp = list_inputs(s, label, items@.len() as int, displayed_count as int, label_size, old(self).theme.font_size, old(self).theme.spacing.frame_pad@[1], old(self).theme.spacing.item_pad@[1]);
                let sel0 = if *old(selected) >= items@.len() { items@.len() - 1 } else { *old(selected) as int };
                let c = list_click_step(UiView { next_width: None, ..s }, old(self).window_focused, inp, sel0);
                let k = list_key_step(c.0, c.1, inp, c.2);
                &&& r.1@ == inp.area
                &&& r.2 == inp.id
                &&& *final(selected) == k.1
                &&& r.0 == (*final(selected) != *old(selected))
                &&& match k.2 {
                    None => final(self).ui@ == events_step(k.0, inp.id),
                    Some(y) => {
                        &&& final(self).ui@ == (UiView { elements: final(self).ui@.elements, ..events_step(k.0, inp.id) })
                        &&& element_set(k.0.elements, final(self).ui@.elements, inp.id, ElementField::Scroll)
                        &&& final(self).ui@.elements[0].1.scroll@ == seq![scroll_of(k.0, inp.id)[0], y as i32]
                    },
                }
            }),
    {
        let original = *selected;
        let ghost inp = list_inputs(self.ui@, label, items@.len() as int, displayed_count as int, label_size, self.theme.font_size, self.theme.spacing.frame_pad@[1], self.theme.spacing.item_pad@[1]);
        let disp: usize = if displayed_count > MAX_DISPLAYED { MAX_DISPLAYED } else { displayed_count };
        if *selected >= items.len() {
            *selected = items.len() - 1;
        }
        let id = self.ui.get_id(label);
        let vis = get_label(label);
        let pos = self.ui.cursor();
        proof {
            pos.lemma_len();
            self.theme.spacing.frame_pad.lemma_len();
            self.theme.spacing.item_pad.lemma_len();
        }
        let font_size = clamp_size(self.theme.font_size);
        let fpad_y = self.theme.spacing.frame_pad.y();
        let ipad_y = self.theme.spacing.item_pad.y();
        let (label_width, label_height) = label_size;
        let width = match self.ui.take_next_width() {
            Some(w) => w,
            None => label_width,
        };
        let x = pos.x();
        let mut y = pos.y();
        if !vis.is_empty() {
            y = y + label_height + ipad_y;
        }
        let line_height = font_size + 2 * ipad_y;
        let list = Rect::new(x, y, width, disp as i32 * line_height + 2 * fpad_y + 2);
        let focused = self.list_clicks(Ghost(inp), id, list, items.len(), disp, line_height, fpad_y, selected);
        self.list_keys(Ghost(inp), focused, id, items.len(), line_height, list.height(), font_size, ipad_y, selected);
        self.ui.handle_events(id);
        (original != *selected, list, id)
    }
}

/// The label under which a select box keeps its pop-up list's state.
pub const SELECT_POP_LABEL: &'static str = "##select_pop";

/// A select box's layout and focus this frame, as its input processing needs them.
#[derive(Debug, Copy, Clone)]
pub struct SelectBox {
    /// The box's identifier.
    pub id: ElementId,
    /// The box's area.
    pub rect: Rect<i32>,
    /// The area of its list when expanded.
    pub list: Rect<i32>,
    /// Whether the box has keyboard focus.
    pub focused: bool,
    /// The height of a list line.
    pub line_height: i32,
    /// The theme's font size, clamped.
    pub font_size: i32,
    /// The vertical item padding.
    pub ipad_y: i32,
}

/// Whether the mouse is held down outside both the box and its list.
pub open spec fn clicked_outside(s: UiView, b: SelectBox) -> bool {
    &&& s.left_down()
    &&& !rect_contains(b.rect@, s.mouse_pos().0, s.mouse_pos().1)
    &&& !rect_contains(b.list@, s.mouse_pos().0, s.mouse_pos().1)
}

/// Whether the box was expanded, from its element state.
pub open spec fn was_expanded(s: UiView, id: ElementId) -> bool {
    match s.element(id) {
        Some(st) => st.expanded,
        None => false,
    }
}

/// Whether the box ends expanded: focus expands it, Escape or Return while focused toggles
/// it, and a press outside while expanded, or the button up without focus, collapses it.
pub open spec fn box_expanded(s: UiView, b: SelectBox) -> bool {
    let e0 = was_expanded(s, b.id);
    let toggled = b.focused && (s.keys.entered == Some(Key::Escape) || s.keys.entered == Some(Key::Return));
    let e1 = if b.focused { if toggled { !e0 } else { true } } else { e0 };
    if (e0 && clicked_outside(s, b)) || (!b.focused && !s.left_down()) { false } else { e1 }
}

/// Whether the box writes its expanded state this frame.
pub open spec fn box_writes_expanded(s: UiView, b: SelectBox) -> bool {
    b.focused || (was_expanded(s, b.id) && clicked_outside(s, b)) || (!b.focused && !s.left_down())
}

/// The selection after an arrow key while the box is focused, if one moved it.
pub open spec fn box_key_selection(s: UiView, b: SelectBox, selected: int, len: int) -> Option<int> {
    match s.keys.entered {
        Some(k) if b.focused && k != Key::Escape && k != Key::Return => key_selection(selected, k, len),
        _ => None,
    }
}

/// Whether a select box's arithmetic stays within `i32`: its box right of its label, the
/// cursor moving past it, its line height, and its list below it with room for at most
/// `displayed_count` (no more than 100) lines. The mouse is read only while the window has
/// input focus.
pub open spec fn select_box_fits(
    s: UiView,
    window_focused: bool,
    spacing: Spacing,
    font_size: u32,
    has_label: bool,
    displayed_count: usize,
    label_size: (i32, i32),
    item_size: (i32, i32),
) -> bool {
    let fpad = spacing.frame_pad@;
    let ipad = spacing.item_pad@;
    let fs = clamp_size_spec(font_size) as int;
    let disp = if displayed_count > 100 { 100 } else { displayed_count as int };
    let width = match s.next_width { Some(w) => w as int, None => item_size.0 as int };
    let x = if has_label { s.cursor@[0] + label_size.0 + ipad[0] } else { s.cursor@[0] as int };
    let bw = width + 2 * fpad[0];
    let bh = item_size.1 + 2 * fpad[1];
    let lh = fs + 2 * ipad[1];
    &&& has_label ==> i32::MIN <= s.cursor@[0] + label_size.0 <= i32::MAX
    &&& has_label ==> i32::MIN <= x <= i32::MAX
    &&& i32::MIN <= 2 * fpad[0] <= i32::MAX
    &&& i32::MIN <= bw <= i32::MAX
    &&& i32::MIN <= 2 * fpad[1] <= i32::MAX
    &&& i32::MIN <= bh <= i32::MAX
    &&& i32::MIN <= x + width <= i32::MAX
    &&& i32::MIN <= x + bw <= i32::MAX
    &&& i32::MIN <= x + bw - s.cursor@[0] <= i32::MAX
    &&& window_focused ==> s.mouse_fits()
    &&& advance_fits(s, spacing.frame_pad, spacing.item_pad, (x + bw - s.cursor@[0]) as i32, bh as i32)
    &&& i32::MIN <= 2 * ipad[1] <= i32::MAX
    &&& i32::MIN <= lh <= i32::MAX
    &&& i32::MIN <= s.cursor@[1] + item_size.1 <= i32::MAX
    &&& i32::MIN <= s.cursor@[1] + bh <= i32::MAX
    &&& i32::MIN <= s.cursor@[1] + bh + 1 <= i32::MAX
    &&& i32::MIN <= disp * lh <= i32::MAX
    &&& i32::MIN <= disp * lh + 2 * fpad[1] <= i32::MAX
}

impl PixState {
    /// Lays out a select box labelled `label` at the cursor, right of its label: the label's
    /// visible part measures `label_size`, and the box holds an item of `item_size` (or the
    /// width requested for the next element) plus frame padding. The box tries to take hover
    /// and focus (when the window has focus), and the cursor advances past it. Returns the
    /// layout its input processing needs: its list opens below it, with room for at most
    /// `displayed_count` (no more than 100) lines.
    pub fn select_box(
        &mut self,
        label: &str,
        displayed_count: usize,
        label_size: (i32, i32),
        item_size: (i32, i32),
    ) -> (b: SelectBox)
        requires
            old(self).wf(),
            select_box_fits(
                old(self).ui@,
                old(self).window_focused,
                old(self).theme.spacing,
                old(self).theme.font_size,
                visible_label(label@).len() > 0,
                displayed_count,
                label_size,
                item_size,
            ),
        ensures
            final(self).wf(),
            final(self).theme == old(self).theme,
            final(self).window_focused == old(self).window_focused,
            ({
                let s = old(self).ui@;
                let fpad = old(self).theme.spacing.frame_pad@;
                let ipad = old(self).theme.spacing.item_pad@;
                let fs = clamp_size_spec(old(self).theme.font_size) as int;
                let disp = if displayed_count > 100 { 100 } else { displayed_count as int };
                let id = ElementId(id_hash(label.spec_bytes(), top_seed(s)));
                let width = match s.next_width { Some(w) => w as int, None => item_size.0 as int };
                let x = if visible_label(label@).len() > 0 { s.cursor@[0] + label_size.0 + ipad[0] } else { s.cursor@[0] as int };
                let rect = (x as i32, s.cursor@[1], (width + 2 * fpad[0]) as i32, (item_size.1 + 2 * fpad[1]) as i32);
                let lh = fs + 2 * ipad[1];
                let s1 = UiView { next_width: None, ..s };
                let s2 = if old(self).window_focused { try_hover_step(s1, id, rect) } else { s1 };
                let s3 = if old(self).window_focused { focus_step(s2, id) } else { s2 };
                &&& b.id == id
                &&& b.rect@ == rect
                &&& b.list@ == (rect.0, (rect.1 + rect.3 + 1) as i32, rect.2, (disp * lh + 2 * fpad[1]) as i32)
                &&& b.focused == (old(self).window_focused && s3.is_focused(id))
                &&& b.line_height == lh
                &&& b.font_size == fs
                &&& b.ipad_y == ipad[1]
                &&& advanced(s3, old(self).theme.spacing.frame_pad, old(self).theme.spacing.item_pad, (rect.0 + rect.2 - s.cursor@[0]) as i32, rect.3, final(self).ui@)
            }),
    {
        let disp: usize = if displayed_count > MAX_DISPLAYED { MAX_DISPLAYED } else { displayed_count };
        let id = self.ui.get_id(label);
        let vis = get_label(label);
        let pos = self.ui.cursor();
        proof {
            pos.lemma_len();
            self.theme.spacing.frame_pad.lemma_len();
            self.theme.spacing.item_pad.lemma_len();
        }
        let font_size = clamp_size(self.theme.font_size);
        let fpad_x = self.theme.spacing.frame_pad.x();
        let fpad_y = self.theme.spacing.frame_pad.y();
        let ipad_x = self.theme.spacing.item_pad.x();
        let ipad_y = self.theme.spacing.item_pad.y();
        let width = match self.ui.take_next_width() {
            Some(w) => w,
            None => item_size.0,
        };
        let mut x = pos.x();
        if !vis.is_empty() {
            x = x + label_size.0 + ipad_x;
        }
        let rect = Rect::new(x, pos.y(), width + 2 * fpad_x, item_size.1 + 2 * fpad_y);
        let hovered = self.window_focused && self.ui.try_hover(id, &rect);
        let focused = self.window_focused && self.ui.try_focus(id);
        self.advance_cursor([x + width + 2 * fpad_x - pos.x(), item_size.1 + 2 * fpad_y]);
        let line_height = font_size + 2 * ipad_y;
        let list = Rect::new(x, pos.y() + item_size.1 + 2 * fpad_y + 1, width + 2 * fpad_x, disp as i32 * line_height + 2 * fpad_y);
        let _ = hovered;
        SelectBox { id, rect, list, focused, line_height, font_size, ipad_y }
    }
}

/// The identifier of a select box's pop-up list.
pub open spec fn pop_list_id(b: SelectBox) -> ElementId {
    ElementId(id_hash(SELECT_POP_LABEL.spec_bytes(), Some(b.id.0)))
}

/// Whether the frame's events are cleared: a focused box handled Escape, Return, or an arrow
/// key.
pub open spec fn box_clears(s: UiView, b: SelectBox, selected: int, len: int) -> bool {
    b.focused && match s.keys.entered {
        Some(k) => k == Key::Escape || k == Key::Return || key_selection(selected, k, len) is Some,
        None => false,
    }
}

/// The selection after a select box's input.
pub open spec fn box_selection(s: UiView, b: SelectBox, selected: int, len: int) -> int {
    match box_key_selection(s, b, selected, len) {
        Some(v) => v,
        None => selected,
    }
}

/// The UI state once a select box's input cleared the frame's events, if it did.
pub open spec fn box_cleared(s: UiView, b: SelectBox, selected: int, len: int) -> UiView {
    if box_clears(s, b, selected, len) { cleared(s) } else { s }
}

/// Whether a focused box toggles on Escape or Return.
pub open spec fn box_toggles(s: UiView, b: SelectBox) -> bool {
    b.focused && (s.keys.entered == Some(Key::Escape) || s.keys.entered == Some(Key::Return))
}

impl PixState {
    /// Handles a select box's input after its pop-up list had its turn: focus expands the box,
    /// Escape or Return while focused toggles it, an arrow key while focused moves the
    /// selection and snaps the pop-up list's scroll to it, and a press outside the box and its
    /// list while expanded, or the button up without focus, collapses it. Returns whether the
    /// selection differs from `original`, the selection before the pop-up list's turn.
    pub fn select_box_input(&mut self, b: SelectBox, selected: &mut usize, original: usize, len: usize) -> (changed: bool)
        requires
            old(self).wf(),
            old(self).ui@.mouse_fits(),
            0 < len,
            *old(selected) < len,
            rect_fits(b.rect@),
            rect_fits(b.list@),
            box_key_selection(old(self).ui@, b, *old(selected) as int, len as int) matches Some(v)
                ==> select_snap_fits(v, b.line_height as int, scroll_of(old(self).ui@, pop_list_id(b))[1] as int, b.list@.3 as int, b.font_size as int, b.ipad_y as int),
        ensures
            final(self).wf(),
            final(self).theme == old(self).theme,
            final(self).window_focused == old(self).window_focused,
            *final(selected) == box_selection(old(self).ui@, b, *old(selected) as int, len as int),
            changed == (*final(selected) != original),
            final(self).ui@ == (UiView {
                elements: final(self).ui@.elements,
                ..events_step(box_cleared(old(self).ui@, b, *old(selected) as int, len as int), b.id)
            }),
            box_writes_expanded(old(self).ui@, b) ==> (final(self).ui@.element(b.id) matches Some(st)
                && st.expanded == box_expanded(old(self).ui@, b)),
    {
        let ghost s0 = self.ui@;
        self.ui.push_id(b.id.0);
        let list_id = self.ui.get_id(SELECT_POP_LABEL);
        let scroll = self.ui.scroll(list_id);
        self.ui.pop_id();
        assert(s0.id_stack.push(b.id.0).drop_last() =~= s0.id_stack);
        assert(self.ui@ == s0);
        proof {
            scroll.lemma_len();
            self.ui.lemma_wf();
        }
        let expanded = self.ui.expanded(b.id);
        proof {
            lemma_promote_lookup(s0.elements, b.id.0, b.id.0);
            self.ui.lemma_wf();
        }
        self.box_focus_keys(b, list_id, scroll, expanded, selected, len);
        proof {
            self.ui.lemma_wf();
        }
        let mouse_down = self.ui.mouse_down(Mouse::Left);
        let m = self.ui.mouse_pos();
        let outside = mouse_down && !b.rect.contains_point(m) && !b.list.contains_point(m);
        if (expanded && outside) || (!b.focused && !mouse_down) {
            let ghost before = self.ui@.elements;
            self.ui.set_expanded(b.id, false);
            proof {
                lemma_element_set_then_read(before, self.ui@.elements, b.id, ElementField::Expanded);
            }
        }
        self.ui.handle_events(b.id);
        original != *selected
    }
}

impl PixState {
    /// The focused part of a select box's input: focus expands it, Escape or Return toggles it,
    /// and an arrow key moves the selection and snaps the pop-up list's scroll.
    #[verifier::rlimit(40)]
    fn box_focus_keys(
        &mut self,
        b: SelectBox,
        list_id: ElementId,
        scroll: Vector<i32, 2>,
        expanded: bool,
        selected: &mut usize,
        len: usize,
    )
        requires
            old(self).wf(),
            0 < len,
            *old(selected) < len,
            scroll@.len() == 2,
            box_key_selection(old(self).ui@, b, *old(selected) as int, len as int) matches Some(v)
                ==> select_snap_fits(v, b.line_height as int, scroll@[1] as int, b.list@.3 as int, b.font_size as int, b.ipad_y as int),
        ensures
            final(self).wf(),
            final(self).theme == old(self).theme,
            final(self).window_focused == old(self).window_focused,
            *final(selected) == box_selection(old(self).ui@, b, *old(selected) as int, len as int),
            final(self).ui@ == (UiView {
                elements: final(self).ui@.elements,
                ..box_cleared(old(self).ui@, b, *old(selected) as int, len as int)
            }),
            b.focused ==> (final(self).ui@.element(b.id) matches Some(st) && st.expanded == (if box_toggles(old(self).ui@, b) { !expanded } else { true })),
            !b.focused ==> final(self).ui@.elements == old(self).ui@.elements,
    {
        let ghost before0 = self.ui@.elements;
        proof {
            self.ui.lemma_wf();
        }
        if b.focused {
            self.ui.set_expanded(b.id, true);
            proof {
                lemma_element_set_then_read(before0, self.ui@.elements, b.id, ElementField::Expanded);
                self.ui.lemma_wf();
            }
            if let Some(key) = self.ui.key_entered() {
                if key == Key::Escape || key == Key::Return {
                    let ghost before = self.ui@.elements;
                    self.ui.set_expanded(b.id, !expanded);
                    proof {
                        lemma_element_set_then_read(before, self.ui@.elements, b.id, ElementField::Expanded);
                    }
                    self.ui.clear_entered();
                } else if let Some(sel) = list_key_selection(*selected, key, len) {
                    assert(sel < len);
                    *selected = sel;
                    self.ui.clear_entered();
                    let sel_y = sel as i32 * b.line_height;
                    let new_y = snap_scroll(scroll.y(), sel_y, b.line_height, b.list.height(), b.font_size, b.ipad_y);
                    if new_y != scroll.y() {
                        let ghost before = self.ui@.elements;
                        proof {
                            self.ui.lemma_wf();
                        }
                        let v = Vector::new([scroll.x(), new_y]);
                        self.ui.set_scroll(list_id, v);
                        proof {
                            lemma_element_set_then_read(before, self.ui@.elements, list_id, ElementField::Scroll);
                            let after = self.ui@.elements;
                            assert(before[0].0 == b.id.0);
                            if list_id.0 != b.id.0 {
                                assert(before.len() >= 1);
                                if has_key(before, list_id.0) {
                                    let i = key_index(before, list_id.0);
                                    assert(i != 0);
                                    assert(after[1] == before.remove(i)[0]);
                                } else if before.len() >= ELEMENT_CACHE_SIZE {
                                    assert(after[1] == before.drop_last()[0]);
                                } else {
                                    assert(after[1] == before[0]);
                                }
                                assert(after[1] == before[0]);
                                assert(has_key(after, b.id.0));
                            }
                        }
                    }
                }
            }
        }
    }
}

} // verus!
