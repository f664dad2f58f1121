//! Scroll bars, and scrolling a region whose content is larger than it.

use crate::arith::trunc_div;
use crate::engine::PixState;
use crate::error::PixResult;
use crate::event::Key;
use crate::gui::state::{
    element_set, events_step, focus_step, id_of_id, top_seed, try_hover_step, ElementField,
    ElementId, UiView,
};
use crate::gui::widgets::clamp_int;
use crate::shape::{rect_fits, Rect};
use crate::vector::{Vector, VectorI2};
use vstd::prelude::*;

verus! {

/// The smallest length of a scroll bar thumb.
pub const THUMB_MIN: i32 = 10;
/// How far one key press or wheel notch scrolls.
pub const SCROLL_SPEED: i32 = 3;

/// The direction a scroll bar moves in.
#[derive(Debug, Copy, Clone, PartialEq, Eq, Hash, Structural)]
pub enum ScrollDirection {
    Horizontal,
    Vertical,
}

/// The scroll value a key moves to: Up or Left (by direction) lowers it by the scroll speed,
/// not below 0; Down or Right raises it, not above `max`.
pub open spec fn scrollbar_key_value(value: int, max: int, key: Key, dir: ScrollDirection) -> Option<int> {
    match (key, dir) {
        (Key::Up, ScrollDirection::Vertical) | (Key::Left, ScrollDirection::Horizontal) => Some(
            if value - SCROLL_SPEED < 0 { 0 } else { value - SCROLL_SPEED },
        ),
        (Key::Down, ScrollDirection::Vertical) | (Key::Right, ScrollDirection::Horizontal) => Some(
            if value + SCROLL_SPEED > max { max } else { value + SCROLL_SPEED },
        ),
        _ => None,
    }
}

/// The scroll value the mouse points at along a bar.
pub open spec fn scrollbar_mouse_value(r: (i32, i32, i32, i32), mouse: (int, int), max: int, dir: ScrollDirection) -> int {
    match dir {
        ScrollDirection::Horizontal => trunc_div(clamp_int(mouse.0 - r.0, 0, r.2 as int) * max, r.2 as int),
        ScrollDirection::Vertical => trunc_div(clamp_int(mouse.1 - r.1, 0, r.3 as int) * max, r.3 as int),
    }
}

/// The wheel turn along a bar: sideways for a horizontal bar, and against the turn for a
/// vertical one.
pub open spec fn wheel_along(s: UiView, dir: ScrollDirection) -> int {
    match dir {
        ScrollDirection::Horizontal => s.mouse.xrel as int,
        ScrollDirection::Vertical => -s.mouse.yrel,
    }
}

/// The value a scroll bar holds after the key entered, if it is focused.
pub open spec fn scrollbar_key_moved(v0: int, max: int, key: Option<Key>, focused: bool, dir: ScrollDirection) -> int {
    match key {
        Some(k) if focused => match scrollbar_key_value(v0, max, k, dir) {
            Some(v) => v,
            None => v0,
        },
        _ => v0,
    }
}

/// The value a scroll bar moves to from `v0`: by a key while focused, then by the wheel while
/// hovered; while active, the mouse decides.
pub open spec fn scrollbar_new_value(
    v0: int,
    max: int,
    key: Option<Key>,
    focused: bool,
    hovered: bool,
    wheel: int,
    active: bool,
    r: (i32, i32, i32, i32),
    mouse: (int, int),
    dir: ScrollDirection,
) -> int {
    let v1 = scrollbar_key_moved(v0, max, key, focused, dir);
    let v2 = if hovered { v1 + SCROLL_SPEED * wheel } else { v1 };
    if active { scrollbar_mouse_value(r, mouse, max, dir) } else { v2 }
}

/// Computes the value a scroll bar moves to.
fn new_scroll_value(
    v0: i32,
    max: i32,
    key: Option<Key>,
    focused: bool,
    hovered: bool,
    wheel: i32,
    active: bool,
    rect: Rect<i32>,
    mouse: (i32, i32),
    dir: ScrollDirection,
) -> (v: i32)
    requires
        0 <= v0 <= max,
        0 < max,
        hovered ==> i32::MIN <= SCROLL_SPEED * wheel <= i32::MAX,
        hovered ==> i32::MIN <= scrollbar_key_moved(v0 as int, max as int, key, focused, dir) + SCROLL_SPEED * wheel <= i32::MAX,
        active ==> ({
            let len = match dir {
                ScrollDirection::Horizontal => rect@.2 as int,
                ScrollDirection::Vertical => rect@.3 as int,
            };
            len > 0 && len * max <= i32::MAX
        }),
    ensures
        v == scrollbar_new_value(v0 as int, max as int, key, focused, hovered, wheel as int, active, rect@, (mouse.0 as int, mouse.1 as int), dir),
{
    let mut new_value = v0;
    if focused {
        if let Some(key) = key {
            match (key, dir) {
                (Key::Up, ScrollDirection::Vertical) | (Key::Left, ScrollDirection::Horizontal) => {
                    new_value = if v0 - SCROLL_SPEED < 0 { 0 } else { v0 - SCROLL_SPEED };
                },
                (Key::Down, ScrollDirection::Vertical) | (Key::Right, ScrollDirection::Horizontal) => {
                    new_value = if v0 > max - SCROLL_SPEED { max } else { v0 + SCROLL_SPEED };
                },
                _ => {},
            }
        }
    }
    if hovered {
        new_value = new_value + SCROLL_SPEED * wheel;
    }
    if active {
        new_value = match dir {
            ScrollDirection::Horizontal => {
                let d = mouse.0 as i64 - rect.x() as i64;
                let mx: i64 = if d < 0 { 0 } else if d > rect.width() as i64 { rect.width() as i64 } else { d };
                proof {
                    assert(0 <= mx * max <= rect@.2 * max) by (nonlinear_arith)
                        requires 0 <= mx <= rect@.2, max > 0;
                }
                ((mx * max as i64) / rect.width() as i64) as i32
            },
            ScrollDirection::Vertical => {
                let d = mouse.1 as i64 - rect.y() as i64;
                let my: i64 = if d < 0 { 0 } else if d > rect.height() as i64 { rect.height() as i64 } else { d };
                proof {
                    assert(0 <= my * max <= rect@.3 * max) by (nonlinear_arith)
                        requires 0 <= my <= rect@.3, max > 0;
                }
                ((my * max as i64) / rect.height() as i64) as i32
            },
        };
    }
    new_value
}

/// The UI state a scroll bar leaves, its new value, and whether the value changed.
pub open spec fn scrollbar_spec(
    s: UiView,
    owner: ElementId,
    r: (i32, i32, i32, i32),
    max: int,
    value: int,
    dir: ScrollDirection,
) -> (UiView, int, bool) {
    let id = ElementId(id_of_id(owner.0, top_seed(s)));
    let s1 = try_hover_step(s, id, r);
    let hovered = s1.is_hovered(id);
    let s2 = focus_step(s1, id);
    let focused = s2.is_focused(id);
    let active = s2.is_active(id);
    let v0 = clamp_int(value, 0, max);
    let v3 = scrollbar_new_value(
        v0,
        max,
        s2.keys.entered,
        focused,
        hovered,
        wheel_along(s2, dir),
        active,
        r,
        s2.mouse_pos(),
        dir,
    );
    let s3 = events_step(s2, id);
    if v3 == v0 {
        (s3, v0, false)
    } else {
        (s3, clamp_int(v3, 0, max), true)
    }
}

/// Whether a scroll bar's arithmetic stays within `i32`: its range is not empty, the wheel
/// turn along it and the value it moves to while hovered, and the product of the bar's
/// length and the range while the mouse drags it.
pub open spec fn scrollbar_fits(s: UiView, owner: ElementId, r: (i32, i32, i32, i32), max: int, value: int, dir: ScrollDirection) -> bool {
    let id = ElementId(id_of_id(owner.0, top_seed(s)));
    let s1 = try_hover_step(s, id, r);
    let s2 = focus_step(s1, id);
    let len = match dir {
        ScrollDirection::Horizontal => r.2 as int,
        ScrollDirection::Vertical => r.3 as int,
    };
    let v1 = scrollbar_key_moved(clamp_int(value, 0, max), max, s2.keys.entered, s2.is_focused(id), dir);
    let wheel = wheel_along(s2, dir);
    &&& s.mouse_fits()
    &&& 0 < max
    &&& s1.is_hovered(id) ==> i32::MIN <= wheel <= i32::MAX
    &&& s1.is_hovered(id) ==> i32::MIN <= SCROLL_SPEED * wheel <= i32::MAX
    &&& s1.is_hovered(id) ==> i32::MIN <= v1 + SCROLL_SPEED * wheel <= i32::MAX
    &&& (s2.is_active(id) ==> len > 0 && len * max <= i32::MAX)
}

/// Whether scrolling element `id`, shown in `rect` with content `width` by `height`, stays
/// within `i32`.
pub open spec fn scroll_fits(s: UiView, ss: i32, id: ElementId, rect: (i32, i32, i32, i32), width: i32, height: i32) -> bool {
    let cur = match s.element(id) {
        Some(st) => st.scroll@,
        None => seq![0i32, 0i32],
    };
    let ymax = height - rect.3;
    let xmax = width - rect.2;
    let vbar = ((rect.0 + rect.2) as i32, rect.1, ss, rect.3);
    let hbar = (rect.0, (rect.1 + rect.3) as i32, rect.2, ss);
    let sv = if ymax > 0 { axis_spec(s, id, vbar, ymax, cur[1] as int, ScrollDirection::Vertical, 1).0 } else { s };
    &&& rect_fits(rect)
    &&& i32::MIN <= width - rect.2 <= i32::MAX
    &&& i32::MIN <= height - rect.3 <= i32::MAX
    &&& i32::MIN <= rect.2 + ss <= i32::MAX
    &&& i32::MIN <= rect.3 + ss <= i32::MAX
    &&& ymax > 0 ==> axis_fits(s, id, vbar, ymax, cur[1] as int, ScrollDirection::Vertical, 1)
    &&& xmax > 0 ==> axis_fits(sv, id, hbar, xmax, cur[0] as int, ScrollDirection::Horizontal, 2)
}

/// What scrolling element `id`, shown in `rect` with content `width` by `height` and scroll
/// bars `ss` wide, leaves: each axis that overflows gets a scroll bar along the far edge (see
/// [`axis_spec`]); the new scroll is stored when it changed; `out` is `rect` grown by the
/// scroll bar size.
pub open spec fn scrolled(
    s: UiView,
    ss: i32,
    id: ElementId,
    rect: (i32, i32, i32, i32),
    width: i32,
    height: i32,
    fin: UiView,
    out: Rect<i32>,
) -> bool {
    let cur = match s.element(id) {
        Some(st) => st.scroll@,
        None => seq![0i32, 0i32],
    };
    let ymax = height - rect.3;
    let xmax = width - rect.2;
    let vbar = ((rect.0 + rect.2) as i32, rect.1, ss, rect.3);
    let hbar = (rect.0, (rect.1 + rect.3) as i32, rect.2, ss);
    let (sv, ny) = if ymax > 0 {
        axis_spec(s, id, vbar, ymax, cur[1] as int, ScrollDirection::Vertical, 1)
    } else {
        (s, cur[1] as int)
    };
    let (sh, nx) = if xmax > 0 {
        axis_spec(sv, id, hbar, xmax, cur[0] as int, ScrollDirection::Horizontal, 2)
    } else {
        (sv, cur[0] as int)
    };
    &&& out@ == (rect.0, rect.1, (rect.2 + ss) as i32, (rect.3 + ss) as i32)
    &&& if nx == cur[0] && ny == cur[1] {
        fin == sh
    } else {
        &&& fin == (UiView { elements: fin.elements, ..sh })
        &&& element_set(sh.elements, fin.elements, id, ElementField::Scroll)
        &&& fin.elements[0].1.scroll@ == seq![nx as i32, ny as i32]
    }
}

/// Scrolling leaves the layout alone: the cursor, the line height and the column offset.
pub proof fn lemma_scrolled_keeps_layout(
    s: UiView,
    ss: i32,
    id: ElementId,
    rect: (i32, i32, i32, i32),
    width: i32,
    height: i32,
    fin: UiView,
    out: Rect<i32>,
)
    requires
        scrolled(s, ss, id, rect, width, height, fin, out),
    ensures
        fin.cursor == s.cursor,
        fin.pcursor == s.pcursor,
        fin.line_height == s.line_height,
        fin.pline_height == s.pline_height,
        fin.column_offset == s.column_offset,
        fin.id_stack == s.id_stack,
{
}

impl PixState {
    /// Handles a scroll bar in `rect` for a value in `0..=max`: the value is clamped, moved by
    /// the arrow keys while focused, by the wheel while hovered and by the mouse while active.
    /// Returns whether the value changed; it is clamped again when it did.
    pub fn scrollbar(
        &mut self,
        owner: ElementId,
        rect: Rect<i32>,
        max: i32,
        value: &mut i32,
        dir: ScrollDirection,
    ) -> (r: PixResult<bool>)
        requires
            old(self).wf(),
            scrollbar_fits(old(self).ui@, owner, rect@, max as int, *old(value) as int, dir),
        ensures
            final(self).wf(),
            final(self).theme == old(self).theme,
            final(self).window_focused == old(self).window_focused,
            ({
                let spec = scrollbar_spec(old(self).ui@, owner, rect@, max as int, *old(value) as int, dir);
                &&& final(self).ui@ == spec.0
                &&& *final(value) == spec.1
                &&& r == Ok::<bool, crate::error::PixError>(spec.2)
            }),
    {
        let id = self.ui.get_id_of(owner);
        let hovered = self.ui.try_hover(id, &rect);
        let focused = self.ui.try_focus(id);
        let active = self.ui.is_active(id);
        if *value < 0 {
            *value = 0;
        } else if *value > max {
            *value = max;
        }
        let (xrel, yrel) = self.ui.mouse_rel();
        let wheel = if hovered {
            match dir {
                ScrollDirection::Horizontal => xrel,
                ScrollDirection::Vertical => -yrel,
            }
        } else {
            0
        };
        let mouse = if active {
            let p = self.ui.mouse_pos();
            (p.x(), p.y())
        } else {
            (0, 0)
        };
        let new_value = new_scroll_value(
            *value,
            max,
            self.ui.key_entered(),
            focused,
            hovered,
            wheel,
            active,
            rect,
            mouse,
            dir,
        );
        self.ui.handle_events(id);
        if new_value == *value {
            Ok(false)
        } else {
            *value = if new_value < 0 { 0 } else if new_value > max { max } else { new_value };
            Ok(true)
        }
    }
}

/// The scroll along one axis before its scroll bar: the wheel moves it while the area is
/// hovered, and then the arrow keys while it is focused, each from the current scroll and
/// within `0..=max`.
pub open spec fn axis_before_bar(s: UiView, id: ElementId, max: int, cur: int, dir: ScrollDirection) -> int {
    let n1 = if s.is_hovered(id) {
        clamp_int(cur + SCROLL_SPEED * wheel_along(s, dir), 0, max)
    } else {
        cur
    };
    if s.is_focused(id) {
        match (s.keys.entered, dir) {
            (Some(Key::Up), ScrollDirection::Vertical) | (Some(Key::Left), ScrollDirection::Horizontal) => clamp_int(cur - SCROLL_SPEED, 0, max),
            (Some(Key::Down), ScrollDirection::Vertical) | (Some(Key::Right), ScrollDirection::Horizontal) => clamp_int(cur + SCROLL_SPEED, 0, max),
            _ => n1,
        }
    } else {
        n1
    }
}

/// The UI state after scrolling along one axis whose content overflows by `max`, and the new
/// scroll: the scroll before the bar, then the bar's own input under the seed `seed`.
pub open spec fn axis_spec(
    s: UiView,
    id: ElementId,
    bar: (i32, i32, i32, i32),
    max: int,
    cur: int,
    dir: ScrollDirection,
    seed: u64,
) -> (UiView, int) {
    let n = axis_before_bar(s, id, max, cur, dir);
    let pushed = UiView { id_stack: s.id_stack.push(seed), ..s };
    let bar_step = scrollbar_spec(pushed, id, bar, max, n, dir);
    let popped = UiView { id_stack: bar_step.0.id_stack.drop_last(), ..bar_step.0 };
    (popped, if bar_step.2 { bar_step.1 } else { n })
}

/// Whether the scroll along an axis stays within `i32`: the wheel turn while the area is
/// hovered, the key step while it is focused, and its scroll bar.
pub open spec fn axis_fits(s: UiView, id: ElementId, bar: (i32, i32, i32, i32), max: int, cur: int, dir: ScrollDirection, seed: u64) -> bool {
    let pushed = UiView { id_stack: s.id_stack.push(seed), ..s };
    &&& s.is_hovered(id) ==> i32::MIN <= wheel_along(s, dir) <= i32::MAX
    &&& s.is_hovered(id) ==> i32::MIN <= SCROLL_SPEED * wheel_along(s, dir) <= i32::MAX
    &&& s.is_hovered(id) ==> i32::MIN <= cur + SCROLL_SPEED * wheel_along(s, dir) <= i32::MAX
    &&& s.is_focused(id) ==> match (s.keys.entered, dir) {
        (Some(Key::Up), ScrollDirection::Vertical) | (Some(Key::Left), ScrollDirection::Horizontal) => i32::MIN <= cur - SCROLL_SPEED,
        (Some(Key::Down), ScrollDirection::Vertical) | (Some(Key::Right), ScrollDirection::Horizontal) => cur + SCROLL_SPEED <= i32::MAX,
        _ => true,
    }
    &&& scrollbar_fits(pushed, id, bar, max, axis_before_bar(s, id, max, cur, dir), dir)
}

impl PixState {
    /// Scrolls one axis of the element `id` whose content overflows by `max`, and returns the
    /// new scroll.
    fn scroll_axis(
        &mut self,
        id: ElementId,
        bar: Rect<i32>,
        max: i32,
        cur: i32,
        dir: ScrollDirection,
        seed: u64,
    ) -> (v: i32)
        requires
            old(self).wf(),
            axis_fits(old(self).ui@, id, bar@, max as int, cur as int, dir, seed),
        ensures
            final(self).wf(),
            final(self).theme == old(self).theme,
            final(self).window_focused == old(self).window_focused,
            (final(self).ui@, v as int) == axis_spec(old(self).ui@, id, bar@, max as int, cur as int, dir, seed),
    {
        let mut n = cur;
        if self.ui.is_hovered(id) {
            let (xrel, yrel) = self.ui.mouse_rel();
            let wheel = match dir {
                ScrollDirection::Horizontal => xrel,
                ScrollDirection::Vertical => -yrel,
            };
            let t = cur + SCROLL_SPEED * wheel;
            n = if t < 0 { 0 } else if t > max { max } else { t };
        }
        if self.ui.is_focused(id) {
            match (self.ui.key_entered(), dir) {
                (Some(Key::Up), ScrollDirection::Vertical) | (Some(Key::Left), ScrollDirection::Horizontal) => {
                    let t = cur - SCROLL_SPEED;
                    n = if t < 0 { 0 } else if t > max { max } else { t };
                },
                (Some(Key::Down), ScrollDirection::Vertical) | (Some(Key::Right), ScrollDirection::Horizontal) => {
                    let t = cur + SCROLL_SPEED;
                    n = if t < 0 { 0 } else if t > max { max } else { t };
                },
                _ => {},
            }
        }
        let mut value = n;
        self.ui.push_id(seed);
        let scrolled = self.scrollbar(id, bar, max, &mut value, dir);
        self.ui.pop_id();
        match scrolled {
            Ok(true) => value,
            _ => n,
        }
    }

    /// Scrolls the element `id` shown in `rect` whose content is `width` by `height`: each axis
    /// that overflows gets a scroll bar along the far edge, moved by the wheel, the arrow keys
    /// and the bar itself. The new scroll is stored when it changed. Returns `rect` grown by
    /// the scroll bar size.
    pub fn scroll(&mut self, id: ElementId, rect: Rect<i32>, width: i32, height: i32) -> (r: PixResult<Rect<i32>>)
        requires
            old(self).wf(),
            scroll_fits(old(self).ui@, old(self).theme.spacing.scroll_size, id, rect@, width, height),
        ensures
            final(self).wf(),
            final(self).theme == old(self).theme,
            final(self).window_focused == old(self).window_focused,
            r matches Ok(out) && scrolled(old(self).ui@, old(self).theme.spacing.scroll_size, id, rect@, width, height, final(self).ui@, out),
    {
        let scroll_size = self.theme.spacing.scroll_size;
        let scroll = self.ui.scroll(id);
        proof {
            scroll.lemma_len();
        }
        let sx = scroll.x();
        let sy = scroll.y();
        let xmax = width - rect.width();
        let ymax = height - rect.height();
        let mut ny = sy;
        let mut nx = sx;
        if ymax > 0 {
            let bar = Rect::new(rect.right(), rect.top(), scroll_size, rect.height());
            ny = self.scroll_axis(id, bar, ymax, sy, ScrollDirection::Vertical, 1);
        }
        if xmax > 0 {
            let bar = Rect::new(rect.left(), rect.bottom(), rect.width(), scroll_size);
            nx = self.scroll_axis(id, bar, xmax, sx, ScrollDirection::Horizontal, 2);
        }
        if nx != sx || ny != sy {
            let v = Vector::new([nx, ny]);
            assert(v@ =~= seq![nx, ny]);
            self.ui.set_scroll(id, v);
        }
        Ok(rect.offset_size([scroll_size, scroll_size]))
    }
}

} // verus!
