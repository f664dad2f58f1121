//! Buttons, check boxes, radio buttons and sliders placed in a given rectangle: what they
//! decide from the mouse and keyboard, and the UI state they leave behind.

use crate::arith::trunc_div;
use crate::engine::PixState;
use crate::error::{PixError, PixResult};
use crate::event::{Key, Mouse};
use crate::gui::state::{
    click_step, events_step, focus_step, hash_label, hash_rect, hover_step, id_hash, rect_hash,
    ElementId, UiView,
};
use crate::shape::{rect_contains, rect_fits, Contains, PointI2, Rect};
use vstd::prelude::*;
use vstd::string::StringSliceAdditionalSpecFns;

verus! {

/// The UI state after a widget with identifier `id` processes this frame's input, when the
/// mouse is `inside` its area: it is hovered (when the UI is enabled), tries to take focus, and
/// handles focus cycling.
pub open spec fn interact_step(s: UiView, id: ElementId, inside: bool) -> UiView {
    let s1 = if !s.disabled && inside {
        hover_step(s, id)
    } else {
        s
    };
    focus_step(s1, id)
}

/// The UI state after a clickable widget processes this frame's input, and whether it was
/// clicked.
pub open spec fn clickable_step(s: UiView, id: ElementId, inside: bool) -> (UiView, bool) {
    let s1 = events_step(interact_step(s, id, inside), id);
    if !s1.disabled {
        click_step(s1, id)
    } else {
        (s1, false)
    }
}

/// Whether the mouse lies in the circle centered on `(cx, cy)` with radius `r`.
pub open spec fn circle_contains(cx: int, cy: int, r: int, px: int, py: int) -> bool {
    (px - cx) * (px - cx) + (py - cy) * (py - cy) < r * r
}

/// The direction a slider moves in.
#[derive(Debug, Copy, Clone, PartialEq, Eq, Hash, Structural)]
pub enum Direction {
    Horizontal,
    Vertical,
}

/// How far one key press moves a slider.
pub const SCROLL_SPEED: i32 = 2;

/// `v` kept within `lo..=hi`.
pub open spec fn clamp_int(v: int, lo: int, hi: int) -> int {
    if v < lo {
        lo
    } else if v > hi {
        hi
    } else {
        v
    }
}

/// The slider value after a key press: Up or Left (by direction) lowers it by the scroll
/// speed, Down or Right raises it, within `0..=max`; any other key leaves it.
pub open spec fn slider_key_value(value: int, max: int, key: Key, dir: Direction) -> Option<int> {
    match (key, dir) {
        (Key::Up, Direction::Vertical) | (Key::Left, Direction::Horizontal) => Some(
            clamp_int(value - SCROLL_SPEED, 0, max),
        ),
        (Key::Down, Direction::Vertical) | (Key::Right, Direction::Horizontal) => Some(
            clamp_int(value + SCROLL_SPEED, 0, max),
        ),
        _ => None,
    }
}

/// The slider value the mouse points at: the mouse's distance along the slider, kept within
/// it, scaled from the slider's length to `0..=max` and rounded toward zero.
pub open spec fn slider_mouse_value(r: (i32, i32, i32, i32), mouse: (int, int), max: int, dir: Direction) -> int {
    match dir {
        Direction::Vertical => trunc_div(clamp_int(mouse.1 - r.1, 0, r.3 as int) * max, r.3 as int),
        Direction::Horizontal => trunc_div(clamp_int(mouse.0 - r.0, 0, r.2 as int) * max, r.2 as int),
    }
}

/// The identifier of a slider: its label's hash, offset by its position along its direction.
pub open spec fn slider_id(label: Seq<u8>, r: (i32, i32, i32, i32), dir: Direction) -> ElementId {
    let h = id_hash(label, None);
    let along = match dir {
        Direction::Horizontal => r.0,
        Direction::Vertical => r.1,
    };
    ElementId(((h + (along as u64)) % 0x1_0000_0000_0000_0000) as u64)
}

impl PixState {
    /// Draws a button in `rect` and returns `true` when it was clicked: released over it while
    /// hovered and active, or Return pressed while it is focused.
    pub fn button(&mut self, rect: Rect<i32>, label: &str) -> (clicked: bool)
        requires
            old(self).wf(),
            old(self).ui@.mouse_fits(),
        ensures
            final(self).wf(),
            final(self).theme == old(self).theme,
            final(self).window_focused == old(self).window_focused,
            ({
                let s = old(self).ui@;
                let id = ElementId(rect_hash(rect@));
                let inside = rect_contains(rect@, s.mouse_pos().0, s.mouse_pos().1);
                (final(self).ui@, clicked) == clickable_step(s, id, inside)
            }),
    {
        let id = hash_rect(&rect);
        let inside = rect.contains_point(self.ui.mouse_pos());
        self.interact(id, inside);
        self.ui.handle_events(id);
        if !self.ui.disabled() {
            self.ui.was_clicked(id)
        } else {
            false
        }
    }

    /// Hovers the widget `id` when the UI is enabled and the mouse is inside it, then lets it
    /// try to take focus.
    fn interact(&mut self, id: ElementId, inside: bool)
        requires
            old(self).wf(),
        ensures
            final(self).wf(),
            final(self).theme == old(self).theme,
            final(self).window_focused == old(self).window_focused,
            final(self).ui@ == interact_step(old(self).ui@, id, inside),
    {
        if !self.ui.disabled() && inside {
            self.ui.hover(id);
        }
        let _ = self.ui.try_focus(id);
    }

    /// Draws a checkbox in `rect`, its box 16 pixels square at the rectangle's left, centered on
    /// a label `label_height` pixels tall, and toggles `checked` when it is clicked. Returns
    /// whether it was clicked.
    pub fn checkbox(&mut self, rect: Rect<i32>, label: &str, checked: &mut bool, label_height: u32) -> (clicked: bool)
        requires
            old(self).wf(),
            old(self).ui@.mouse_fits(),
            rect_fits(rect@),
            label_height <= i32::MAX,
            i32::MIN <= rect@.1 + trunc_div(rect@.3 as int, 2) - trunc_div(label_height as int, 2) <= i32::MAX,
        ensures
            final(self).wf(),
            final(self).theme == old(self).theme,
            final(self).window_focused == old(self).window_focused,
            ({
                let s = old(self).ui@;
                let id = ElementId(rect_hash(rect@));
                let cy = rect@.1 + trunc_div(rect@.3 as int, 2) - trunc_div(label_height as int, 2);
                let inside = rect_contains((rect@.0, cy as i32, 16i32, 16i32), s.mouse_pos().0, s.mouse_pos().1);
                &&& (final(self).ui@, clicked) == clickable_step(s, id, inside)
                &&& *final(checked) == (if clicked { !*old(checked) } else { *old(checked) })
            }),
    {
        let id = hash_rect(&rect);
        let center = rect.center();
        proof {
            center.lemma_len();
        }
        let h = label_height as i32;
        let y = center.y() - h / 2;
        let checkbox = Rect::new(rect.x(), y, 16, 16);
        let inside = checkbox.contains_point(self.ui.mouse_pos());
        self.interact(id, inside);
        self.ui.handle_events(id);
        if !self.ui.disabled() {
            let clicked = self.ui.was_clicked(id);
            if clicked {
                *checked = !*checked;
            }
            clicked
        } else {
            false
        }
    }

    /// Draws a radio button, a circle of radius 9 at the rectangle's left centered on a label
    /// `label_height` pixels tall, and selects `index` when it is clicked. Returns whether it
    /// was clicked.
    pub fn radio(
        &mut self,
        rect: Rect<i32>,
        label: &str,
        selected: &mut usize,
        index: usize,
        label_height: u32,
    ) -> (clicked: bool)
        requires
            old(self).wf(),
            old(self).ui@.mouse_fits(),
            rect_fits(rect@),
            label_height <= i32::MAX,
            rect@.0 + 9 <= i32::MAX,
            i32::MIN <= rect@.1 + trunc_div(rect@.3 as int, 2) - trunc_div(label_height as int, 2) + 9 <= i32::MAX,
            i32::MIN <= rect@.1 + trunc_div(rect@.3 as int, 2) - trunc_div(label_height as int, 2) <= i32::MAX,
        ensures
            final(self).wf(),
            final(self).theme == old(self).theme,
            final(self).window_focused == old(self).window_focused,
            ({
                let s = old(self).ui@;
                let id = ElementId(id_hash(label.spec_bytes(), None));
                let cx = rect@.0 + 9;
                let cy = rect@.1 + trunc_div(rect@.3 as int, 2) - trunc_div(label_height as int, 2) + 9;
                let inside = circle_contains(cx, cy, 9, s.mouse_pos().0, s.mouse_pos().1);
                &&& (final(self).ui@, clicked) == clickable_step(s, id, inside)
                &&& *final(selected) == (if clicked { index } else { *old(selected) })
            }),
    {
        let id = hash_label(label, None);
        let radius: i32 = 9;
        let center = rect.center();
        proof {
            center.lemma_len();
        }
        let h = label_height as i32;
        let cx = rect.x() + radius;
        let cy = center.y() - h / 2 + radius;
        let mpos = self.ui.mouse_pos();
        let dx = mpos.x() as i128 - cx as i128;
        let dy = mpos.y() as i128 - cy as i128;
        proof {
            assert(0 <= dx * dx <= 0x1_0000_0000_0000_0000) by (nonlinear_arith)
                requires
                    -0x1_0000_0000 <= dx <= 0x1_0000_0000,
            ;
            assert(0 <= dy * dy <= 0x1_0000_0000_0000_0000) by (nonlinear_arith)
                requires
                    -0x1_0000_0000 <= dy <= 0x1_0000_0000,
            ;
        }
        let inside = dx * dx + dy * dy < 81;
        self.interact(id, inside);
        self.ui.handle_events(id);
        if !self.ui.disabled() {
            let clicked = self.ui.was_clicked(id);
            if clicked {
                *selected = index;
            }
            clicked
        } else {
            false
        }
    }
}

/// The identifier of a slider.
fn slider_hash(label: &str, rect: &Rect<i32>, dir: Direction) -> (id: ElementId)
    ensures
        id == slider_id(label.spec_bytes(), rect@, dir),
{
    let h = hash_label(label, None).0;
    let along = match dir {
        Direction::Horizontal => rect.x(),
        Direction::Vertical => rect.y(),
    };
    ElementId(h.wrapping_add(along as u64))
}

/// Whether the slider moved by the mouse at `mouse` has a positive length to clamp to and
/// divide by, and the mouse's distance along it, and that distance clamped to the slider and
/// scaled by `max`, stay within `i32`.
pub open spec fn slider_mouse_fits(r: (i32, i32, i32, i32), mouse: (int, int), max: int, dir: Direction) -> bool {
    let (d, len) = match dir {
        Direction::Vertical => (mouse.1 - r.1, r.3 as int),
        Direction::Horizontal => (mouse.0 - r.0, r.2 as int),
    };
    &&& len > 0
    &&& i32::MIN <= d <= i32::MAX
    &&& clamp_int(d, 0, len) * max <= i32::MAX
}

/// The slider value and whether it changed, after clamping it and applying a key entered while
/// focused and the mouse while active.
pub open spec fn slider_value_step(
    value: int,
    max: int,
    focused: bool,
    active: bool,
    key: Option<Key>,
    r: (i32, i32, i32, i32),
    mouse: (int, int),
    dir: Direction,
) -> (int, bool) {
    let v0 = clamp_int(value, 0, max);
    let (v1, c1) = match key {
        Some(k) if focused => match slider_key_value(v0, max, k, dir) {
            Some(v) => (v, true),
            None => (v0, false),
        },
        _ => (v0, false),
    };
    if active {
        let m = slider_mouse_value(r, mouse, max, dir);
        if m != v1 {
            (m, true)
        } else {
            (v1, c1)
        }
    } else {
        (v1, c1)
    }
}

impl PixState {
    /// Draws a slider in `rect` for a value in `0..=max` and returns whether the value changed:
    /// the value is first clamped; while focused the arrow keys along `dir` move it by 2; while
    /// active it follows the mouse. `max` must be positive.
    pub fn slider(
        &mut self,
        rect: Rect<i32>,
        label: &str,
        max: i32,
        value: &mut i32,
        dir: Direction,
    ) -> (r: PixResult<bool>)
        requires
            old(self).wf(),
            old(self).ui@.mouse_fits(),
            max > 0 ==> ({
                let s = old(self).ui@;
                let id = slider_id(label.spec_bytes(), rect@, dir);
                let inside = rect_contains(rect@, s.mouse_pos().0, s.mouse_pos().1);
                let s1 = interact_step(s, id, inside);
                s1.is_active(id) ==> slider_mouse_fits(rect@, s1.mouse_pos(), max as int, dir)
            }),
        ensures
            max <= 0 ==> r == Err::<bool, PixError>(PixError::InvalidValue) && *final(self) == *old(self)
                && *final(value) == *old(value),
            max > 0 ==> ({
                let s = old(self).ui@;
                let id = slider_id(label.spec_bytes(), rect@, dir);
                let inside = rect_contains(rect@, s.mouse_pos().0, s.mouse_pos().1);
                let s1 = interact_step(s, id, inside);
                let step = slider_value_step(
                    *old(value) as int,
                    max as int,
                    s1.is_focused(id),
                    s1.is_active(id),
                    s1.keys.entered,
                    rect@,
                    s1.mouse_pos(),
                    dir,
                );
                &&& r == Ok::<bool, PixError>(step.1)
                &&& *final(value) == step.0
                &&& final(self).ui@ == events_step(s1, id)
                &&& final(self).wf()
                &&& final(self).theme == old(self).theme
                &&& final(self).window_focused == old(self).window_focused
            }),
    {
        if max <= 0 {
            return Err(PixError::InvalidValue);
        }
        let id = slider_hash(label, &rect, dir);
        let inside = rect.contains_point(self.ui.mouse_pos());
        self.interact(id, inside);
        let focused = self.ui.is_focused(id);
        let active = self.ui.is_active(id);
        let mut changed = false;
        if *value > max {
            *value = max;
        }
        if *value < 0 {
            *value = 0;
        }
        if focused {
            if let Some(key) = self.ui.key_entered() {
                match (key, dir) {
                    (Key::Up, Direction::Vertical) | (Key::Left, Direction::Horizontal) => {
                        *value = if *value < i32::MIN + SCROLL_SPEED { i32::MIN } else { *value - SCROLL_SPEED };
                        if *value < 0 {
                            *value = 0;
                        }
                        changed = true;
                    },
                    (Key::Down, Direction::Vertical) | (Key::Right, Direction::Horizontal) => {
                        *value = if *value > i32::MAX - SCROLL_SPEED { i32::MAX } else { *value + SCROLL_SPEED };
                        if *value > max {
                            *value = max;
                        }
                        changed = true;
                    },
                    _ => {},
                }
            }
        }
        if active {
            let mpos = self.ui.mouse_pos();
            let new_value = match dir {
                Direction::Vertical => {
                    let d = mpos.y() as i64 - rect.y() as i64;
                    let my: i64 = if d < 0 { 0 } else if d > rect.height() as i64 { rect.height() as i64 } else { d };
                    proof {
                        assert(0 <= my * max <= rect@.3 * max) by (nonlinear_arith)
                            requires 0 <= my <= rect@.3, max > 0;
                    }
                    ((my * max as i64) / rect.height() as i64) as i32
                },
                Direction::Horizontal => {
                    let d = mpos.x() as i64 - rect.x() as i64;
                    let mx: i64 = if d < 0 { 0 } else if d > rect.width() as i64 { rect.width() as i64 } else { d };
                    proof {
                        assert(0 <= mx * max <= rect@.2 * max) by (nonlinear_arith)
                            requires 0 <= mx <= rect@.2, max > 0;
                    }
                    ((mx * max as i64) / rect.width() as i64) as i32
                },
            };
            if new_value != *value {
                *value = new_value;
                changed = true;
            }
        }
        self.ui.handle_events(id);
        Ok(changed)
    }
}

} // verus!
