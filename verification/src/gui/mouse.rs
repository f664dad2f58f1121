//! Mouse state management.

use crate::event::Mouse;
use crate::shape::{Point, PointI2};
use vstd::prelude::*;

verus! {

/// The time, in milliseconds, within which a second click counts as a double click.
pub const DOUBLE_CLICK_MS: u64 = 500;

/// The slot a button's state is kept in.
pub open spec fn button_slot(btn: Mouse) -> int {
    match btn {
        Mouse::Left => 0,
        Mouse::Middle => 1,
        Mouse::Right => 2,
        Mouse::Unhandled => 3,
    }
}

fn slot(btn: Mouse) -> (i: usize)
    ensures
        i == button_slot(btn),
{
    match btn {
        Mouse::Left => 0,
        Mouse::Middle => 1,
        Mouse::Right => 2,
        Mouse::Unhandled => 3,
    }
}

/// The buttons whose slot is set.
pub open spec fn button_set(flags: [bool; 4]) -> Set<Mouse> {
    Set::new(|m: Mouse| flags@[button_slot(m)])
}

/// The buttons whose slot holds a time, mapped to it.
pub open spec fn button_times(times: [Option<u64>; 4]) -> Map<Mouse, u64> {
    Map::new(|m: Mouse| times@[button_slot(m)] is Some, |m: Mouse| times@[button_slot(m)]->0)
}

/// Mouse state: position, relative motion or wheel turn this frame, the buttons held and
/// clicked, and when each button was last clicked and double clicked, in milliseconds.
#[derive(Debug, Copy, Clone)]
pub struct MouseState {
    pub pos: PointI2,
    pub xrel: i32,
    pub yrel: i32,
    pub pressed: [bool; 4],
    pub clicked: [bool; 4],
    pub last_clicked: [Option<u64>; 4],
    pub last_dbl_clicked: [Option<u64>; 4],
}

/// The abstract mouse state.
pub struct MouseStateView {
    pub pos: Seq<i32>,
    pub xrel: i32,
    pub yrel: i32,
    pub pressed: Set<Mouse>,
    pub clicked: Set<Mouse>,
    pub last_clicked: Map<Mouse, u64>,
    pub last_dbl_clicked: Map<Mouse, u64>,
}

impl View for MouseState {
    type V = MouseStateView;

    open spec fn view(&self) -> MouseStateView {
        MouseStateView {
            pos: self.pos@,
            xrel: self.xrel,
            yrel: self.yrel,
            pressed: button_set(self.pressed),
            clicked: button_set(self.clicked),
            last_clicked: button_times(self.last_clicked),
            last_dbl_clicked: button_times(self.last_dbl_clicked),
        }
    }
}

/// Whether a button was double clicked: it was double clicked no earlier than it was last
/// clicked, and within the double-click time of it.
pub open spec fn dbl_clicked_spec(m: MouseStateView, btn: Mouse) -> bool {
    &&& m.last_dbl_clicked.contains_key(btn)
    &&& m.last_clicked.contains_key(btn)
    &&& m.last_dbl_clicked[btn] >= m.last_clicked[btn]
    &&& m.last_dbl_clicked[btn] - m.last_clicked[btn] < DOUBLE_CLICK_MS
}

impl Default for MouseState {
    /// At the origin, with nothing held or clicked.
    fn default() -> (m: Self)
        ensures
            m@.pos == seq![0i32, 0i32],
            m@.xrel == 0,
            m@.yrel == 0,
            m@.pressed == Set::<Mouse>::empty(),
            m@.clicked == Set::<Mouse>::empty(),
            m@.last_clicked == Map::<Mouse, u64>::empty(),
            m@.last_dbl_clicked == Map::<Mouse, u64>::empty(),
    {
        let m = MouseState {
            pos: Point::new([0, 0]),
            xrel: 0,
            yrel: 0,
            pressed: [false; 4],
            clicked: [false; 4],
            last_clicked: [None; 4],
            last_dbl_clicked: [None; 4],
        };
        assert(m@.pos =~= seq![0i32, 0i32]);
        assert(m@.pressed =~= Set::<Mouse>::empty());
        assert(m@.clicked =~= Set::<Mouse>::empty());
        assert(m@.last_clicked =~= Map::<Mouse, u64>::empty());
        assert(m@.last_dbl_clicked =~= Map::<Mouse, u64>::empty());
        m
    }
}

impl MouseState {
    /// Returns if any [Mouse] button is held down.
    pub fn is_pressed(&self) -> (b: bool)
        ensures
            b == !self@.pressed.is_empty(),
    {
        proof {
            let s = self@.pressed;
            if self.pressed[0] {
                assert(s.contains(Mouse::Left));
            } else if self.pressed[1] {
                assert(s.contains(Mouse::Middle));
            } else if self.pressed[2] {
                assert(s.contains(Mouse::Right));
            } else if self.pressed[3] {
                assert(s.contains(Mouse::Unhandled));
            } else {
                assert(s =~= Set::<Mouse>::empty());
            }
        }
        self.pressed[0] || self.pressed[1] || self.pressed[2] || self.pressed[3]
    }

    /// Returns if a specific [Mouse] button was clicked this frame.
    pub fn was_clicked(&self, btn: Mouse) -> (b: bool)
        ensures
            b == self@.clicked.contains(btn),
    {
        self.clicked[slot(btn)]
    }

    /// Returns if a specific [Mouse] button was double clicked: it was double clicked no earlier
    /// than it was last clicked and within 500 milliseconds of it.
    pub fn was_dbl_clicked(&self, btn: Mouse) -> (b: bool)
        ensures
            b == dbl_clicked_spec(self@, btn),
    {
        let i = slot(btn);
        match (self.last_dbl_clicked[i], self.last_clicked[i]) {
            (Some(dbl), Some(clicked)) => dbl >= clicked && dbl - clicked < DOUBLE_CLICK_MS,
            _ => false,
        }
    }

    /// Returns if a specific [Mouse] button is held down.
    pub fn is_down(&self, btn: Mouse) -> (b: bool)
        ensures
            b == self@.pressed.contains(btn),
    {
        self.pressed[slot(btn)]
    }

    /// Records a button as held down.
    pub fn press(&mut self, btn: Mouse)
        ensures
            final(self)@ == (MouseStateView { pressed: old(self)@.pressed.insert(btn), ..old(self)@ }),
    {
        self.pressed[slot(btn)] = true;
        assert(button_set(self.pressed) =~= button_set(old(self).pressed).insert(btn));
    }

    /// Records a mouse wheel turn.
    pub fn wheel(&mut self, x: i32, y: i32)
        ensures
            final(self)@ == (MouseStateView { xrel: x, yrel: y, ..old(self)@ }),
    {
        self.xrel = x;
        self.yrel = y;
    }

    /// Records a button as no longer held.
    pub fn release(&mut self, btn: Mouse)
        ensures
            final(self)@ == (MouseStateView { pressed: old(self)@.pressed.remove(btn), ..old(self)@ }),
    {
        self.pressed[slot(btn)] = false;
        assert(button_set(self.pressed) =~= button_set(old(self).pressed).remove(btn));
    }

    /// Records a click of a button at `time`, in milliseconds.
    pub fn click(&mut self, btn: Mouse, time: u64)
        ensures
            final(self)@ == (MouseStateView {
                clicked: old(self)@.clicked.insert(btn),
                last_clicked: old(self)@.last_clicked.insert(btn, time),
                ..old(self)@
            }),
    {
        let i = slot(btn);
        self.clicked[i] = true;
        self.last_clicked[i] = Some(time);
        assert(button_set(self.clicked) =~= button_set(old(self).clicked).insert(btn));
        assert(button_times(self.last_clicked) =~= button_times(old(self).last_clicked).insert(
            btn,
            time,
        ));
    }

    /// Records a double click of a button at `time`, in milliseconds.
    pub fn dbl_click(&mut self, btn: Mouse, time: u64)
        ensures
            final(self)@ == (MouseStateView {
                last_dbl_clicked: old(self)@.last_dbl_clicked.insert(btn, time),
                ..old(self)@
            }),
    {
        self.last_dbl_clicked[slot(btn)] = Some(time);
        assert(button_times(self.last_dbl_clicked) =~= button_times(
            old(self).last_dbl_clicked,
        ).insert(btn, time));
    }

    /// When a button was last clicked, in milliseconds.
    pub fn last_clicked(&self, btn: Mouse) -> (t: Option<u64>)
        ensures
            t == (if self@.last_clicked.contains_key(btn) {
                Some(self@.last_clicked[btn])
            } else {
                None
            }),
    {
        self.last_clicked[slot(btn)]
    }

    /// When a button was last double clicked, in milliseconds.
    pub fn last_dbl_clicked(&self, btn: Mouse) -> (t: Option<u64>)
        ensures
            t == (if self@.last_dbl_clicked.contains_key(btn) {
                Some(self@.last_dbl_clicked[btn])
            } else {
                None
            }),
    {
        self.last_dbl_clicked[slot(btn)]
    }

    /// Records the cursor position.
    pub fn set_pos(&mut self, pos: PointI2)
        ensures
            final(self)@ == (MouseStateView { pos: pos@, ..old(self)@ }),
    {
        self.pos = pos;
    }

    /// Forgets the clicks and the relative motion of this frame.
    pub fn clear_frame(&mut self)
        ensures
            final(self)@ == (MouseStateView {
                clicked: Set::<Mouse>::empty(),
                xrel: 0,
                yrel: 0,
                ..old(self)@
            }),
    {
        self.clicked = [false; 4];
        self.xrel = 0;
        self.yrel = 0;
        assert(button_set(self.clicked) =~= Set::<Mouse>::empty());
    }
}

} // verus!
