//! The engine state that widgets and layout read and update: the UI state and the theme.

use crate::event::{Key, Mouse};
use crate::gui::state::{
    click_step, events_step, focus_step, hash_label, hash_rect, hover_step, id_hash, rect_hash,
    ElementId, UiState, UiView,
};
use crate::gui::theme::Theme;
use crate::ops::{clamp_size, clamp_size_spec};
use crate::shape::{rect_contains, rect_fits, Contains, Point, PointI2, Rect};
use vstd::prelude::*;

verus! {

/// The engine state: UI state, theme, and whether the window has input focus.
#[derive(Debug)]
pub struct PixState {
    /// UI state: cursor, input, and element state.
    pub ui: UiState,
    /// The theme widgets are drawn with.
    pub theme: Theme,
    /// Whether the window has input focus.
    pub window_focused: bool,
}

impl PixState {
    /// Whether the state is well formed.
    pub open spec fn wf(&self) -> bool {
        self.ui.wf()
    }

    /// A fresh engine state with the given theme, its window focused.
    pub fn new(theme: Theme) -> (s: Self)
        ensures
            s.wf(),
            s.theme == theme,
            s.window_focused,
            s.ui@.cursor@ == seq![0i32, 0i32],
            s.ui@.id_stack.len() == 0,
            !s.ui@.disabled,
            s.ui@.mouse_offset is None,
            s.ui@.mouse.pos == seq![0i32, 0i32],
            s.ui@.pmouse.pos == seq![0i32, 0i32],
            s.ui@.hovered is None,
            s.ui@.focused is None,
            s.ui@.active is None,
            s.ui@.last_size is None,
            s.ui@.elements.len() == 0,
    {
        PixState { ui: UiState::new(), theme, window_focused: true }
    }

    /// Whether the window has input focus.
    pub fn focused(&self) -> (b: bool)
        ensures
            b == self.window_focused,
    {
        self.window_focused
    }

    /// Push a new seed to the UI ID stack. Helps in generating unique widget identifiers that
    /// have the same text label.
    pub fn push_id(&mut self, id: u64)
        requires
            old(self).wf(),
        ensures
            final(self).wf(),
            final(self).theme == old(self).theme,
            final(self).window_focused == old(self).window_focused,
            final(self).ui@ == (UiView { id_stack: old(self).ui@.id_stack.push(id), ..old(self).ui@ }),
    {
        self.ui.push_id(id);
    }

    /// Pop a seed from the UI ID stack; an empty stack stays empty.
    pub fn pop_id(&mut self)
        requires
            old(self).wf(),
        ensures
            final(self).wf(),
            final(self).theme == old(self).theme,
            final(self).window_focused == old(self).window_focused,
            final(self).ui@ == (UiView {
                id_stack: if old(self).ui@.id_stack.len() > 0 {
                    old(self).ui@.id_stack.drop_last()
                } else {
                    old(self).ui@.id_stack
                },
                ..old(self).ui@
            }),
    {
        self.ui.pop_id();
    }

    /// Disables any UI elements drawn after this is called.
    pub fn disable(&mut self)
        requires
            old(self).wf(),
        ensures
            final(self).wf(),
            final(self).theme == old(self).theme,
            final(self).window_focused == old(self).window_focused,
            final(self).ui@ == (UiView { disabled: true, ..old(self).ui@ }),
    {
        self.ui.set_disabled(true);
    }

    /// Enables any UI elements drawn after this is called.
    pub fn no_disable(&mut self)
        requires
            old(self).wf(),
        ensures
            final(self).wf(),
            final(self).theme == old(self).theme,
            final(self).window_focused == old(self).window_focused,
            final(self).ui@ == (UiView { disabled: false, ..old(self).ui@ }),
    {
        self.ui.set_disabled(false);
    }

    /// Returns the current UI rendering position.
    pub fn cursor_pos(&self) -> (p: PointI2)
        ensures
            p == self.ui@.cursor,
    {
        self.ui.cursor()
    }

    /// Set the current UI rendering position.
    pub fn set_cursor_pos(&mut self, cursor: PointI2)
        requires
            old(self).wf(),
        ensures
            final(self).wf(),
            final(self).theme == old(self).theme,
            final(self).window_focused == old(self).window_focused,
            final(self).ui@ == (UiView { cursor, ..old(self).ui@ }),
    {
        self.ui.set_cursor(cursor);
    }

    /// Returns the current mouse position, relative to the current mouse offset.
    pub fn mouse_pos(&self) -> (p: PointI2)
        requires
            self.ui@.mouse_fits(),
        ensures
            p@.len() == 2,
            p@[0] == self.ui@.mouse_pos().0,
            p@[1] == self.ui@.mouse_pos().1,
    {
        self.ui.mouse_pos()
    }

    /// Returns whether a mouse button was clicked this frame.
    pub fn mouse_clicked(&self, btn: Mouse) -> (b: bool)
        ensures
            b == self.ui@.mouse.clicked.contains(btn),
    {
        self.ui.mouse_clicked(btn)
    }

    /// Returns whether a mouse button is held down.
    pub fn mouse_down(&self, btn: Mouse) -> (b: bool)
        ensures
            b == self.ui@.mouse.pressed.contains(btn),
    {
        self.ui.mouse_down(btn)
    }

    /// Returns whether the last item drawn is hovered with the mouse: the UI is enabled and the
    /// mouse lies in the item's bounds.
    pub fn hovered(&self) -> (b: bool)
        requires
            self.ui@.mouse_fits(),
        ensures
            b == match self.ui@.last_size {
                Some(r) => !self.ui@.disabled && rect_contains(
                    r@,
                    self.ui@.mouse_pos().0,
                    self.ui@.mouse_pos().1,
                ),
                None => false,
            },
    {
        match self.ui.last_size() {
            Some(rect) => !self.ui.disabled() && rect.contains_point(self.mouse_pos()),
            None => false,
        }
    }

    /// Returns whether the last item drawn was clicked with the left mouse button: the UI is
    /// enabled, the button was clicked this frame and the mouse lies in the item's bounds.
    pub fn clicked(&self) -> (b: bool)
        requires
            self.ui@.mouse_fits(),
        ensures
            b == match self.ui@.last_size {
                Some(r) => !self.ui@.disabled && self.ui@.mouse.clicked.contains(Mouse::Left)
                    && rect_contains(r@, self.ui@.mouse_pos().0, self.ui@.mouse_pos().1),
                None => false,
            },
    {
        match self.ui.last_size() {
            Some(rect) => !self.ui.disabled() && self.mouse_clicked(Mouse::Left)
                && rect.contains_point(self.mouse_pos()),
            None => false,
        }
    }

    /// Returns a reference to the current theme.
    pub fn theme(&self) -> (t: &Theme)
        ensures
            *t == self.theme,
    {
        &self.theme
    }

    /// Returns a mutable reference to the current theme.
    pub fn theme_mut(&mut self) -> (t: &mut Theme)
        ensures
            *t == old(self).theme,
            final(self).theme == *final(t),
            final(self).ui == old(self).ui,
            final(self).window_focused == old(self).window_focused,
    {
        &mut self.theme
    }

    /// Sets a new theme; the UI state is kept.
    pub fn set_theme(&mut self, theme: Theme)
        ensures
            final(self).theme == theme,
            final(self).ui == old(self).ui,
            final(self).window_focused == old(self).window_focused,
    {
        self.theme = theme;
    }
}

} // verus!
