//! Text widgets: text, bulleted text, menu entries and links, and the room they take.

use crate::arith::trunc_div;
use crate::engine::PixState;
use crate::gui::layout::{advance_fits, advance_state, advanced, lemma_advanced_state};
use crate::gui::state::{
    click_step, events_step, focus_step, id_hash, top_seed, try_hover_step, ElementId, UiView,
};
use crate::gui::theme::Spacing;
use crate::ops::{clamp_size, clamp_size_spec};
use crate::shape::{Point, PointI2, Rect};
use vstd::prelude::*;
use vstd::string::StringSliceAdditionalSpecFns;

verus! {

/// The room text takes: the size the renderer drew it at, each clamped to half of `i32::MAX`,
/// plus 3 pixels of padding right and below.
pub open spec fn text_room(rendered: (u32, u32)) -> (i32, i32) {
    ((clamp_size_spec(rendered.0) + 3) as i32, (clamp_size_spec(rendered.1) + 3) as i32)
}

/// The radius of a bullet: a fifth of the font size, clamped to half of `i32::MAX`.
pub open spec fn bullet_radius(font_size: u32) -> int {
    clamp_size_spec(font_size) / 5
}

/// The cursor a bullet's text starts at: right of the bullet by the item padding on each side.
pub open spec fn bullet_text_pos(cursor: PointI2, ipad: PointI2, font_size: u32) -> Seq<i32> {
    seq![(cursor@[0] + ipad@[0] + 2 * bullet_radius(font_size) + 2 * ipad@[0]) as i32, cursor@[1]]
}

/// Whether a menu entry's arithmetic stays within `i32`: its size with frame padding (which is
/// computed even when a width was requested), and the cursor moving past it.
pub open spec fn menu_fits(s: UiView, spacing: Spacing, text_size: (i32, i32)) -> bool {
    let fpad = spacing.frame_pad@;
    let a = menu_area(s, spacing.frame_pad, text_size);
    &&& i32::MIN <= 2 * fpad[0] <= i32::MAX
    &&& i32::MIN <= text_size.0 + 2 * fpad[0] <= i32::MAX
    &&& i32::MIN <= 2 * fpad[1] <= i32::MAX
    &&& i32::MIN <= text_size.1 + 2 * fpad[1] <= i32::MAX
    &&& s.mouse_fits()
    &&& advance_fits(s, spacing.frame_pad, spacing.item_pad, a.2, a.3)
}

/// Whether a link's arithmetic stays within `i32`: its area, and the cursor moving past its
/// text.
pub open spec fn link_fits(s: UiView, spacing: Spacing, text_size: (i32, i32), rendered: (u32, u32)) -> bool {
    let hx = trunc_div(spacing.item_pad@[0] as int, 2);
    let hy = trunc_div(spacing.item_pad@[1] as int, 2);
    &&& i32::MIN <= s.cursor@[0] - hx <= i32::MAX
    &&& i32::MIN <= s.cursor@[1] - hy <= i32::MAX
    &&& i32::MIN <= text_size.0 + 2 * hx <= i32::MAX
    &&& i32::MIN <= text_size.1 + 2 * hy <= i32::MAX
    &&& s.mouse_fits()
    &&& advance_fits(s, spacing.frame_pad, spacing.item_pad, text_room(rendered).0, text_room(rendered).1)
}

/// The area of a menu entry: at the cursor, as wide as the width requested for the next
/// element, else the text plus frame padding on each side, and as tall as the text plus frame
/// padding.
pub open spec fn menu_area(s: UiView, fpad: PointI2, text_size: (i32, i32)) -> (i32, i32, i32, i32) {
    let w = match s.next_width {
        Some(w) => w as int,
        None => text_size.0 + 2 * fpad@[0],
    };
    (s.cursor@[0], s.cursor@[1], w as i32, (text_size.1 + 2 * fpad@[1]) as i32)
}

/// The area of a link: its text at the cursor, grown on every side by half the item padding
/// (rounded toward zero).
pub open spec fn link_area(s: UiView, ipad: PointI2, text_size: (i32, i32)) -> (i32, i32, i32, i32) {
    let hx = trunc_div(ipad@[0] as int, 2);
    let hy = trunc_div(ipad@[1] as int, 2);
    (
        (s.cursor@[0] - hx) as i32,
        (s.cursor@[1] - hy) as i32,
        (text_size.0 + 2 * hx) as i32,
        (text_size.1 + 2 * hy) as i32,
    )
}

/// A click test that a disabled UI never passes.
pub open spec fn enabled_click(s: UiView, id: ElementId) -> (UiView, bool) {
    if !s.disabled {
        click_step(s, id)
    } else {
        (s, false)
    }
}

impl PixState {
    /// Lays out text the renderer drew at size `rendered`: the cursor moves past its room (see
    /// [`text_room`]), which is returned.
    pub fn text(&mut self, rendered: (u32, u32)) -> (size: (u32, u32))
        requires
            old(self).wf(),
            advance_fits(
                old(self).ui@,
                old(self).theme.spacing.frame_pad,
                old(self).theme.spacing.item_pad,
                text_room(rendered).0,
                text_room(rendered).1,
            ),
        ensures
            final(self).wf(),
            final(self).theme == old(self).theme,
            final(self).window_focused == old(self).window_focused,
            size.0 == text_room(rendered).0,
            size.1 == text_room(rendered).1,
            advanced(
                old(self).ui@,
                old(self).theme.spacing.frame_pad,
                old(self).theme.spacing.item_pad,
                text_room(rendered).0,
                text_room(rendered).1,
                final(self).ui@,
            ),
    {
        let width = clamp_size(rendered.0) + 3;
        let height = clamp_size(rendered.1) + 3;
        self.advance_cursor([width, height]);
        (width as u32, height as u32)
    }

    /// Lays out heading text the renderer drew, in the heading font at the theme's font size
    /// plus 6, at size `rendered`: as [`text`](Self::text) does.
    pub fn heading(&mut self, rendered: (u32, u32)) -> (size: (u32, u32))
        requires
            old(self).wf(),
            old(self).theme.font_size + 6 <= u32::MAX,
            advance_fits(
                old(self).ui@,
                old(self).theme.spacing.frame_pad,
                old(self).theme.spacing.item_pad,
                text_room(rendered).0,
                text_room(rendered).1,
            ),
        ensures
            final(self).wf(),
            final(self).theme == old(self).theme,
            final(self).window_focused == old(self).window_focused,
            size.0 == text_room(rendered).0,
            size.1 == text_room(rendered).1,
            advanced(
                old(self).ui@,
                old(self).theme.spacing.frame_pad,
                old(self).theme.spacing.item_pad,
                text_room(rendered).0,
                text_room(rendered).1,
                final(self).ui@,
            ),
    {
        self.text(rendered)
    }

    /// Lays out monospace text the renderer drew, in the monospace font at the theme's font
    /// size plus 2, at size `rendered`: as [`text`](Self::text) does.
    pub fn monospace(&mut self, rendered: (u32, u32)) -> (size: (u32, u32))
        requires
            old(self).wf(),
            old(self).theme.font_size + 2 <= u32::MAX,
            advance_fits(
                old(self).ui@,
                old(self).theme.spacing.frame_pad,
                old(self).theme.spacing.item_pad,
                text_room(rendered).0,
                text_room(rendered).1,
            ),
        ensures
            final(self).wf(),
            final(self).theme == old(self).theme,
            final(self).window_focused == old(self).window_focused,
            size.0 == text_room(rendered).0,
            size.1 == text_room(rendered).1,
            advanced(
                old(self).ui@,
                old(self).theme.spacing.frame_pad,
                old(self).theme.spacing.item_pad,
                text_room(rendered).0,
                text_room(rendered).1,
                final(self).ui@,
            ),
    {
        self.text(rendered)
    }

    /// Lays out bulleted text the renderer drew at size `rendered`: the text starts right of
    /// the bullet (see [`bullet_text_pos`]) and is laid out as by [`text`](Self::text). Returns
    /// its room, widened by the bullet's radius.
    pub fn bullet(&mut self, rendered: (u32, u32)) -> (size: (u32, u32))
        requires
            old(self).wf(),
            ({
                let s = old(self).ui@;
                let ipad = old(self).theme.spacing.item_pad;
                let fs = old(self).theme.font_size;
                let x = s.cursor@[0] + ipad@[0] + 2 * bullet_radius(fs) + 2 * ipad@[0];
                &&& i32::MIN <= s.cursor@[0] + ipad@[0] <= i32::MAX
                &&& i32::MIN <= s.cursor@[0] + ipad@[0] + 2 * bullet_radius(fs) <= i32::MAX
                &&& i32::MIN <= 2 * ipad@[0] <= i32::MAX
                &&& i32::MIN <= x <= i32::MAX
                &&& advance_fits(
                    UiView { cursor: Point::from_seq(bullet_text_pos(s.cursor, ipad, fs)), ..s },
                    old(self).theme.spacing.frame_pad,
                    ipad,
                    text_room(rendered).0,
                    text_room(rendered).1,
                )
            }),
        ensures
            final(self).wf(),
            final(self).theme == old(self).theme,
            final(self).window_focused == old(self).window_focused,
            size.0 == text_room(rendered).0 + bullet_radius(old(self).theme.font_size),
            size.1 == text_room(rendered).1,
            final(self).ui@ == advance_state(
                UiView {
                    cursor: Point::from_seq(
                        bullet_text_pos(old(self).ui@.cursor, old(self).theme.spacing.item_pad, old(self).theme.font_size),
                    ),
                    ..old(self).ui@
                },
                old(self).theme.spacing.frame_pad,
                old(self).theme.spacing.item_pad,
                text_room(rendered).0,
                text_room(rendered).1,
            ),
    {
        let ipad = self.theme.spacing.item_pad;
        let font_size = clamp_size(self.theme.font_size);
        let pos = self.cursor_pos();
        proof {
            ipad.lemma_len();
            pos.lemma_len();
        }
        let r = font_size / 5;
        let start = Point::new([pos.x() + ipad.x() + 2 * r + 2 * ipad.x(), pos.y()]);
        proof {
            Point::lemma_from_seq(start, start@);
            assert(start@ =~= bullet_text_pos(pos, ipad, self.theme.font_size));
        }
        self.set_cursor_pos(start);
        let ghost before = self.ui@;
        let (w, h) = self.text(rendered);
        proof {
            lemma_advanced_state(
                before,
                self.theme.spacing.frame_pad,
                ipad,
                text_room(rendered).0,
                text_room(rendered).1,
                self.ui@,
            );
        }
        (w + r as u32, h)
    }

    /// Handles a menu entry labelled `text`, whose visible text measures `text_size`: it takes
    /// the next width (see [`menu_area`]), tries to take hover and focus, handles Tab and click
    /// focus, and the cursor moves past it. Returns whether it was clicked, which a disabled UI
    /// never reports.
    pub fn menu(&mut self, text: &str, text_size: (i32, i32)) -> (clicked: bool)
        requires
            old(self).wf(),
            menu_fits(old(self).ui@, old(self).theme.spacing, text_size),
        ensures
            final(self).wf(),
            final(self).theme == old(self).theme,
            final(self).window_focused == old(self).window_focused,
            ({
                let s = old(self).ui@;
                let fpad = old(self).theme.spacing.frame_pad;
                let ipad = old(self).theme.spacing.item_pad;
                let id = ElementId(id_hash(text.spec_bytes(), top_seed(s)));
                let a = menu_area(s, fpad, text_size);
                let s2 = focus_step(try_hover_step(UiView { next_width: None, ..s }, id, a), id);
                let s3 = advance_state(events_step(s2, id), fpad, ipad, a.2, a.3);
                (final(self).ui@, clicked) == enabled_click(s3, id)
            }),
    {
        let id = self.ui.get_id(text);
        let pos = self.cursor_pos();
        let fpad = self.theme.spacing.frame_pad;
        proof {
            fpad.lemma_len();
            pos.lemma_len();
        }
        let default_width = text_size.0 + 2 * fpad.x();
        let width = match self.ui.take_next_width() {
            Some(w) => w,
            None => default_width,
        };
        let hover = Rect::new(pos.x(), pos.y(), width, text_size.1 + 2 * fpad.y());
        self.ui.try_hover(id, &hover);
        self.ui.try_focus(id);
        self.ui.handle_events(id);
        let ghost before = self.ui@;
        let size = [hover.width(), hover.height()];
        self.advance_cursor(size);
        proof {
            lemma_advanced_state(before, fpad, self.theme.spacing.item_pad, size@[0], size@[1], self.ui@);
        }
        !self.ui.disabled() && self.ui.was_clicked(id)
    }

    /// Handles a link labelled `text`, whose visible text measures `text_size` and which the
    /// renderer drew at size `rendered`: it tries to take hover over its area (see
    /// [`link_area`]) and focus, its text is laid out as by [`text`](Self::text), and it
    /// handles Tab and click focus. Returns whether it was clicked, which a disabled UI never
    /// reports.
    pub fn link(&mut self, text: &str, text_size: (i32, i32), rendered: (u32, u32)) -> (clicked: bool)
        requires
            old(self).wf(),
            link_fits(old(self).ui@, old(self).theme.spacing, text_size, rendered),
        ensures
            final(self).wf(),
            final(self).theme == old(self).theme,
            final(self).window_focused == old(self).window_focused,
            ({
                let s = old(self).ui@;
                let fpad = old(self).theme.spacing.frame_pad;
                let ipad = old(self).theme.spacing.item_pad;
                let id = ElementId(id_hash(text.spec_bytes(), top_seed(s)));
                let s2 = focus_step(try_hover_step(s, id, link_area(s, ipad, text_size)), id);
                let room = text_room(rendered);
                let s3 = events_step(advance_state(s2, fpad, ipad, room.0, room.1), id);
                (final(self).ui@, clicked) == enabled_click(s3, id)
            }),
    {
        let id = self.ui.get_id(text);
        let pos = self.cursor_pos();
        let ipad = self.theme.spacing.item_pad;
        proof {
            ipad.lemma_len();
            pos.lemma_len();
        }
        let half_x = ipad.x() / 2;
        let half_y = ipad.y() / 2;
        let area = Rect::new(pos.x() - half_x, pos.y() - half_y, text_size.0 + 2 * half_x, text_size.1 + 2 * half_y);
        self.ui.try_hover(id, &area);
        self.ui.try_focus(id);
        let ghost before = self.ui@;
        self.text(rendered);
        proof {
            lemma_advanced_state(
                before,
                self.theme.spacing.frame_pad,
                ipad,
                text_room(rendered).0,
                text_room(rendered).1,
                self.ui@,
            );
        }
        self.ui.handle_events(id);
        !self.ui.disabled() && self.ui.was_clicked(id)
    }
}

} // verus!
