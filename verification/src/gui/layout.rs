//! Layout: advancing the UI cursor past elements, and placing elements on one line.

use crate::engine::PixState;
use crate::gui::state::UiView;
use crate::ops::{clamp_size, clamp_size_spec};
use crate::shape::{Point, PointI2, Rect};
use vstd::prelude::*;

verus! {

/// Whether advancing past an element of size `(w, h)` stays within `i32`.
pub open spec fn advance_fits(ui: UiView, frame_pad: PointI2, item_pad: PointI2, w: i32, h: i32) -> bool {
    let lh = if ui.line_height >= h { ui.line_height } else { h };
    &&& i32::MIN <= ui.cursor@[0] + w <= i32::MAX
    &&& i32::MIN <= frame_pad@[0] + ui.column_offset <= i32::MAX
    &&& i32::MIN <= ui.cursor@[1] + lh <= i32::MAX
    &&& i32::MIN <= ui.cursor@[1] + lh + item_pad@[1] <= i32::MAX
}

/// The UI state after advancing past an element of size `(w, h)`: the previous cursor ends to
/// the right of the element, the cursor moves to the start of the next line (below the taller
/// of the line and the element, plus item padding), and the element's bounds are recorded.
pub open spec fn advanced(ui: UiView, frame_pad: PointI2, item_pad: PointI2, w: i32, h: i32, r: UiView) -> bool {
    let lh = if ui.line_height >= h { ui.line_height } else { h };
    &&& r.pcursor@ == seq![(ui.cursor@[0] + w) as i32, ui.cursor@[1]]
    &&& r.cursor@ == seq![(frame_pad@[0] + ui.column_offset) as i32, (ui.cursor@[1] + lh + item_pad@[1]) as i32]
    &&& r.pline_height == lh
    &&& r.line_height == 0
    &&& r.last_size matches Some(rect) && rect@ == (r.cursor@[0], r.cursor@[1], w, h)
    &&& r == (UiView {
        pcursor: r.pcursor,
        cursor: r.cursor,
        pline_height: r.pline_height,
        line_height: r.line_height,
        last_size: r.last_size,
        ..ui
    })
}

/// The UI state after advancing past an element of size `(w, h)`, as [`advanced`] pins it.
pub open spec fn advance_state(ui: UiView, frame_pad: PointI2, item_pad: PointI2, w: i32, h: i32) -> UiView {
    let lh = if ui.line_height >= h { ui.line_height } else { h };
    let cx = (frame_pad@[0] + ui.column_offset) as i32;
    let cy = (ui.cursor@[1] + lh + item_pad@[1]) as i32;
    UiView {
        pcursor: Point::from_seq(seq![(ui.cursor@[0] + w) as i32, ui.cursor@[1]]),
        cursor: Point::from_seq(seq![cx, cy]),
        pline_height: lh,
        line_height: 0,
        last_size: Some(Rect::from_tuple((cx, cy, w, h))),
        ..ui
    }
}

/// The state [`advanced`] describes is the one [`advance_state`] gives.
pub proof fn lemma_advanced_state(ui: UiView, frame_pad: PointI2, item_pad: PointI2, w: i32, h: i32, r: UiView)
    requires
        advanced(ui, frame_pad, item_pad, w, h, r),
    ensures
        r == advance_state(ui, frame_pad, item_pad, w, h),
{
    let a = advance_state(ui, frame_pad, item_pad, w, h);
    let lh = if ui.line_height >= h { ui.line_height } else { h };
    let cx = (frame_pad@[0] + ui.column_offset) as i32;
    let cy = (ui.cursor@[1] + lh + item_pad@[1]) as i32;
    Point::lemma_from_seq(r.pcursor, seq![(ui.cursor@[0] + w) as i32, ui.cursor@[1]]);
    Point::lemma_from_seq(r.cursor, seq![cx, cy]);
    let rect = r.last_size->0;
    Rect::lemma_from_tuple((cx, cy, w, h), rect);
}

impl PixState {
    /// Advance the current UI cursor position past an element of the given size.
    pub fn advance_cursor(&mut self, size: [i32; 2])
        requires
            old(self).wf(),
            advance_fits(
                old(self).ui@,
                old(self).theme.spacing.frame_pad,
                old(self).theme.spacing.item_pad,
                size@[0],
                size@[1],
            ),
        ensures
            final(self).wf(),
            final(self).theme == old(self).theme,
            final(self).window_focused == old(self).window_focused,
            advanced(
                old(self).ui@,
                old(self).theme.spacing.frame_pad,
                old(self).theme.spacing.item_pad,
                size@[0],
                size@[1],
                final(self).ui@,
            ),
    {
        let pos = self.ui.cursor();
        let padx = self.theme.spacing.frame_pad.x();
        let pady = self.theme.spacing.item_pad.y();
        let offset_x = self.ui.column_offset();
        proof {
            pos.lemma_len();
            self.theme.spacing.frame_pad.lemma_len();
            self.theme.spacing.item_pad.lemma_len();
        }
        let pcursor = Point::new([pos.x() + size[0], pos.y()]);
        let (_, line_height) = self.ui.line_heights();
        let line_height = if line_height >= size[1] { line_height } else { size[1] };
        let cursor = Point::new([padx + offset_x, pos.y() + line_height + pady]);
        let last = Rect::new(padx + offset_x, pos.y() + line_height + pady, size[0], size[1]);
        self.ui.set_layout(pcursor, cursor, line_height, 0, Some(last));
        assert(pcursor@ =~= seq![(pos@[0] + size@[0]) as i32, pos@[1]]);
        assert(cursor@ =~= seq![(padx + offset_x) as i32, (pos@[1] + line_height + pady) as i32]);
    }

    /// Places the next element on the same line as the last one, `offset` pixels further (none
    /// when `offset` is `None`).
    pub fn same_line(&mut self, offset: Option<[i32; 2]>)
        requires
            old(self).wf(),
            ({
                let o = match offset {
                    Some(o) => o@,
                    None => seq![0i32, 0i32],
                };
                &&& i32::MIN <= old(self).ui@.pcursor@[0] + old(self).theme.spacing.item_pad@[0] <= i32::MAX
                &&& i32::MIN <= old(self).ui@.pcursor@[0] + old(self).theme.spacing.item_pad@[0] + o[0] <= i32::MAX
                &&& i32::MIN <= old(self).ui@.pcursor@[1] + o[1] <= i32::MAX
            }),
        ensures
            final(self).wf(),
            final(self).theme == old(self).theme,
            final(self).window_focused == old(self).window_focused,
            ({
                let ui = old(self).ui@;
                let o = match offset {
                    Some(o) => o@,
                    None => seq![0i32, 0i32],
                };
                &&& final(self).ui@.cursor@ == seq![
                    (ui.pcursor@[0] + old(self).theme.spacing.item_pad@[0] + o[0]) as i32,
                    (ui.pcursor@[1] + o[1]) as i32,
                ]
                &&& final(self).ui@ == (UiView {
                    cursor: final(self).ui@.cursor,
                    line_height: ui.pline_height,
                    ..ui
                })
            }),
    {
        let pos = self.ui.pcursor();
        let offset = match offset {
            Some(o) => o,
            None => [0, 0],
        };
        let item_pad = self.theme.spacing.item_pad;
        proof {
            pos.lemma_len();
            item_pad.lemma_len();
        }
        let cursor = Point::new([pos.x() + item_pad.x() + offset[0], pos.y() + offset[1]]);
        let (pline_height, _) = self.ui.line_heights();
        let last_size = self.ui.last_size();
        self.ui.set_layout(pos, cursor, pline_height, pline_height, last_size);
        proof {
            let o = offset@;
            assert(cursor@ =~= seq![
                (pos@[0] + item_pad@[0] + o[0]) as i32,
                (pos@[1] + o[1]) as i32,
            ]);
        }
    }

    /// Make the next element the given width, clamped to half of `i32::MAX`.
    pub fn next_width(&mut self, width: u32)
        requires
            old(self).wf(),
        ensures
            final(self).wf(),
            final(self).theme == old(self).theme,
            final(self).window_focused == old(self).window_focused,
            final(self).ui@ == (UiView {
                next_width: Some(clamp_size_spec(width)),
                ..old(self).ui@
            }),
    {
        self.ui.set_next_width(Some(clamp_size(width)));
    }

    /// Draw a newline worth of spacing: advances the cursor past an element as wide as the UI,
    /// `ui_width`, and as tall as a line of text, `line_height`.
    pub fn spacing(&mut self, ui_width: i32, line_height: i32)
        requires
            old(self).wf(),
            advance_fits(
                old(self).ui@,
                old(self).theme.spacing.frame_pad,
                old(self).theme.spacing.item_pad,
                ui_width,
                line_height,
            ),
        ensures
            final(self).wf(),
            final(self).theme == old(self).theme,
            final(self).window_focused == old(self).window_focused,
            advanced(
                old(self).ui@,
                old(self).theme.spacing.frame_pad,
                old(self).theme.spacing.item_pad,
                ui_width,
                line_height,
                final(self).ui@,
            ),
    {
        self.advance_cursor([ui_width, line_height]);
    }

    /// Returns the line a separator is drawn along, as `[x1, y1, x2, y2]`, and advances the
    /// cursor past it: the line runs from the frame padding to `ui_width`, halfway down a line
    /// of the theme's font size.
    pub fn separator(&mut self, ui_width: i32) -> (line: [i32; 4])
        requires
            old(self).wf(),
            old(self).ui@.cursor@[1] + clamp_size_spec(old(self).theme.font_size) / 2 <= i32::MAX,
            advance_fits(
                old(self).ui@,
                old(self).theme.spacing.frame_pad,
                old(self).theme.spacing.item_pad,
                ui_width,
                clamp_size_spec(old(self).theme.font_size),
            ),
        ensures
            final(self).wf(),
            final(self).theme == old(self).theme,
            final(self).window_focused == old(self).window_focused,
            ({
                let h = clamp_size_spec(old(self).theme.font_size);
                let y = (old(self).ui@.cursor@[1] + h / 2) as i32;
                &&& line@ == seq![old(self).theme.spacing.frame_pad@[0], y, ui_width, y]
                &&& advanced(
                    old(self).ui@,
                    old(self).theme.spacing.frame_pad,
                    old(self).theme.spacing.item_pad,
                    ui_width,
                    h,
                    final(self).ui@,
                )
            }),
    {
        let pos = self.ui.cursor();
        let pad = self.theme.spacing.frame_pad;
        proof {
            pos.lemma_len();
            pad.lemma_len();
        }
        let height = clamp_size(self.theme.font_size);
        let y = pos.y() + height / 2;
        let line = [pad.x(), y, ui_width, y];
        self.advance_cursor([ui_width, height]);
        assert(line@ =~= seq![pad@[0], y, ui_width, y]);
        line
    }
}

impl PixState {
    /// Indents the next element by the width of four spaces: advances the cursor past
    /// `space_size` (the size of four spaces of text), then places the next element on the
    /// same line.
    pub fn indent(&mut self, space_size: [i32; 2])
        requires
            old(self).wf(),
            advance_fits(
                old(self).ui@,
                old(self).theme.spacing.frame_pad,
                old(self).theme.spacing.item_pad,
                space_size@[0],
                space_size@[1],
            ),
            i32::MIN <= old(self).ui@.cursor@[0] + space_size@[0] + old(self).theme.spacing.item_pad@[0] <= i32::MAX,
        ensures
            final(self).wf(),
            final(self).theme == old(self).theme,
            final(self).window_focused == old(self).window_focused,
            ({
                let ui = old(self).ui@;
                let lh = if ui.line_height >= space_size@[1] { ui.line_height } else { space_size@[1] };
                let pcursor_x = (ui.cursor@[0] + space_size@[0]) as i32;
                &&& final(self).ui@.cursor@ == seq![
                    (pcursor_x + old(self).theme.spacing.item_pad@[0]) as i32,
                    ui.cursor@[1],
                ]
                &&& final(self).ui@.pcursor@ == seq![pcursor_x, ui.cursor@[1]]
                &&& final(self).ui@.line_height == lh
                &&& final(self).ui@.pline_height == lh
                &&& final(self).ui@ == (UiView {
                    cursor: final(self).ui@.cursor,
                    pcursor: final(self).ui@.pcursor,
                    line_height: lh,
                    pline_height: lh,
                    last_size: final(self).ui@.last_size,
                    ..ui
                })
                &&& final(self).ui@.last_size matches Some(r) && r@.2 == space_size@[0] && r@.3 == space_size@[1]
            }),
    {
        self.advance_cursor(space_size);
        self.same_line(None);
    }
}

} // verus!
