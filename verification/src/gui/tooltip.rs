//! Tooltips: boxes drawn next to the mouse, kept inside the window.

use crate::engine::PixState;
use crate::gui::layout::{advance_fits, advance_state, lemma_advanced_state};
use crate::gui::state::{
    events_step, focus_step, get_label, id_hash, top_seed, try_hover_step, visible_label, ElementId,
    UiView,
};
use crate::gui::theme::Spacing;
use crate::ops::{clamp_dimensions, clamp_size, clamp_size_spec};
use crate::shape::{rect_contains, Contains, Point, PointI2, Rect};
use vstd::prelude::*;
use vstd::string::StringSliceAdditionalSpecFns;
use vstd::utf8::encode_utf8;

verus! {

/// How far right and down of the requested corner a tooltip is drawn.
pub const TOOLTIP_OFFSET: i32 = 15;

/// Whether every step of placing tooltip `r` inside a `win_w` by `win_h` window, with padding
/// `pad` and the mouse at `mouse`, stays within `i32`.
pub open spec fn tooltip_fits(r: (i32, i32, i32, i32), win_w: int, win_h: int, pad: Seq<i32>, mouse: Seq<i32>) -> bool {
    let x = r.0 + TOOLTIP_OFFSET;
    let y = r.1 + TOOLTIP_OFFSET;
    &&& i32::MIN <= x <= i32::MAX
    &&& i32::MIN <= y <= i32::MAX
    &&& i32::MIN <= x + r.2 <= i32::MAX
    &&& i32::MIN <= y + r.3 <= i32::MAX
    &&& x + r.2 > win_w ==> i32::MIN <= x + r.2 - win_w + pad[0] <= i32::MAX
    &&& x + r.2 > win_w ==> i32::MIN <= x - (x + r.2 - win_w + pad[0]) <= i32::MAX
    &&& y + r.3 > win_h ==> {
        let y2 = y - (y + r.3 - win_h + pad[1]);
        &&& i32::MIN <= y + r.3 - win_h + pad[1] <= i32::MAX
        &&& i32::MIN <= y2 <= i32::MAX
        &&& i32::MIN <= mouse[1] - pad[1] <= i32::MAX
        &&& i32::MIN <= mouse[1] - pad[1] - r.3 <= i32::MAX
    }
}

/// Where tooltip `r` is drawn: moved right and down by [`TOOLTIP_OFFSET`]; moved left when it
/// passes the right edge of the `win_w` by `win_h` window, so that it ends `pad[0]` short of
/// it; moved up likewise when it passes the bottom edge, and then, when the mouse at `mouse`
/// lies inside it, moved so that it ends `pad[1]` above the mouse.
pub open spec fn tooltip_placement(r: (i32, i32, i32, i32), win_w: int, win_h: int, pad: Seq<i32>, mouse: Seq<i32>) -> (int, int, int, int) {
    let x = r.0 + TOOLTIP_OFFSET;
    let y = r.1 + TOOLTIP_OFFSET;
    let x2 = if x + r.2 > win_w {
        x - (x + r.2 - win_w + pad[0])
    } else {
        x
    };
    let y2 = if y + r.3 > win_h {
        let y_up = y - (y + r.3 - win_h + pad[1]);
        if x2 <= mouse[0] < x2 + r.2 && y_up <= mouse[1] < y_up + r.3 {
            mouse[1] - pad[1] - r.3
        } else {
            y_up
        }
    } else {
        y
    };
    (x2, y2, r.2 as int, r.3 as int)
}

/// Places tooltip `rect` inside a window of `win_width` by `win_height` pixels: see
/// [`tooltip_placement`].
pub fn tooltip_rect(rect: Rect<i32>, win_width: u32, win_height: u32, pad: PointI2, mouse: PointI2) -> (r: Rect<i32>)
    requires
        mouse@.len() == 2,
        tooltip_fits(
            rect@,
            clamp_size_spec(win_width) as int,
            clamp_size_spec(win_height) as int,
            pad@,
            mouse@,
        ),
    ensures
        ({
            let p = tooltip_placement(
                rect@,
                clamp_size_spec(win_width) as int,
                clamp_size_spec(win_height) as int,
                pad@,
                mouse@,
            );
            r@.0 == p.0 && r@.1 == p.1 && r@.2 == p.2 && r@.3 == p.3
        }),
{
    proof {
        pad.lemma_len();
    }
    let (win_width, win_height) = clamp_dimensions(win_width, win_height);
    let mut r = rect.offset([TOOLTIP_OFFSET, TOOLTIP_OFFSET]);
    if r.right() > win_width {
        let offset = (r.right() - win_width) + pad.x();
        r = r.offset([-offset, 0]);
    }
    if r.bottom() > win_height {
        let offset = (r.bottom() - win_height) + pad.y();
        r = r.offset([0, -offset]);
        if r.contains_point(mouse) {
            r = Rect::new(r.x(), mouse.y() - pad.y() - r.height(), r.width(), r.height());
        }
    }
    r
}

/// The area a help marker takes: at the cursor, raised by the item padding, as large as the
/// marker glyph (`marker_size`) plus item padding on each side.
pub open spec fn marker_area(s: UiView, ipad: Seq<i32>, marker_size: (u32, u32)) -> (int, int, int, int) {
    (
        s.cursor@[0] as int,
        s.cursor@[1] - ipad[1],
        clamp_size_spec(marker_size.0) + 2 * ipad[0],
        clamp_size_spec(marker_size.1) + 2 * ipad[1],
    )
}

/// The rectangle a focused help marker's tooltip asks for: 10 pixels up and left of the
/// marker's far corner, as large as its text (`text_size`) plus frame padding.
pub open spec fn marker_tip(a: (int, int, int, int), fpad: Seq<i32>, text_size: (u32, u32)) -> (i32, i32, i32, i32) {
    (
        (a.0 + a.2 - 10) as i32,
        (a.1 + a.3 - 10) as i32,
        (clamp_size_spec(text_size.0) + 2 * fpad[0]) as i32,
        (clamp_size_spec(text_size.1) + 2 * fpad[1]) as i32,
    )
}

/// The rectangle a hovered help marker's tooltip asks for: at the mouse, as large as its text
/// plus frame padding.
pub open spec fn mouse_tip(m: (int, int), fpad: Seq<i32>, text_size: (u32, u32)) -> (i32, i32, i32, i32) {
    (
        m.0 as i32,
        m.1 as i32,
        (clamp_size_spec(text_size.0) + 2 * fpad[0]) as i32,
        (clamp_size_spec(text_size.1) + 2 * fpad[1]) as i32,
    )
}

/// The UI state after help marker `id` over `area` tries to take hover and then focus.
pub open spec fn marker_interact(s: UiView, id: ElementId, area: (int, int, int, int)) -> UiView {
    focus_step(try_hover_step(s, id, (area.0 as i32, area.1 as i32, area.2 as i32, area.3 as i32)), id)
}

/// Whether a help marker's arithmetic, and that of the tooltip it shows, stays within `i32`.
pub open spec fn marker_fits(
    s: UiView,
    spacing: Spacing,
    label: Seq<u8>,
    marker_size: (u32, u32),
    text_size: (u32, u32),
    win_width: u32,
    win_height: u32,
) -> bool {
    let fpad = spacing.frame_pad@;
    let ipad = spacing.item_pad@;
    let id = ElementId(id_hash(label, top_seed(s)));
    let a = marker_area(s, ipad, marker_size);
    let s2 = marker_interact(s, id, a);
    let focused = s2.is_focused(id);
    let hovered = s2.is_hovered(id);
    let m = s.mouse_pos();
    let ww = clamp_size_spec(win_width) as int;
    let wh = clamp_size_spec(win_height) as int;
    let tw = clamp_size_spec(text_size.0) + 2 * fpad[0];
    let th = clamp_size_spec(text_size.1) + 2 * fpad[1];
    &&& i32::MIN <= a.1 <= i32::MAX
    &&& i32::MIN <= 2 * ipad[0] <= i32::MAX
    &&& i32::MIN <= a.2 <= i32::MAX
    &&& i32::MIN <= 2 * ipad[1] <= i32::MAX
    &&& i32::MIN <= a.3 <= i32::MAX
    &&& i32::MIN <= a.3 - ipad[1] <= i32::MAX
    &&& s.mouse_fits()
    &&& (focused || hovered) ==> {
        &&& i32::MIN <= 2 * fpad[0] <= i32::MAX
        &&& i32::MIN <= 2 * fpad[1] <= i32::MAX
        &&& i32::MIN <= tw <= i32::MAX
        &&& i32::MIN <= th <= i32::MAX
    }
    &&& focused ==> {
        &&& i32::MIN <= a.0 + a.2 <= i32::MAX
        &&& i32::MIN <= a.0 + a.2 - 10 <= i32::MAX
        &&& i32::MIN <= a.1 + a.3 <= i32::MAX
        &&& i32::MIN <= a.1 + a.3 - 10 <= i32::MAX
        &&& tooltip_fits(marker_tip(a, fpad, text_size), ww, wh, fpad, seq![m.0 as i32, m.1 as i32])
    }
    &&& !focused && hovered ==> tooltip_fits(mouse_tip(m, fpad, text_size), ww, wh, fpad, seq![m.0 as i32, m.1 as i32])
    &&& advance_fits(s, spacing.frame_pad, spacing.item_pad, a.2 as i32, (a.3 - ipad[1]) as i32)
}

impl PixState {
    /// Places an advanced tooltip labelled `label` at `rect` (see [`tooltip_placement`]) in a
    /// window of `win_width` by `win_height` pixels, and offsets the mouse to its corner so
    /// that what is drawn into it sees the mouse in its own coordinates. Returns its
    /// identifier, under which its texture is found, and where it is drawn. The caller draws
    /// into the tooltip's texture and then clears the mouse offset.
    pub fn advanced_tooltip(&mut self, label: &str, rect: Rect<i32>, win_width: u32, win_height: u32) -> (r: (ElementId, Rect<i32>))
        requires
            old(self).wf(),
            old(self).ui@.mouse_fits(),
            tooltip_fits(
                rect@,
                clamp_size_spec(win_width) as int,
                clamp_size_spec(win_height) as int,
                old(self).theme.spacing.frame_pad@,
                seq![old(self).ui@.mouse_pos().0 as i32, old(self).ui@.mouse_pos().1 as i32],
            ),
        ensures
            final(self).wf(),
            final(self).theme == old(self).theme,
            final(self).window_focused == old(self).window_focused,
            r.0 == ElementId(id_hash(label.spec_bytes(), top_seed(old(self).ui@))),
            ({
                let p = tooltip_placement(
                    rect@,
                    clamp_size_spec(win_width) as int,
                    clamp_size_spec(win_height) as int,
                    old(self).theme.spacing.frame_pad@,
                    seq![old(self).ui@.mouse_pos().0 as i32, old(self).ui@.mouse_pos().1 as i32],
                );
                r.1@.0 == p.0 && r.1@.1 == p.1 && r.1@.2 == p.2 && r.1@.3 == p.3
            }),
            final(self).ui@ == (UiView { mouse_offset: final(self).ui@.mouse_offset, ..old(self).ui@ }),
            final(self).ui@.mouse_offset matches Some(o) && o@ == seq![r.1@.0, r.1@.1],
    {
        let id = self.ui.get_id(label);
        let mouse = self.mouse_pos();
        assert(mouse@ =~= seq![self.ui@.mouse_pos().0 as i32, self.ui@.mouse_pos().1 as i32]);
        let rect = tooltip_rect(rect, win_width, win_height, self.theme.spacing.frame_pad, mouse);
        self.ui.offset_mouse(rect.top_left());
        (id, rect)
    }
    /// Draws a tooltip with text `text`, whose visible part measures `text_size`, next to the
    /// mouse in a window of `win_width` by `win_height` pixels: an advanced tooltip as large as
    /// the text plus frame padding, labelled with the visible text under the text's own
    /// identifier. Returns what [`advanced_tooltip`](Self::advanced_tooltip) returns.
    pub fn tooltip(&mut self, text: &str, text_size: (u32, u32), win_width: u32, win_height: u32) -> (r: (ElementId, Rect<i32>))
        requires
            old(self).wf(),
            old(self).ui@.mouse_fits(),
            ({
                let pad = old(self).theme.spacing.frame_pad@;
                let m = old(self).ui@.mouse_pos();
                let w = clamp_size_spec(text_size.0) + 2 * pad[0];
                let h = clamp_size_spec(text_size.1) + 2 * pad[1];
                &&& i32::MIN <= 2 * pad[0] <= i32::MAX
                &&& i32::MIN <= 2 * pad[1] <= i32::MAX
                &&& i32::MIN <= w <= i32::MAX
                &&& i32::MIN <= h <= i32::MAX
                &&& tooltip_fits(
                    (m.0 as i32, m.1 as i32, w as i32, h as i32),
                    clamp_size_spec(win_width) as int,
                    clamp_size_spec(win_height) as int,
                    pad,
                    seq![m.0 as i32, m.1 as i32],
                )
            }),
        ensures
            final(self).wf(),
            final(self).theme == old(self).theme,
            final(self).window_focused == old(self).window_focused,
            ({
                let s = old(self).ui@;
                let pad = old(self).theme.spacing.frame_pad@;
                let m = s.mouse_pos();
                let w = clamp_size_spec(text_size.0) + 2 * pad[0];
                let h = clamp_size_spec(text_size.1) + 2 * pad[1];
                let id = id_hash(text.spec_bytes(), top_seed(s));
                let p = tooltip_placement(
                    (m.0 as i32, m.1 as i32, w as i32, h as i32),
                    clamp_size_spec(win_width) as int,
                    clamp_size_spec(win_height) as int,
                    pad,
                    seq![m.0 as i32, m.1 as i32],
                );
                &&& r.0 == ElementId(id_hash(encode_utf8(visible_label(text@)), Some(id)))
                &&& r.1@.0 == p.0 && r.1@.1 == p.1 && r.1@.2 == p.2 && r.1@.3 == p.3
                &&& final(self).ui@ == (UiView { mouse_offset: final(self).ui@.mouse_offset, ..s })
                &&& final(self).ui@.mouse_offset matches Some(o) && o@ == seq![r.1@.0, r.1@.1]
            }),
    {
        let id = self.ui.get_id(text);
        let label = get_label(text);
        let pad = self.theme.spacing.frame_pad;
        proof {
            pad.lemma_len();
        }
        let width = clamp_size(text_size.0) + 2 * pad.x();
        let height = clamp_size(text_size.1) + 2 * pad.y();
        let mouse = self.mouse_pos();
        self.push_id(id.0);
        let r = self.advanced_tooltip(label, Rect::with_position(mouse, width, height), win_width, win_height);
        self.pop_id();
        proof {
            assert(self.ui@.id_stack =~= old(self).ui@.id_stack);
        }
        r
    }
    /// Handles a help marker: a `?` glyph measuring `marker_size` that shows `text`, whose
    /// visible part measures `text_size`, in a tooltip. The marker tries to take hover and
    /// focus; when focused, its tooltip hangs from its far corner (an advanced tooltip labelled
    /// with the visible text under the marker's identifier); else when hovered, a tooltip of
    /// the visible text follows the mouse; then it handles Tab and click focus and the cursor
    /// moves past it, less the item padding below. Returns the tooltip to draw, as
    /// [`advanced_tooltip`](Self::advanced_tooltip) returns it, if any; the mouse is then
    /// offset to its corner until the caller clears it.
    #[verifier::rlimit(40)]
    pub fn help_marker(
        &mut self,
        text: &str,
        marker_size: (u32, u32),
        text_size: (u32, u32),
        win_width: u32,
        win_height: u32,
    ) -> (r: Option<(ElementId, Rect<i32>)>)
        requires
            old(self).wf(),
            old(self).ui@.mouse_fits(),
            marker_fits(
                old(self).ui@,
                old(self).theme.spacing,
                text.spec_bytes(),
                marker_size,
                text_size,
                win_width,
                win_height,
            ),
        ensures
            final(self).wf(),
            final(self).theme == old(self).theme,
            final(self).window_focused == old(self).window_focused,
            ({
                let s = old(self).ui@;
                let fpad = old(self).theme.spacing.frame_pad;
                let ipad = old(self).theme.spacing.item_pad;
                let id = ElementId(id_hash(text.spec_bytes(), top_seed(s)));
                let label = encode_utf8(visible_label(text@));
                let a = marker_area(s, ipad@, marker_size);
                let s2 = marker_interact(s, id, a);
                let focused = s2.is_focused(id);
                let hovered = s2.is_hovered(id);
                let m = s.mouse_pos();
                let ww = clamp_size_spec(win_width) as int;
                let wh = clamp_size_spec(win_height) as int;
                let fin = final(self).ui@;
                &&& fin == advance_state(
                    UiView { mouse_offset: fin.mouse_offset, ..events_step(s2, id) },
                    fpad,
                    ipad,
                    a.2 as i32,
                    (a.3 - ipad@[1]) as i32,
                )
                &&& match r {
                    Some((tid, rect)) => {
                        &&& focused ==> {
                            let p = tooltip_placement(marker_tip(a, fpad@, text_size), ww, wh, fpad@, seq![m.0 as i32, m.1 as i32]);
                            &&& tid == ElementId(id_hash(label, Some(id.0)))
                            &&& rect@.0 == p.0 && rect@.1 == p.1 && rect@.2 == p.2 && rect@.3 == p.3
                        }
                        &&& !focused ==> {
                            let p = tooltip_placement(mouse_tip(m, fpad@, text_size), ww, wh, fpad@, seq![m.0 as i32, m.1 as i32]);
                            &&& hovered
                            &&& tid == ElementId(id_hash(encode_utf8(visible_label(visible_label(text@))), Some(id_hash(label, top_seed(s)))))
                            &&& rect@.0 == p.0 && rect@.1 == p.1 && rect@.2 == p.2 && rect@.3 == p.3
                        }
                        &&& fin.mouse_offset matches Some(o) && o@ == seq![rect@.0, rect@.1]
                    },
                    None => !focused && !hovered && fin.mouse_offset == s.mouse_offset,
                }
            }),
    {
        let id = self.ui.get_id(text);
        let label = get_label(text);
        let pos = self.cursor_pos();
        let fpad = self.theme.spacing.frame_pad;
        let ipad = self.theme.spacing.item_pad;
        proof {
            pos.lemma_len();
            fpad.lemma_len();
            ipad.lemma_len();
        }
        let hover = Rect::new(
            pos.x(),
            pos.y() - ipad.y(),
            clamp_size(marker_size.0) + 2 * ipad.x(),
            clamp_size(marker_size.1) + 2 * ipad.y(),
        );
        let ghost s = self.ui@;
        let hovered = self.ui.try_hover(id, &hover);
        let focused = self.ui.try_focus(id);
        let ghost s2 = self.ui@;
        let mouse = self.mouse_pos();
        let tip = if focused {
            let width = clamp_size(text_size.0) + 2 * fpad.x();
            let height = clamp_size(text_size.1) + 2 * fpad.y();
            let corner = Rect::new(hover.x() + hover.width() - 10, hover.y() + hover.height() - 10, width, height);
            self.push_id(id.0);
            let t = self.advanced_tooltip(label, corner, win_width, win_height);
            self.pop_id();
            Some(t)
        } else if hovered {
            Some(self.tooltip(label, text_size, win_width, win_height))
        } else {
            None
        };
        proof {
            assert(self.ui@.id_stack =~= s2.id_stack);
        }
        let ghost s3 = self.ui@;
        self.ui.handle_events(id);
        let ghost before_line = self.ui@;
        let size = [hover.width(), hover.height() - ipad.y()];
        self.advance_cursor(size);
        proof {
            lemma_advanced_state(before_line, fpad, ipad, size@[0], size@[1], self.ui@);
        }
        tip
    }
}

} // verus!
