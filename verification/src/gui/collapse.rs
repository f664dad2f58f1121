//! Collapsing headers and trees: a clickable line that shows or hides what follows it.

use crate::arith::trunc_div;
use crate::engine::PixState;
use crate::event::Key;
use crate::gui::layout::{advance_fits, advance_state, lemma_advanced_state};
use crate::gui::theme::Spacing;
use crate::gui::state::{
    click_step, element_set, events_step, focus_step, id_hash, lemma_element_set_then_read,
    promote, top_seed, try_hover_step, ElementField, ElementId, UiView,
};
use crate::ops::{clamp_size, clamp_size_spec};
use crate::shape::{Point, PointI2, Rect};
use vstd::prelude::*;
use vstd::string::StringSliceAdditionalSpecFns;

verus! {

/// The line a collapsing header takes: at the cursor, as wide as the width requested for the
/// next element, else the UI's width, else its text's, less the column offset, and as tall as
/// its text plus frame padding.
pub open spec fn header_area(s: UiView, text_size: (i32, i32), ui_width: Option<i32>, fpad_y: i32) -> (int, int, int, int) {
    let width = match s.next_width {
        Some(w) => w,
        None => match ui_width {
            Some(w) => w,
            None => text_size.0,
        },
    };
    (s.cursor@[0] as int, s.cursor@[1] as int, width - s.column_offset, text_size.1 + 2 * fpad_y)
}

/// The UI state after a collapsing header's hover and focus, whether it is hovered and focused.
pub open spec fn header_interact(s: UiView, id: ElementId, area: (i32, i32, i32, i32)) -> (UiView, bool, bool) {
    let s1 = try_hover_step(s, id, area);
    let s2 = focus_step(s1, id);
    (s2, s1.is_hovered(id), s2.is_focused(id))
}

/// The UI state after a collapsing header's click test, and whether it toggles: a click while
/// hovered, or Return while focused.
pub open spec fn header_toggle(s: UiView, id: ElementId, hovered: bool, focused: bool) -> (UiView, bool) {
    if hovered {
        let (s1, clicked) = click_step(s, id);
        if clicked {
            (s1, true)
        } else {
            (s1, focused && s1.keys.entered == Some(Key::Return))
        }
    } else {
        (s, focused && s.keys.entered == Some(Key::Return))
    }
}

/// Whether a collapsing header's arithmetic stays within `i32`: its line, where its text goes,
/// and the cursor moving past the text and then past the line.
pub open spec fn header_fits(
    s: UiView,
    spacing: Spacing,
    font_size: u32,
    text_size: (i32, i32),
    ui_width: Option<i32>,
    rendered: (i32, i32),
) -> bool {
    let fpad = spacing.frame_pad;
    let ipad = spacing.item_pad;
    let width = match s.next_width {
        Some(w) => w,
        None => match ui_width {
            Some(w) => w,
            None => text_size.0,
        },
    };
    let a = header_area(s, text_size, ui_width, fpad@[1]);
    let fs = clamp_size_spec(font_size) as int;
    let text_pos = seq![(a.0 + fs / 2 + 3 * ipad@[0]) as i32, (a.1 + fpad@[1]) as i32];
    let at_text = UiView { cursor: Point::from_seq(text_pos), ..s };
    let rw = (rendered.0 + 3) as i32;
    let rh = (rendered.1 + 3) as i32;
    &&& i32::MIN <= width - s.column_offset <= i32::MAX
    &&& i32::MIN <= 2 * fpad@[1] <= i32::MAX
    &&& i32::MIN <= text_size.1 + 2 * fpad@[1] <= i32::MAX
    &&& i32::MIN <= 3 * ipad@[0] <= i32::MAX
    &&& i32::MIN <= a.0 + fs / 2 <= i32::MAX
    &&& i32::MIN <= a.0 + fs / 2 + 3 * ipad@[0] <= i32::MAX
    &&& i32::MIN <= a.1 + fpad@[1] <= i32::MAX
    &&& rendered.0 + 3 <= i32::MAX
    &&& rendered.1 + 3 <= i32::MAX
    &&& s.mouse_fits()
    &&& advance_fits(at_text, fpad, ipad, rw, rh)
    &&& advance_fits(
        advance_state(at_text, fpad, ipad, rw, rh),
        fpad,
        ipad,
        (width - s.column_offset) as i32,
        trunc_div(ipad@[1] as int, 2) as i32,
    )
}

/// What a collapsing header labelled `label` leaves: from UI state `s`, the header (its
/// identifier derived from the label under the top seed) takes the next width, then hover and
/// focus over its line; the cursor moves to its text and past it; a click, or Return while
/// focused, toggles its expanded state; it handles Tab and click focus; the cursor moves past
/// the line. `expanded` is its state before any toggle.
pub open spec fn header_done(
    s: UiView,
    spacing: Spacing,
    font_size: u32,
    label: Seq<u8>,
    text_size: (i32, i32),
    ui_width: Option<i32>,
    rendered: (i32, i32),
    fin: UiView,
    expanded: bool,
) -> bool {
    let fpad = spacing.frame_pad;
    let ipad = spacing.item_pad;
    let id = ElementId(id_hash(label, top_seed(s)));
    let a = header_area(s, text_size, ui_width, fpad@[1]);
    let area = (a.0 as i32, a.1 as i32, a.2 as i32, a.3 as i32);
    let e0 = match s.element(id) {
        Some(st) => st.expanded,
        None => false,
    };
    let fs = clamp_size_spec(font_size) as int;
    let s0 = UiView { next_width: None, elements: promote(s.elements, id.0), ..s };
    let hi = header_interact(s0, id, area);
    let text_pos = seq![(a.0 + fs / 2 + 3 * ipad@[0]) as i32, (a.1 + fpad@[1]) as i32];
    let mid = advance_state(
        UiView { cursor: Point::from_seq(text_pos), ..hi.0 },
        fpad,
        ipad,
        (rendered.0 + 3) as i32,
        (rendered.1 + 3) as i32,
    );
    let (after_toggle, toggled) = header_toggle(mid, id, hi.1, hi.2);
    &&& expanded == e0
    &&& fin == advance_state(
        UiView { elements: fin.elements, ..events_step(after_toggle, id) },
        fpad,
        ipad,
        area.2,
        trunc_div(ipad@[1] as int, 2) as i32,
    )
    &&& toggled ==> {
        &&& element_set(after_toggle.elements, fin.elements, id, ElementField::Expanded)
        &&& fin.element(id) matches Some(st) && st.expanded == !e0
    }
    &&& !toggled ==> fin.elements == after_toggle.elements
    &&& fin.column_offset == s.column_offset
    &&& fin.cursor@[0] == (fpad@[0] + s.column_offset) as i32
}

impl PixState {
    /// Handles a collapsing header labelled `text` whose visible text measures `text_size` and
    /// renders into `rendered`; `ui_width` is the UI's width when known. The header tries to
    /// take hover and focus; a click on it, or Return while it is focused, toggles it; the
    /// cursor moves past the text and then past the header line. Returns whether it was
    /// expanded, that is whether what follows it is shown this frame.
    #[verifier::rlimit(30)]
    pub fn collapsing_header(
        &mut self,
        text: &str,
        text_size: (i32, i32),
        ui_width: Option<i32>,
        rendered: (i32, i32),
    ) -> (expanded: bool)
        requires
            old(self).wf(),
            old(self).ui@.mouse_fits(),
            header_fits(old(self).ui@, old(self).theme.spacing, old(self).theme.font_size, text_size, ui_width, rendered),
        ensures
            final(self).wf(),
            final(self).theme == old(self).theme,
            final(self).window_focused == old(self).window_focused,
            header_done(
                old(self).ui@,
                old(self).theme.spacing,
                old(self).theme.font_size,
                text.spec_bytes(),
                text_size,
                ui_width,
                rendered,
                final(self).ui@,
                expanded,
            ),
    {
        let id = self.ui.get_id(text);
        let ghost s = self.ui@;
        let pos = self.ui.cursor();
        proof {
            pos.lemma_len();
            self.theme.spacing.frame_pad.lemma_len();
            self.theme.spacing.item_pad.lemma_len();
            self.ui.lemma_wf();
        }
        let font_size = clamp_size(self.theme.font_size);
        let fpad_y = self.theme.spacing.frame_pad.y();
        let ipad_x = self.theme.spacing.item_pad.x();
        let ipad_y = self.theme.spacing.item_pad.y();
        let expanded = self.ui.expanded(id);
        let arrow_width = font_size / 2;
        let column_offset = self.ui.column_offset();
        let width = match self.ui.take_next_width() {
            Some(w) => w,
            None => match ui_width {
                Some(w) => w,
                None => text_size.0,
            },
        };
        let hover = Rect::new(pos.x(), pos.y(), width - column_offset, text_size.1 + 2 * fpad_y);
        let ghost s0 = self.ui@;
        proof {
            let a = header_area(s, text_size, ui_width, self.theme.spacing.frame_pad@[1]);
            assert(hover@ == (a.0 as i32, a.1 as i32, a.2 as i32, a.3 as i32));
        }
        assert(s0 == UiView { next_width: None, elements: promote(s.elements, id.0), ..s });
        let hovered = self.ui.try_hover(id, &hover);
        let focused = self.ui.try_focus(id);
        let ghost hi = header_interact(s0, id, hover@);
        assert(self.ui@ == hi.0 && hovered == hi.1 && focused == hi.2);
        let text_pos = Point::new([hover.x() + arrow_width + 3 * ipad_x, hover.y() + fpad_y]);
        proof {
            Point::lemma_from_seq(text_pos, text_pos@);
            let a = header_area(s, text_size, ui_width, self.theme.spacing.frame_pad@[1]);
            let fs = clamp_size_spec(self.theme.font_size) as int;
            assert(text_pos@ == seq![(a.0 + fs / 2 + 3 * self.theme.spacing.item_pad@[0]) as i32, (a.1 + self.theme.spacing.frame_pad@[1]) as i32]);
        }
        self.ui.set_cursor(text_pos);
        let ghost before_text = self.ui@;
        self.advance_cursor([rendered.0 + 3, rendered.1 + 3]);
        proof {
            lemma_advanced_state(
                before_text,
                self.theme.spacing.frame_pad,
                self.theme.spacing.item_pad,
                (rendered.0 + 3) as i32,
                (rendered.1 + 3) as i32,
                self.ui@,
            );
        }
        let ghost mid = self.ui@;
        proof {
            let a = header_area(s, text_size, ui_width, self.theme.spacing.frame_pad@[1]);
            let fs = clamp_size_spec(self.theme.font_size) as int;
            let tp = seq![(a.0 + fs / 2 + 3 * self.theme.spacing.item_pad@[0]) as i32, (a.1 + self.theme.spacing.frame_pad@[1]) as i32];
            assert(before_text == (UiView { cursor: Point::from_seq(tp), ..hi.0 }));
        }
        let toggle = (hovered && self.ui.was_clicked(id)) || (focused && self.ui.key_entered() == Some(Key::Return));
        assert((self.ui@, toggle) == header_toggle(mid, id, hovered, focused));
        let ghost after_toggle = self.ui@;
        if toggle {
            proof {
                self.ui.lemma_wf();
            }
            let ghost before = self.ui@.elements;
            self.ui.set_expanded(id, !expanded);
            proof {
                lemma_element_set_then_read(before, self.ui@.elements, id, ElementField::Expanded);
            }
        }
        assert(self.ui@ == (UiView { elements: self.ui@.elements, ..after_toggle }));
        self.ui.handle_events(id);
        let ghost before_line = self.ui@;
        assert(before_line == (UiView { elements: before_line.elements, ..events_step(after_toggle, id) }));
        let line_size = [hover.width(), ipad_y / 2];
        self.advance_cursor(line_size);
        proof {
            lemma_advanced_state(
                before_line,
                self.theme.spacing.frame_pad,
                self.theme.spacing.item_pad,
                line_size@[0],
                line_size@[1],
                self.ui@,
            );
            let fpad = self.theme.spacing.frame_pad;
            let ipad = self.theme.spacing.item_pad;
            let a = header_area(s, text_size, ui_width, fpad@[1]);
            let area = (a.0 as i32, a.1 as i32, a.2 as i32, a.3 as i32);
            let fs = clamp_size_spec(self.theme.font_size) as int;
            let tp = seq![(a.0 + fs / 2 + 3 * ipad@[0]) as i32, (a.1 + fpad@[1]) as i32];
            assert(hi == header_interact(s0, id, area));
            let mid_spec = advance_state(
                UiView { cursor: Point::from_seq(tp), ..hi.0 },
                fpad,
                ipad,
                (rendered.0 + 3) as i32,
                (rendered.1 + 3) as i32,
            );
            assert(mid == mid_spec);
            let fin = self.ui@;
            assert(fin.elements == before_line.elements);
            assert(before_line == (UiView { elements: fin.elements, ..events_step(after_toggle, id) }));
            assert(fin == advance_state(
                UiView { elements: fin.elements, ..events_step(after_toggle, id) },
                fpad,
                ipad,
                area.2,
                trunc_div(ipad@[1] as int, 2) as i32,
            ));
        }
        expanded
    }
    /// Handles a collapsing tree node: a collapsing header (see
    /// [`collapsing_header`](Self::collapsing_header)) whose contents are indented. When it
    /// returns `true`, the node is expanded and the column offset is pushed by `indent_width`
    /// (the width the caller measured for four spaces) for the contents that follow; the caller
    /// pops it with `UiState::dec_column_offset` once they are drawn.
    pub fn collapsing_tree(
        &mut self,
        text: &str,
        text_size: (i32, i32),
        ui_width: Option<i32>,
        rendered: (i32, i32),
        indent_width: i32,
    ) -> (expanded: bool)
        requires
            old(self).wf(),
            old(self).ui@.mouse_fits(),
            header_fits(old(self).ui@, old(self).theme.spacing, old(self).theme.font_size, text_size, ui_width, rendered),
            ({
                let x = old(self).theme.spacing.frame_pad@[0] + old(self).ui@.column_offset;
                &&& i32::MIN <= x <= i32::MAX
                &&& i32::MIN <= x + indent_width <= i32::MAX
                &&& i32::MIN <= old(self).ui@.column_offset + indent_width <= i32::MAX
            }),
        ensures
            final(self).wf(),
            final(self).theme == old(self).theme,
            final(self).window_focused == old(self).window_focused,
            exists|h: UiView|
                {
                    &&& #[trigger] header_done(
                        old(self).ui@,
                        old(self).theme.spacing,
                        old(self).theme.font_size,
                        text.spec_bytes(),
                        text_size,
                        ui_width,
                        rendered,
                        h,
                        expanded,
                    )
                    &&& !expanded ==> final(self).ui@ == h
                    &&& expanded ==> final(self).ui@ == (UiView {
                        offset_stack: h.offset_stack.push(indent_width),
                        cursor: final(self).ui@.cursor,
                        column_offset: (h.column_offset + indent_width) as i32,
                        ..h
                    })
                    &&& expanded ==> final(self).ui@.cursor@ == seq![
                        (h.cursor@[0] + indent_width) as i32,
                        h.cursor@[1],
                    ]
                },
    {
        let expanded = self.collapsing_header(text, text_size, ui_width, rendered);
        let ghost h = self.ui@;
        if expanded {
            self.ui.inc_column_offset(indent_width);
        }
        expanded
    }
}

} // verus!
