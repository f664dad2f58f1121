//! Tab bars: a row of tabs, one of them selected, above the selected tab's contents.

use crate::arith::trunc_div;
use crate::engine::PixState;
use crate::gui::layout::{advance_fits, advance_state, advanced, lemma_advanced_state};
use crate::gui::state::{
    click_step, events_step, focus_step, id_hash, top_seed, try_hover_step, ElementId, UiView,
};
use crate::gui::theme::Spacing;
use crate::ops::clamp_size_spec;
use crate::shape::{Point, Rect};
use vstd::prelude::*;
use vstd::string::StringSliceAdditionalSpecFns;

verus! {

/// The UI state once a tab is placed: the first tab starts a frame padding right of the
/// cursor; each later one follows the previous on the same line, 2 pixels apart.
pub open spec fn tab_start(s: UiView, spacing: Spacing, first: bool) -> UiView {
    if first {
        UiView { cursor: Point::from_seq(seq![(s.cursor@[0] + spacing.frame_pad@[0]) as i32, s.cursor@[1]]), ..s }
    } else {
        UiView {
            cursor: Point::from_seq(seq![(s.pcursor@[0] + 2) as i32, s.pcursor@[1]]),
            line_height: s.pline_height,
            ..s
        }
    }
}

/// The area of a tab placed at the cursor of `a` whose label measures `size`: the label plus
/// twice the item padding on each side.
pub open spec fn tab_rect(a: UiView, spacing: Spacing, size: (i32, i32)) -> (i32, i32, i32, i32) {
    (
        a.cursor@[0],
        a.cursor@[1],
        (size.0 + 4 * spacing.item_pad@[0]) as i32,
        (size.1 + 4 * spacing.item_pad@[1]) as i32,
    )
}

/// The state once tab `id` has tried to take hover and focus, which it does only while the
/// window has input focus.
pub open spec fn tab_interact(a: UiView, window_focused: bool, id: ElementId, r: (i32, i32, i32, i32)) -> UiView {
    if window_focused {
        focus_step(try_hover_step(a, id, r), id)
    } else {
        a
    }
}

/// One tab, labelled `label`, whose visible label measures `size`: it is placed, tries to take
/// hover and focus, handles Tab and click focus, and the cursor moves past it. Returns the
/// state and whether the tab was clicked, which a disabled UI never reports.
pub open spec fn tab_step(
    s: UiView,
    window_focused: bool,
    spacing: Spacing,
    label: Seq<u8>,
    size: (i32, i32),
    first: bool,
) -> (UiView, bool) {
    let id = ElementId(id_hash(label, top_seed(s)));
    let a = tab_start(s, spacing, first);
    let r = tab_rect(a, spacing, size);
    let b = tab_interact(a, window_focused, id, r);
    let d = advance_state(events_step(b, id), spacing.frame_pad, spacing.item_pad, r.2, r.3);
    if !s.disabled {
        click_step(d, id)
    } else {
        (d, false)
    }
}

/// Whether one tab's arithmetic stays within `i32`.
pub open spec fn tab_fits(s: UiView, window_focused: bool, spacing: Spacing, label: Seq<u8>, size: (i32, i32), first: bool) -> bool {
    let fpad = spacing.frame_pad@;
    let ipad = spacing.item_pad@;
    let id = ElementId(id_hash(label, top_seed(s)));
    let a = tab_start(s, spacing, first);
    let r = tab_rect(a, spacing, size);
    let b = tab_interact(a, window_focused, id, r);
    &&& first ==> i32::MIN <= s.cursor@[0] + fpad[0] <= i32::MAX
    &&& !first ==> {
        &&& i32::MIN <= -ipad[0] + 2 <= i32::MAX
        &&& i32::MIN <= s.pcursor@[0] + ipad[0] <= i32::MAX
        &&& i32::MIN <= s.pcursor@[0] + 2 <= i32::MAX
    }
    &&& i32::MIN <= 4 * ipad[0] <= i32::MAX
    &&& i32::MIN <= 4 * ipad[1] <= i32::MAX
    &&& i32::MIN <= size.0 + 4 * ipad[0] <= i32::MAX
    &&& i32::MIN <= size.1 + 4 * ipad[1] <= i32::MAX
    &&& s.mouse_fits()
    &&& advance_fits(events_step(b, id), spacing.frame_pad, spacing.item_pad, r.2, r.3)
}

/// The first `n` tabs in turn, from state `s`: the state after them, and the last of them that
/// was clicked.
pub open spec fn tabs_run(
    s: UiView,
    window_focused: bool,
    spacing: Spacing,
    labels: Seq<Seq<u8>>,
    sizes: Seq<(i32, i32)>,
    n: nat,
) -> (UiView, Option<nat>)
    decreases n,
{
    if n == 0 {
        (s, None)
    } else {
        let (t, last) = tabs_run(s, window_focused, spacing, labels, sizes, (n - 1) as nat);
        let (u, clicked) = tab_step(t, window_focused, spacing, labels[n - 1], sizes[n - 1], n == 1);
        (u, if clicked { Some((n - 1) as nat) } else { last })
    }
}

/// Whether the first `n` tabs' arithmetic stays within `i32`.
pub open spec fn tabs_fit(
    s: UiView,
    window_focused: bool,
    spacing: Spacing,
    labels: Seq<Seq<u8>>,
    sizes: Seq<(i32, i32)>,
    n: nat,
) -> bool
    decreases n,
{
    if n == 0 {
        true
    } else {
        &&& tabs_fit(s, window_focused, spacing, labels, sizes, (n - 1) as nat)
        &&& tab_fits(
            tabs_run(s, window_focused, spacing, labels, sizes, (n - 1) as nat).0,
            window_focused,
            spacing,
            labels[n - 1],
            sizes[n - 1],
            n == 1,
        )
    }
}

/// Tabs that fit fit in every prefix.
pub proof fn lemma_tabs_fit_prefix(
    s: UiView,
    window_focused: bool,
    spacing: Spacing,
    labels: Seq<Seq<u8>>,
    sizes: Seq<(i32, i32)>,
    m: nat,
    n: nat,
)
    requires
        m <= n,
        tabs_fit(s, window_focused, spacing, labels, sizes, n),
    ensures
        tabs_fit(s, window_focused, spacing, labels, sizes, m),
    decreases n,
{
    if m < n {
        lemma_tabs_fit_prefix(s, window_focused, spacing, labels, sizes, m, (n - 1) as nat);
    }
}

/// The cursor after the tabs: back up by the item padding and half the font size (as a signed
/// integer), to draw the separator under the tabs.
pub open spec fn under_tabs(t: UiView, spacing: Spacing, font_size: u32) -> UiView {
    UiView {
        cursor: Point::from_seq(
            seq![
                t.cursor@[0],
                (t.cursor@[1] - spacing.item_pad@[1] - trunc_div(font_size as i32 as int, 2)) as i32,
            ],
        ),
        ..t
    }
}

/// The labels of `tabs`, as bytes.
pub open spec fn tab_labels(tabs: Seq<&str>) -> Seq<Seq<u8>> {
    tabs.map_values(|t: &str| t.spec_bytes())
}

/// Whether what follows the tabs, after state `t`, stays within `i32`: backing up under them,
/// the separator, and the spacing below it.
pub open spec fn bar_fits(t: UiView, spacing: Spacing, font_size: u32, ui_width: i32, line_height: i32) -> bool {
    let u = under_tabs(t, spacing, font_size);
    let h = clamp_size_spec(font_size);
    &&& i32::MIN <= t.cursor@[1] - spacing.item_pad@[1] <= i32::MAX
    &&& i32::MIN <= t.cursor@[1] - spacing.item_pad@[1] - trunc_div(font_size as i32 as int, 2) <= i32::MAX
    &&& u.cursor@[1] + h / 2 <= i32::MAX
    &&& advance_fits(u, spacing.frame_pad, spacing.item_pad, ui_width, h)
    &&& advance_fits(
        advance_state(u, spacing.frame_pad, spacing.item_pad, ui_width, h),
        spacing.frame_pad,
        spacing.item_pad,
        ui_width,
        line_height,
    )
}

impl PixState {
    /// Handles a tab bar labelled `label` with tabs labelled `tabs`, whose visible labels
    /// measure `sizes`, and `selected` the index of the selected tab. Each tab is placed after
    /// the last, tries to take hover and focus while the window has input focus, handles Tab
    /// and click focus, and selects itself when clicked while the UI is enabled. A separator
    /// `ui_width` wide follows under the tabs, then a line of spacing `line_height` tall. The
    /// bar's identifier is then pushed for the selected tab's contents, which the caller draws
    /// before popping it. Returns whether the selection changed.
    pub fn tab_bar(
        &mut self,
        label: &str,
        tabs: &[&str],
        sizes: &[(i32, i32)],
        selected: &mut usize,
        ui_width: i32,
        line_height: i32,
    ) -> (changed: bool)
        requires
            old(self).wf(),
            sizes@.len() == tabs@.len(),
            tabs_fit(
                old(self).ui@,
                old(self).window_focused,
                old(self).theme.spacing,
                tab_labels(tabs@),
                sizes@,
                tabs@.len() as nat,
            ),
            bar_fits(
                tabs_run(
                    old(self).ui@,
                    old(self).window_focused,
                    old(self).theme.spacing,
                    tab_labels(tabs@),
                    sizes@,
                    tabs@.len() as nat,
                ).0,
                old(self).theme.spacing,
                old(self).theme.font_size,
                ui_width,
                line_height,
            ),
        ensures
            final(self).wf(),
            final(self).theme == old(self).theme,
            final(self).window_focused == old(self).window_focused,
            ({
                let spacing = old(self).theme.spacing;
                let (t, last) = tabs_run(
                    old(self).ui@,
                    old(self).window_focused,
                    spacing,
                    tab_labels(tabs@),
                    sizes@,
                    tabs@.len() as nat,
                );
                let h = clamp_size_spec(old(self).theme.font_size);
                let u = under_tabs(t, spacing, old(self).theme.font_size);
                let v = advance_state(u, spacing.frame_pad, spacing.item_pad, ui_width, h);
                let w = advance_state(v, spacing.frame_pad, spacing.item_pad, ui_width, line_height);
                let bar_id = id_hash(label.spec_bytes(), top_seed(old(self).ui@));
                &&& final(self).ui@ == (UiView { id_stack: w.id_stack.push(bar_id), ..w })
                &&& changed == last is Some
                &&& *final(selected) == match last {
                    Some(k) => k as usize,
                    None => *old(selected),
                }
            }),
    {
        let bar_id = self.ui.get_id(label);
        let ghost s0 = self.ui@;
        let ghost spacing = self.theme.spacing;
        let ghost labels = tab_labels(tabs@);
        let fpad = self.theme.spacing.frame_pad;
        let ipad = self.theme.spacing.item_pad;
        proof {
            fpad.lemma_len();
            ipad.lemma_len();
        }
        let mut changed = false;
        let mut i: usize = 0;
        while i < tabs.len()
            invariant
                self.wf(),
                self.theme == old(self).theme,
                self.window_focused == old(self).window_focused,
                spacing == self.theme.spacing,
                fpad == spacing.frame_pad,
                ipad == spacing.item_pad,
                fpad@.len() == 2,
                ipad@.len() == 2,
                s0 == old(self).ui@,
                labels == tab_labels(tabs@),
                sizes@.len() == tabs@.len(),
                bar_id.0 == id_hash(label.spec_bytes(), top_seed(s0)),
                i <= tabs@.len(),
                tabs_fit(s0, self.window_focused, spacing, labels, sizes@, tabs@.len() as nat),
                ({
                    let (t, last) = tabs_run(s0, self.window_focused, spacing, labels, sizes@, i as nat);
                    &&& self.ui@ == t
                    &&& changed == last is Some
                    &&& *selected == match last {
                        Some(k) => k as usize,
                        None => *old(selected),
                    }
                }),
            decreases tabs@.len() - i,
        {
            proof {
                lemma_tabs_fit_prefix(s0, self.window_focused, spacing, labels, sizes@, (i + 1) as nat, tabs@.len() as nat);
            }
            let ghost before = self.ui@;
            let clicked = self.tab(tabs[i], sizes[i], i == 0);
            if clicked {
                changed = true;
                *selected = i;
            }
            proof {
                let (t, last) = tabs_run(s0, self.window_focused, spacing, labels, sizes@, i as nat);
                assert(labels[i as int] == tabs@[i as int].spec_bytes());
                assert(tabs_run(s0, self.window_focused, spacing, labels, sizes@, (i + 1) as nat) == (
                    self.ui@,
                    if clicked { Some(i as nat) } else { last },
                ));
            }
            i += 1;
        }
        let ghost t = self.ui@;
        let pos = self.ui.cursor();
        proof {
            pos.lemma_len();
        }
        let under = Point::new([pos.x(), pos.y() - ipad.y() - (self.theme.font_size as i32) / 2]);
        proof {
            Point::lemma_from_seq(under, under@);
        }
        self.ui.set_cursor(under);
        assert(self.ui@ == under_tabs(t, spacing, self.theme.font_size));
        let ghost u = self.ui@;
        self.separator(ui_width);
        proof {
            lemma_advanced_state(u, fpad, ipad, ui_width, clamp_size_spec(self.theme.font_size), self.ui@);
        }
        let ghost v = self.ui@;
        self.spacing(ui_width, line_height);
        proof {
            lemma_advanced_state(v, fpad, ipad, ui_width, line_height, self.ui@);
        }
        self.push_id(bar_id.0);
        changed
    }
    /// One tab of a tab bar: see [`tab_step`].
    fn tab(&mut self, label: &str, size: (i32, i32), first: bool) -> (clicked: bool)
        requires
            old(self).wf(),
            tab_fits(old(self).ui@, old(self).window_focused, old(self).theme.spacing, label.spec_bytes(), size, first),
        ensures
            final(self).wf(),
            final(self).theme == old(self).theme,
            final(self).window_focused == old(self).window_focused,
            (final(self).ui@, clicked) == tab_step(
                old(self).ui@,
                old(self).window_focused,
                old(self).theme.spacing,
                label.spec_bytes(),
                size,
                first,
            ),
    {
        let ghost spacing = self.theme.spacing;
        let fpad = self.theme.spacing.frame_pad;
        let ipad = self.theme.spacing.item_pad;
        proof {
            fpad.lemma_len();
            ipad.lemma_len();
        }
        let ghost before = self.ui@;
        if !first {
            self.same_line(Some([-ipad.x() + 2, 0]));
            proof {
                Point::lemma_from_seq(self.ui@.cursor, self.ui@.cursor@);
            }
        } else {
            let pos = self.ui.cursor();
            proof {
                pos.lemma_len();
            }
            let start = Point::new([pos.x() + fpad.x(), pos.y()]);
            proof {
                Point::lemma_from_seq(start, start@);
            }
            self.ui.set_cursor(start);
        }
        assert(self.ui@ == tab_start(before, spacing, first));
        let id = self.ui.get_id(label);
        let pos = self.ui.cursor();
        proof {
            pos.lemma_len();
        }
        let tab_rect = Rect::new(pos.x(), pos.y(), size.0 + 4 * ipad.x(), size.1 + 4 * ipad.y());
        let disabled = self.ui.disabled();
        if self.focused() {
            self.ui.try_hover(id, &tab_rect);
            self.ui.try_focus(id);
        }
        self.ui.handle_events(id);
        let ghost pre_advance = self.ui@;
        let tab_size = [tab_rect.width(), tab_rect.height()];
        self.advance_cursor(tab_size);
        proof {
            lemma_advanced_state(pre_advance, fpad, ipad, tab_size@[0], tab_size@[1], self.ui@);
        }
        !disabled && self.ui.was_clicked(id)
    }
}

} // verus!
