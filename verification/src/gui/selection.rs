//! A retained list of text items with a keyboard-driven selection that scrolls.

use crate::event::Key;
use crate::gui::element::{Text, TextView};
use crate::pixel::Pixel;
use vstd::prelude::*;

verus! {

/// The space between list lines, in pixels.
pub const DEFAULT_LINE_HEIGHT: u32 = 10;

/// An area of the screen, in unsigned pixels.
#[derive(Debug, Copy, Clone, PartialEq, Eq, Structural)]
pub struct ListRect {
    pub x: u32,
    pub y: u32,
    pub w: u32,
    pub h: u32,
}

/// A list of items with one selected; `selected` counts from the first row shown and `scroll`
/// counts the items scrolled past.
#[derive(Debug)]
pub struct ListSelection {
    rect: ListRect,
    dirty: bool,
    selected: usize,
    scroll: usize,
    scroll_padding: usize,
    rows: usize,
    line_height: u32,
    bg_color: Pixel,
    font_color: Pixel,
    highlight_color: Pixel,
    items: Vec<Text>,
}

/// The abstract list.
pub struct ListSelectionView {
    pub rect: ListRect,
    pub dirty: bool,
    pub selected: usize,
    pub scroll: usize,
    pub scroll_padding: usize,
    pub rows: usize,
    pub line_height: u32,
    pub bg_color: Pixel,
    pub font_color: Pixel,
    pub highlight_color: Pixel,
    pub items: Seq<TextView>,
}

impl View for ListSelection {
    type V = ListSelectionView;

    closed spec fn view(&self) -> ListSelectionView {
        ListSelectionView {
            rect: self.rect,
            dirty: self.dirty,
            selected: self.selected,
            scroll: self.scroll,
            scroll_padding: self.scroll_padding,
            rows: self.rows,
            line_height: self.line_height,
            bg_color: self.bg_color,
            font_color: self.font_color,
            highlight_color: self.highlight_color,
            items: self.items@.map_values(|t: Text| t@),
        }
    }
}

/// The number of rows a list in `rect` shows: as many lines of the first item's height plus
/// line spacing as fit, and no more than there are items.
pub open spec fn rows_for(rect: ListRect, items: Seq<TextView>) -> nat {
    if items.len() == 0 {
        0
    } else {
        let fit = rect.h as nat / (items[0].size * 8 + DEFAULT_LINE_HEIGHT) as nat;
        if items.len() <= fit {
            items.len()
        } else {
            fit
        }
    }
}

/// Whether a key press would make the list underflow an unsigned count.
pub open spec fn key_underflows(l: ListSelectionView, key: Key, pressed: bool) -> bool {
    let len = l.items.len() as int;
    let at = l.selected + l.scroll;
    match key {
        Key::Down => pressed && (len == 0 || (at < len - 1 && (l.rows < l.scroll_padding || (l.selected
            == l.rows - l.scroll_padding && len < l.scroll_padding)))),
        Key::Up => pressed && at > 0 && !(l.selected == l.scroll_padding && l.scroll > 0) && l.selected
            == 0,
        _ => false,
    }
}

/// The list after a key: Down moves the selection down, scrolling instead once it reaches the
/// padding above the last row; Up moves it up, scrolling instead once it reaches the padding
/// below the first row; other keys and releases leave it.
pub open spec fn after_key(l: ListSelectionView, key: Key, pressed: bool) -> ListSelectionView {
    let len = l.items.len() as int;
    let at = l.selected + l.scroll;
    match key {
        Key::Down => if pressed && at < len - 1 {
            if l.selected == l.rows - l.scroll_padding && at < len - l.scroll_padding {
                ListSelectionView { scroll: (l.scroll + 1) as usize, ..l }
            } else if l.selected < len - 1 {
                ListSelectionView { selected: (l.selected + 1) as usize, ..l }
            } else {
                l
            }
        } else {
            l
        },
        Key::Up => if pressed && at > 0 {
            if l.selected == l.scroll_padding && l.scroll > 0 {
                ListSelectionView { scroll: (l.scroll - 1) as usize, ..l }
            } else {
                ListSelectionView { selected: (l.selected - 1) as usize, ..l }
            }
        } else {
            l
        },
        _ => l,
    }
}

impl ListSelection {
    /// An empty list in a 100 by 100 area at the origin.
    pub fn new() -> (l: Self)
        ensures
            l@.rect == (ListRect { x: 0, y: 0, w: 100, h: 100 }),
            l@.items.len() == 0,
            l@.rows == 0,
            l@.selected == 0,
            l@.scroll == 0,
            l@.scroll_padding == 3,
            l@.line_height == DEFAULT_LINE_HEIGHT,
            l@.dirty,
    {
        let items: Vec<Text> = Vec::new();
        Self::with_items(ListRect { x: 0, y: 0, w: 100, h: 100 }, &items)
    }

    /// A list of `items` in `rect`, each placed 10 pixels in from the area's left edge at its
    /// top, with the first item selected, dark gray behind white text and a blue highlight.
    pub fn with_items(rect: ListRect, items: &Vec<Text>) -> (l: Self)
        requires
            items@.len() > 0 ==> items@[0]@.size * 8 + DEFAULT_LINE_HEIGHT <= u32::MAX,
            items@.len() > 0 ==> rect.x + 10 <= u32::MAX,
        ensures
            l@.rect == rect,
            l@.dirty,
            l@.selected == 0,
            l@.scroll == 0,
            l@.scroll_padding == 3,
            l@.rows == rows_for(rect, items@.map_values(|t: Text| t@)),
            l@.line_height == DEFAULT_LINE_HEIGHT,
            l@.bg_color@ == (128u8, 128u8, 128u8, 255u8),
            l@.font_color@ == (255u8, 255u8, 255u8, 255u8),
            l@.highlight_color@ == (0u8, 0u8, 255u8, 255u8),
            l@.items.len() == items@.len(),
            forall|i: int|
                0 <= i < items@.len() ==> #[trigger] l@.items[i] == (TextView {
                    x: (rect.x + 10) as u32,
                    y: rect.y,
                    ..items@[i]@
                }),
    {
        let mut owned: Vec<Text> = Vec::new();
        let mut i: usize = 0;
        while i < items.len()
            invariant
                i <= items@.len(),
                owned@.len() == i,
                items@.len() > 0 ==> rect.x + 10 <= u32::MAX,
                forall|j: int|
                    0 <= j < i ==> #[trigger] owned@[j]@ == (TextView {
                        x: (rect.x + 10) as u32,
                        y: rect.y,
                        ..items@[j]@
                    }),
            decreases items@.len() - i,
        {
            let mut t = items[i].clone();
            t.set_x(rect.x + 10);
            t.set_y(rect.y);
            owned.push(t);
            i += 1;
        }
        let rows = if owned.len() == 0 {
            0
        } else {
            let fit = (rect.h / (items[0].height() + DEFAULT_LINE_HEIGHT)) as usize;
            if owned.len() <= fit {
                owned.len()
            } else {
                fit
            }
        };
        let l = ListSelection {
            rect,
            dirty: true,
            selected: 0,
            scroll: 0,
            scroll_padding: 3,
            rows,
            line_height: DEFAULT_LINE_HEIGHT,
            bg_color: Pixel::dark_gray(),
            font_color: Pixel::white(),
            highlight_color: Pixel::blue(),
            items: owned,
        };
        assert(l@.items.len() == items@.len());
        l
    }

    /// The index of the selected item: the rows scrolled past plus the selected row.
    pub fn selected(&self) -> (s: usize)
        requires
            self@.selected + self@.scroll <= usize::MAX,
        ensures
            s == self@.selected + self@.scroll,
    {
        self.selected + self.scroll
    }

    /// Handles a key event and returns whether it was consumed: Up and Down presses and
    /// releases are, other keys are left for others.
    pub fn update(&mut self, key: Key, pressed: bool) -> (consumed: bool)
        requires
            !key_underflows(old(self)@, key, pressed),
            old(self)@.selected + old(self)@.scroll <= usize::MAX,
        ensures
            consumed == (key == Key::Up || key == Key::Down),
            final(self)@ == after_key(old(self)@, key, pressed),
    {
        let len = self.items.len();
        match key {
            Key::Down => {
                if pressed && (self.selected + self.scroll) < len - 1 {
                    if self.selected == self.rows - self.scroll_padding && (self.selected
                        + self.scroll) < len - self.scroll_padding {
                        assert(self.scroll < usize::MAX);
                        self.scroll = self.scroll + 1;
                    } else if self.selected < len - 1 {
                        self.selected = self.selected + 1;
                    }
                }
                true
            },
            Key::Up => {
                if pressed && (self.selected + self.scroll) > 0 {
                    if self.selected == self.scroll_padding && self.scroll > 0 {
                        self.scroll = self.scroll - 1;
                    } else {
                        self.selected = self.selected - 1;
                    }
                }
                true
            },
            _ => false,
        }
    }
}

impl Default for ListSelection {
    /// An empty list in a 100 by 100 area at the origin.
    fn default() -> (l: Self)
        ensures
            l@.rect == (ListRect { x: 0, y: 0, w: 100, h: 100 }),
            l@.items.len() == 0,
            l@.selected == 0,
            l@.scroll == 0,
    {
        Self::new()
    }
}

} // verus!
