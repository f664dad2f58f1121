//! Retained GUI elements: text labels, buttons, check boxes, radio buttons and text inputs.

use crate::gui::selection::ListSelection;
use crate::pixel::Pixel;
use vstd::prelude::*;
use vstd::string::StringSliceAdditionalSpecFns;

verus! {

/// The scale text is drawn at by default.
pub const TEXT_DEFAULT_SIZE: u32 = 2;
/// The height of text drawn at the default scale.
pub const TEXT_DEFAULT_HEIGHT: u32 = 16;

/// A retained GUI element.
#[derive(Debug)]
pub enum Element {
    ListSelection(ListSelection),
    Button(Button),
    Checkbox(Checkbox),
    RadioButton(RadioButton),
    Text(Text),
    TextInput(TextInput),
}

/// A button.
#[derive(Debug)]
pub struct Button {
    pub id: u32,
    pub text: String,
}

/// A check box.
#[derive(Debug)]
pub struct Checkbox {
    pub id: u32,
    pub label: String,
    pub checked: bool,
}

/// A group of radio buttons.
#[derive(Debug)]
pub struct RadioButton {
    pub id: u32,
    pub selected: usize,
    pub options: Vec<String>,
}

/// A text label drawn with the built-in 8x8 font at a scale.
#[derive(Debug)]
pub struct Text {
    x: u32,
    y: u32,
    text: String,
    bytes: usize,
    size: u32,
    color: Pixel,
}

/// A text input.
#[derive(Debug)]
pub struct TextInput {
    pub value: String,
    pub width: u32,
    pub has_focus: bool,
}

/// The abstract text label: position, text, its length in bytes, scale and color.
pub struct TextView {
    pub x: u32,
    pub y: u32,
    pub text: Seq<char>,
    pub bytes: nat,
    pub size: u32,
    pub color: Pixel,
}

impl View for Text {
    type V = TextView;

    closed spec fn view(&self) -> TextView {
        TextView {
            x: self.x,
            y: self.y,
            text: self.text@,
            bytes: self.bytes as nat,
            size: self.size,
            color: self.color,
        }
    }
}

impl Clone for Text {
    /// The same label.
    fn clone(&self) -> (r: Self)
        ensures
            r@ == self@,
    {
        Text {
            x: self.x,
            y: self.y,
            text: self.text.clone(),
            bytes: self.bytes,
            size: self.size,
            color: self.color,
        }
    }
}

impl Text {
    /// A white label at the origin, at the default scale.
    pub fn new(text: &str) -> (t: Self)
        ensures
            t@ == (TextView {
                x: 0,
                y: 0,
                text: text@,
                bytes: text.len() as nat,
                size: TEXT_DEFAULT_SIZE,
                color: t@.color,
            }),
            t@.color@ == (255u8, 255u8, 255u8, 255u8),
    {
        Text {
            x: 0,
            y: 0,
            text: text.to_owned(),
            bytes: text.len(),
            size: TEXT_DEFAULT_SIZE,
            color: Pixel::white(),
        }
    }

    /// The horizontal position.
    pub fn x(&self) -> (x: u32)
        ensures
            x == self@.x,
    {
        self.x
    }

    /// The vertical position.
    pub fn y(&self) -> (y: u32)
        ensures
            y == self@.y,
    {
        self.y
    }

    /// The width: 8 pixels per byte of text, times the scale.
    pub fn width(&self) -> (w: u32)
        requires
            self@.size * self@.bytes * 8 <= u32::MAX,
        ensures
            w == self@.size * self@.bytes * 8,
    {
        proof {
            assert(self.bytes <= self.size * self.bytes * 8 || self.size == 0) by (nonlinear_arith);
            assert(self.size * self.bytes <= self.size * self.bytes * 8) by (nonlinear_arith);
        }
        if self.size == 0 {
            proof {
                assert(self.size * self.bytes * 8 == 0) by (nonlinear_arith)
                    requires self.size == 0;
            }
            return 0;
        }
        self.size * self.bytes as u32 * 8
    }

    /// The height: 8 pixels times the scale.
    pub fn height(&self) -> (h: u32)
        requires
            self@.size * 8 <= u32::MAX,
        ensures
            h == self@.size * 8,
    {
        self.size * 8
    }

    /// Sets the horizontal position.
    pub fn set_x(&mut self, x: u32)
        ensures
            final(self)@ == (TextView { x, ..old(self)@ }),
    {
        self.x = x;
    }

    /// Sets the vertical position.
    pub fn set_y(&mut self, y: u32)
        ensures
            final(self)@ == (TextView { y, ..old(self)@ }),
    {
        self.y = y;
    }

    /// Sets the color.
    pub fn set_color(&mut self, color: Pixel)
        ensures
            final(self)@ == (TextView { color, ..old(self)@ }),
    {
        self.color = color;
    }

    /// The label's text.
    pub fn text(&self) -> (t: &str)
        ensures
            t@ == self@.text,
    {
        self.text.as_str()
    }
}

} // verus!
