//! Packed 8-bit RGBA pixels and a palette of named pixel values.

use vstd::prelude::*;

verus! {

/// Bit offset of the red channel in a packed `0xRRGGBBAA` value.
pub const RED_SHIFT: u32 = 24;
/// Bit offset of the green channel in a packed `0xRRGGBBAA` value.
pub const GREEN_SHIFT: u32 = 16;
/// Bit offset of the blue channel in a packed `0xRRGGBBAA` value.
pub const BLUE_SHIFT: u32 = 8;
/// Bit offset of the alpha channel in a packed `0xRRGGBBAA` value.
pub const ALPHA_SHIFT: u32 = 0;

/// Whether a pixel carries an alpha channel.
#[derive(Debug, Copy, Clone, PartialEq, Eq, Structural)]
pub enum ColorType {
    Rgb,
    Rgba,
}

/// An 8-bit RGBA pixel.
#[derive(Debug, Copy, Clone, PartialEq, Eq, Structural)]
pub struct Pixel {
    r: u8,
    g: u8,
    b: u8,
    a: u8,
}

impl View for Pixel {
    type V = (u8, u8, u8, u8);

    /// The channels as `(red, green, blue, alpha)`.
    closed spec fn view(&self) -> (u8, u8, u8, u8) {
        (self.r, self.g, self.b, self.a)
    }
}

impl Pixel {
    /// An opaque pixel from red, green and blue.
    pub fn rgb(r: u8, g: u8, b: u8) -> (p: Self)
        ensures
            p@ == (r, g, b, 255u8),
    {
        Self::rgba(r, g, b, 255)
    }

    /// A pixel from red, green, blue and alpha.
    pub fn rgba(r: u8, g: u8, b: u8, a: u8) -> (p: Self)
        ensures
            p@ == (r, g, b, a),
    {
        Self { r, g, b, a }
    }

    /// A pixel from a packed `0xRRGGBBAA` value.
    pub fn from_u32(color: u32) -> (p: Self)
        ensures
            p@ == (
                (color >> RED_SHIFT) as u8,
                (color >> GREEN_SHIFT) as u8,
                (color >> BLUE_SHIFT) as u8,
                (color >> ALPHA_SHIFT) as u8,
            ),
    {
        Self {
            r: (color >> RED_SHIFT) as u8,
            g: (color >> GREEN_SHIFT) as u8,
            b: (color >> BLUE_SHIFT) as u8,
            a: (color >> ALPHA_SHIFT) as u8,
        }
    }

    /// The red channel.
    pub fn r(self) -> (v: u8)
        ensures
            v == self@.0,
    {
        self.r
    }

    /// Sets the red channel of this copy of the pixel; the caller's value is left as it was,
    /// since the pixel is taken by value.
    pub fn set_r(self, r: u8) {
        let mut copy = self;
        copy.r = r;
    }

    /// The green channel.
    pub fn g(self) -> (v: u8)
        ensures
            v == self@.1,
    {
        self.g
    }

    /// Sets the green channel of this copy of the pixel; the caller's value is left as it was.
    pub fn set_g(self, g: u8) {
        let mut copy = self;
        copy.g = g;
    }

    /// The blue channel.
    pub fn b(self) -> (v: u8)
        ensures
            v == self@.2,
    {
        self.b
    }

    /// Sets the blue channel of this copy of the pixel; the caller's value is left as it was.
    pub fn set_b(self, b: u8) {
        let mut copy = self;
        copy.b = b;
    }

    /// The alpha channel.
    pub fn a(self) -> (v: u8)
        ensures
            v == self@.3,
    {
        self.a
    }

    /// Sets the alpha channel of this copy of the pixel; the caller's value is left as it was.
    pub fn set_a(self, a: u8) {
        let mut copy = self;
        copy.a = a;
    }

    /// Opaque white.
    pub fn white() -> (p: Self)
        ensures
            p@ == (255u8, 255u8, 255u8, 255u8),
    {
        Self::rgb(255, 255, 255)
    }

    /// Opaque black.
    pub fn black() -> (p: Self)
        ensures
            p@ == (0u8, 0u8, 0u8, 255u8),
    {
        Self::rgb(0, 0, 0)
    }

    /// Fully transparent black.
    pub fn transparent() -> (p: Self)
        ensures
            p@ == (0u8, 0u8, 0u8, 0u8),
    {
        Self::rgba(0, 0, 0, 0)
    }

    /// Light gray.
    pub fn gray() -> (p: Self)
        ensures
            p@ == (192u8, 192u8, 192u8, 255u8),
    {
        Self::rgb(192, 192, 192)
    }

    /// Mid gray.
    pub fn dark_gray() -> (p: Self)
        ensures
            p@ == (128u8, 128u8, 128u8, 255u8),
    {
        Self::rgb(128, 128, 128)
    }

    /// Dark gray.
    pub fn very_dark_gray() -> (p: Self)
        ensures
            p@ == (64u8, 64u8, 64u8, 255u8),
    {
        Self::rgb(64, 64, 64)
    }

    /// Red.
    pub fn red() -> (p: Self)
        ensures
            p@ == (255u8, 0u8, 0u8, 255u8),
    {
        Self::rgb(255, 0, 0)
    }

    /// Dark red.
    pub fn dark_red() -> (p: Self)
        ensures
            p@ == (128u8, 0u8, 0u8, 255u8),
    {
        Self::rgb(128, 0, 0)
    }

    /// Very dark red.
    pub fn very_dark_red() -> (p: Self)
        ensures
            p@ == (64u8, 0u8, 0u8, 255u8),
    {
        Self::rgb(64, 0, 0)
    }

    /// Orange.
    pub fn orange() -> (p: Self)
        ensures
            p@ == (255u8, 128u8, 0u8, 255u8),
    {
        Self::rgb(255, 128, 0)
    }

    /// Yellow.
    pub fn yellow() -> (p: Self)
        ensures
            p@ == (255u8, 255u8, 0u8, 255u8),
    {
        Self::rgb(255, 255, 0)
    }

    /// Dark yellow.
    pub fn dark_yellow() -> (p: Self)
        ensures
            p@ == (128u8, 128u8, 0u8, 255u8),
    {
        Self::rgb(128, 128, 0)
    }

    /// Very dark yellow.
    pub fn very_dark_yellow() -> (p: Self)
        ensures
            p@ == (64u8, 64u8, 0u8, 255u8),
    {
        Self::rgb(64, 64, 0)
    }

    /// Green.
    pub fn green() -> (p: Self)
        ensures
            p@ == (0u8, 255u8, 0u8, 255u8),
    {
        Self::rgb(0, 255, 0)
    }

    /// Dark green.
    pub fn dark_green() -> (p: Self)
        ensures
            p@ == (0u8, 128u8, 0u8, 255u8),
    {
        Self::rgb(0, 128, 0)
    }

    /// Very dark green.
    pub fn very_dark_green() -> (p: Self)
        ensures
            p@ == (0u8, 64u8, 0u8, 255u8),
    {
        Self::rgb(0, 64, 0)
    }

    /// Cyan.
    pub fn cyan() -> (p: Self)
        ensures
            p@ == (0u8, 255u8, 255u8, 255u8),
    {
        Self::rgb(0, 255, 255)
    }

    /// Dark cyan.
    pub fn dark_cyan() -> (p: Self)
        ensures
            p@ == (0u8, 128u8, 128u8, 255u8),
    {
        Self::rgb(0, 128, 128)
    }

    /// Very dark cyan.
    pub fn very_dark_cyan() -> (p: Self)
        ensures
            p@ == (0u8, 64u8, 64u8, 255u8),
    {
        Self::rgb(0, 64, 64)
    }

    /// Blue.
    pub fn blue() -> (p: Self)
        ensures
            p@ == (0u8, 0u8, 255u8, 255u8),
    {
        Self::rgb(0, 0, 255)
    }

    /// Dark blue.
    pub fn dark_blue() -> (p: Self)
        ensures
            p@ == (0u8, 0u8, 128u8, 255u8),
    {
        Self::rgb(0, 0, 128)
    }

    /// Very dark blue.
    pub fn very_dark_blue() -> (p: Self)
        ensures
            p@ == (0u8, 0u8, 64u8, 255u8),
    {
        Self::rgb(0, 0, 64)
    }

    /// Magenta.
    pub fn magenta() -> (p: Self)
        ensures
            p@ == (255u8, 0u8, 255u8, 255u8),
    {
        Self::rgb(255, 0, 255)
    }

    /// Dark magenta.
    pub fn dark_magenta() -> (p: Self)
        ensures
            p@ == (128u8, 0u8, 128u8, 255u8),
    {
        Self::rgb(128, 0, 128)
    }

    /// Very dark magenta.
    pub fn very_dark_magenta() -> (p: Self)
        ensures
            p@ == (64u8, 0u8, 64u8, 255u8),
    {
        Self::rgb(64, 0, 64)
    }
}

/// A channel scaled by an alpha: `channel * alpha / 255`, rounded down.
pub open spec fn scaled_channel(channel: u8, alpha: u8) -> u8 {
    (channel as int * alpha as int / 255) as u8
}

/// Returns `channel * alpha / 255`, rounded down.
fn scale_channel(channel: u8, alpha: u32) -> (r: u8)
    requires
        alpha <= 255,
    ensures
        r == scaled_channel(channel, alpha as u8),
{
    let c = channel as u32;
    assert(c * alpha <= 255 * 255) by (nonlinear_arith)
        requires c <= 255, alpha <= 255;
    assert(c * alpha / 255 <= 255) by (nonlinear_arith)
        requires c * alpha <= 255 * 255;
    (c * alpha / 255) as u8
}

/// Scales a straight-alpha pixel's color channels by its alpha (the first four bytes of
/// `pixel`, red, green, blue and alpha), keeping the alpha.
pub fn premultiply(pixel: &[u8]) -> (r: [u8; 4])
    requires
        pixel@.len() >= 4,
    ensures
        r@ == seq![
            scaled_channel(pixel@[0], pixel@[3]),
            scaled_channel(pixel@[1], pixel@[3]),
            scaled_channel(pixel@[2], pixel@[3]),
            pixel@[3],
        ],
{
    let alpha = pixel[3] as u32;
    let r = [scale_channel(pixel[0], alpha), scale_channel(pixel[1], alpha), scale_channel(pixel[2], alpha), pixel[3]];
    assert(r@ =~= seq![
        scaled_channel(pixel@[0], pixel@[3]),
        scaled_channel(pixel@[1], pixel@[3]),
        scaled_channel(pixel@[2], pixel@[3]),
        pixel@[3],
    ]);
    r
}


} // verus!
