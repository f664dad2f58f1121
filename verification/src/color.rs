//! RGBA colors.

use vstd::prelude::*;

verus! {

/// An 8-bit per channel RGBA color.
#[derive(Debug, Copy, Clone, PartialEq, Eq, Hash, Structural)]
pub struct Color {
    red: u8,
    green: u8,
    blue: u8,
    alpha: u8,
}

impl View for Color {
    type V = (u8, u8, u8, u8);

    /// The channels as `(red, green, blue, alpha)`.
    closed spec fn view(&self) -> (u8, u8, u8, u8) {
        (self.red, self.green, self.blue, self.alpha)
    }
}

/// The channels of the opaque color packed as `0xRRGGBB` in the low 24 bits of `hex`.
pub open spec fn hex_channels(hex: u32) -> (u8, u8, u8, u8) {
    (((hex >> 16u32) & 0xffu32) as u8, ((hex >> 8u32) & 0xffu32) as u8, (hex & 0xffu32) as u8, 255u8)
}

impl Color {
    /// An opaque color from red, green and blue.
    pub fn rgb(red: u8, green: u8, blue: u8) -> (c: Self)
        ensures
            c@ == (red, green, blue, 255u8),
    {
        Self { red, green, blue, alpha: 255 }
    }

    /// A color from red, green, blue and alpha.
    pub fn rgba(red: u8, green: u8, blue: u8, alpha: u8) -> (c: Self)
        ensures
            c@ == (red, green, blue, alpha),
    {
        Self { red, green, blue, alpha }
    }

    /// An opaque color from a `0xRRGGBB` value; bits above the low 24 are ignored.
    pub fn from_hex(hex: u32) -> (c: Self)
        ensures
            c@ == hex_channels(hex),
    {
        Self {
            red: ((hex >> 16u32) & 0xff) as u8,
            green: ((hex >> 8u32) & 0xff) as u8,
            blue: (hex & 0xff) as u8,
            alpha: 255,
        }
    }

    /// The red channel.
    pub fn red(&self) -> (v: u8)
        ensures
            v == self@.0,
    {
        self.red
    }

    /// The green channel.
    pub fn green(&self) -> (v: u8)
        ensures
            v == self@.1,
    {
        self.green
    }

    /// The blue channel.
    pub fn blue(&self) -> (v: u8)
        ensures
            v == self@.2,
    {
        self.blue
    }

    /// The alpha channel.
    pub fn alpha(&self) -> (v: u8)
        ensures
            v == self@.3,
    {
        self.alpha
    }

    /// The channels as `[red, green, blue, alpha]`.
    pub fn channels(&self) -> (c: [u8; 4])
        ensures
            c@ == seq![self@.0, self@.1, self@.2, self@.3],
    {
        let c = [self.red, self.green, self.blue, self.alpha];
        assert(c@ =~= seq![self@.0, self@.1, self@.2, self@.3]);
        c
    }

    /// Opaque white.
    pub fn white() -> (c: Self)
        ensures
            c@ == (255u8, 255u8, 255u8, 255u8),
    {
        Self::rgb(255, 255, 255)
    }

    /// Opaque black.
    pub fn black() -> (c: Self)
        ensures
            c@ == (0u8, 0u8, 0u8, 255u8),
    {
        Self::rgb(0, 0, 0)
    }
}

} // verus!
