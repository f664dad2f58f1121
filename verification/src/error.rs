//! The errors that the engine's operations report.

use crate::image::PixelFormat;
use vstd::prelude::*;

verus! {

/// The error type for engine operations.
#[derive(Debug, Clone, PartialEq, Eq)]
pub enum PixError {
    /// The byte length of an image does not match its dimensions and format.
    InvalidImage { width: u32, height: u32, size: usize, format: PixelFormat },
    /// An image source uses a bit depth or color type the engine does not load.
    UnsupportedImageFormat { bit_depth: crate::image::PngBitDepth, color_type: crate::image::PngColorType },
    /// The data is not a PNG image the decoder can read.
    PngDecoding,
    /// The encoder could not write the image as PNG.
    PngEncoding,
    /// A value passed to an operation is out of its range.
    InvalidValue,
}

/// The result type for engine operations.
pub type PixResult<T> = Result<T, PixError>;

} // verus!
