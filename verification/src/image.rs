//! [Image] and [`PixelFormat`] functions.

use crate::color::Color;
use crate::error::{PixError, PixResult};
use crate::ops::{clamp_dimensions, clamp_size_spec};
use crate::shape::{Point, PointI2, Rect};
use png::BitDepth as B;
use png::ColorType as C;
use vstd::prelude::*;

verus! {

/// Format for interpreting image data.
#[derive(Debug, Copy, Clone, PartialEq, Eq, Hash, Structural)]
pub enum PixelFormat {
    /// 8-bit Red, Green, and Blue
    Rgb,
    /// 8-bit Red, Green, Blue, and Alpha
    Rgba,
}

/// The number of bytes each pixel takes in a format.
pub open spec fn format_channels(format: PixelFormat) -> nat {
    match format {
        PixelFormat::Rgb => 3,
        PixelFormat::Rgba => 4,
    }
}

impl PixelFormat {
    /// Returns the number of channels associated with the format.
    pub fn channels(&self) -> (c: usize)
        ensures
            c == format_channels(*self),
    {
        match self {
            PixelFormat::Rgb => 3,
            PixelFormat::Rgba => 4,
        }
    }
}

impl Default for PixelFormat {
    /// RGBA.
    fn default() -> (f: Self)
        ensures
            f == PixelFormat::Rgba,
    {
        Self::Rgba
    }
}

/// The color types a PNG image can hold.
#[derive(Debug, Copy, Clone, PartialEq, Eq, Hash, Structural)]
pub enum PngColorType {
    Grayscale,
    Rgb,
    Indexed,
    GrayscaleAlpha,
    Rgba,
}

/// The number of bits per sample of a PNG image.
#[derive(Debug, Copy, Clone, PartialEq, Eq, Hash, Structural)]
pub enum PngBitDepth {
    One,
    Two,
    Four,
    Eight,
    Sixteen,
}

/// A decoded PNG frame: its size, sample depth, color type and pixel bytes.
#[derive(Debug)]
pub struct PngFrame {
    pub width: u32,
    pub height: u32,
    pub bit_depth: PngBitDepth,
    pub color_type: PngColorType,
    pub data: Vec<u8>,
}

/// The abstract decoded PNG frame.
pub struct PngFrameView {
    pub width: u32,
    pub height: u32,
    pub bit_depth: PngBitDepth,
    pub color_type: PngColorType,
    pub data: Seq<u8>,
}

impl View for PngFrame {
    type V = PngFrameView;

    open spec fn view(&self) -> PngFrameView {
        PngFrameView {
            width: self.width,
            height: self.height,
            bit_depth: self.bit_depth,
            color_type: self.color_type,
            data: self.data@,
        }
    }
}

#[verifier::external_type_specification]
#[verifier::external_body]
pub struct ExPngDecodingError(png::DecodingError);

#[verifier::external_type_specification]
#[verifier::external_body]
pub struct ExPngEncodingError(png::EncodingError);

/// Whether the encoder takes an image's bytes: they match its size, and a row's length fits a
/// `usize`.
pub open spec fn encodable(v: ImageView) -> bool {
    &&& format_channels(v.format) * v.width * v.height == v.data.len()
    &&& format_channels(v.format) * v.width < usize::MAX
}

/// What the PNG decoder makes of some bytes: the first frame, or nothing when it fails.
pub uninterp spec fn png_decoded(bytes: Seq<u8>) -> Option<PngFrameView>;

/// What the PNG encoder makes of an 8-bit image of the given size, RGBA (`true`) or RGB, and
/// pixel bytes: the PNG file's bytes, or nothing when it fails.
pub uninterp spec fn png_encoded(width: u32, height: u32, rgba: bool, data: Seq<u8>) -> Option<Seq<u8>>;

/// `png::Decoder::read_info` and `Reader::next_frame`: decodes the first frame of a PNG file
/// held in memory, into a buffer cut to the frame's size. The result is the decoder's, named
/// [`png_decoded`]; nothing is stated of how it decodes, nor of the inputs on which the
/// decoder's own buffer arithmetic overflows.
#[verifier::external_body]
fn png_decode(bytes: &[u8]) -> (r: Result<PngFrame, png::DecodingError>)
    ensures
        match png_decoded(bytes@) {
            Some(f) => r matches Ok(g) && g@ == f,
            None => r is Err,
        },
{
    let mut reader = png::Decoder::new(bytes).read_info()?;
    let mut data = vec![0; reader.output_buffer_size()];
    let info = reader.next_frame(&mut data)?;
    data.truncate(info.buffer_size());
    let bit_depth = match info.bit_depth { B::One => PngBitDepth::One, B::Two => PngBitDepth::Two, B::Four => PngBitDepth::Four, B::Eight => PngBitDepth::Eight, B::Sixteen => PngBitDepth::Sixteen };
    let color_type = match info.color_type { C::Grayscale => PngColorType::Grayscale, C::Rgb => PngColorType::Rgb, C::Indexed => PngColorType::Indexed, C::GrayscaleAlpha => PngColorType::GrayscaleAlpha, C::Rgba => PngColorType::Rgba };
    Ok(PngFrame { width: info.width, height: info.height, bit_depth, color_type, data })
}

/// `png::Encoder::write_header` and `Writer::write_image_data`: encodes 8-bit pixel bytes of
/// the given size, RGBA or RGB, as a PNG file in memory. The result is the encoder's, named
/// [`png_encoded`]. The encoder computes a row's length and the image's size unchecked once
/// the header is accepted (width and height not 0), so those products must fit a `usize`.
#[verifier::external_body]
fn png_encode(width: u32, height: u32, rgba: bool, data: &[u8]) -> (r: Result<Vec<u8>, png::EncodingError>)
    requires
        width > 0 && height > 0 ==> {
            let c: int = if rgba { 4 } else { 3 };
            &&& c * width + 1 <= usize::MAX
            &&& c * width * height <= usize::MAX
        },
    ensures
        match png_encoded(width, height, rgba, data@) {
            Some(b) => r matches Ok(v) && v@ == b,
            None => r is Err,
        },
{
    let mut out = Vec::new();
    let mut encoder = png::Encoder::new(&mut out, width, height);
    encoder.set_color(if rgba { png::ColorType::Rgba } else { png::ColorType::Rgb });
    encoder.set_depth(png::BitDepth::Eight);
    encoder.write_header()?.write_image_data(data)?;
    Ok(out)
}

/// The error type returned when a checked conversion from [`PngColorType`] fails.
#[derive(Debug, Copy, Clone, PartialEq, Eq, Structural)]
pub struct TryFromColorTypeError;

/// The pixel format a PNG color type loads as, if the engine loads it.
pub open spec fn format_of_color_type(color_type: PngColorType) -> Option<PixelFormat> {
    match color_type {
        PngColorType::Rgb => Some(PixelFormat::Rgb),
        PngColorType::Rgba => Some(PixelFormat::Rgba),
        _ => None,
    }
}

impl TryFrom<PngColorType> for PixelFormat {
    type Error = TryFromColorTypeError;

    /// RGB and RGBA convert to the format of the same name; other color types are refused.
    fn try_from(color_type: PngColorType) -> (r: Result<Self, Self::Error>)
        ensures
            r == (match format_of_color_type(color_type) {
                Some(f) => Ok(f),
                None => Err(TryFromColorTypeError),
            }),
    {
        match color_type {
            PngColorType::Rgb => Ok(Self::Rgb),
            PngColorType::Rgba => Ok(Self::Rgba),
            _ => Err(TryFromColorTypeError),
        }
    }
}

impl vstd::std_specs::convert::TryFromSpecImpl<PngColorType> for PixelFormat {
    open spec fn obeys_try_from_spec() -> bool {
        true
    }

    open spec fn try_from_spec(color_type: PngColorType) -> Result<Self, TryFromColorTypeError> {
        match format_of_color_type(color_type) {
            Some(f) => Ok(f),
            None => Err(TryFromColorTypeError),
        }
    }
}

/// An `Image` representing a buffer of pixel color values.
#[derive(Clone, Debug)]
pub struct Image {
    /// `Image` width.
    width: u32,
    /// `Image` height.
    height: u32,
    /// Raw pixel data.
    data: Vec<u8>,
    /// Pixel Format.
    format: PixelFormat,
}

/// The abstract contents of an [Image].
pub struct ImageView {
    pub width: u32,
    pub height: u32,
    pub data: Seq<u8>,
    pub format: PixelFormat,
}

impl View for Image {
    type V = ImageView;

    closed spec fn view(&self) -> ImageView {
        ImageView { width: self.width, height: self.height, data: self.data@, format: self.format }
    }
}

/// An image of the given size and format whose bytes are all 0.
pub open spec fn blank_image(width: u32, height: u32, format: PixelFormat) -> ImageView {
    ImageView {
        width,
        height,
        data: Seq::new((format_channels(format) * width * height) as nat, |i: int| 0u8),
        format,
    }
}

impl Default for Image {
    /// An empty RGBA image, 0 by 0.
    fn default() -> (img: Self)
        ensures
            img@ == blank_image(0, 0, PixelFormat::Rgba),
    {
        let img = Image { width: 0, height: 0, data: Vec::new(), format: PixelFormat::Rgba };
        assert(img@.data =~= blank_image(0, 0, PixelFormat::Rgba).data);
        img
    }
}

/// The number of bytes an image of the given size and format holds.
pub open spec fn image_size(width: u32, height: u32, format: PixelFormat) -> nat {
    (format_channels(format) * width * height) as nat
}

/// The `i`-th channel of a color, in the order red, green, blue, alpha.
pub open spec fn channel(c: Color, i: int) -> u8 {
    if i == 0 {
        c@.0
    } else if i == 1 {
        c@.1
    } else if i == 2 {
        c@.2
    } else {
        c@.3
    }
}

/// The bytes of a sequence of colors: each color's first `format_channels(format)` channels,
/// one color after another.
pub open spec fn pixel_bytes(pixels: Seq<Color>, format: PixelFormat) -> Seq<u8> {
    let c = format_channels(format) as int;
    Seq::new((pixels.len() * c) as nat, |k: int| channel(pixels[k / c], k % c))
}

/// The color stored at byte offset `o`: three channels and full alpha for RGB, four channels
/// for RGBA.
pub open spec fn color_at(data: Seq<u8>, o: int, format: PixelFormat) -> (u8, u8, u8, u8) {
    match format {
        PixelFormat::Rgb => (data[o], data[o + 1], data[o + 2], 255u8),
        PixelFormat::Rgba => (data[o], data[o + 1], data[o + 2], data[o + 3]),
    }
}

/// The byte offset of pixel `(x, y)` in an image of the given width and format.
pub open spec fn pixel_offset(x: u32, y: u32, width: u32, format: PixelFormat) -> int {
    format_channels(format) * (y * width + x)
}

/// Whether pixel `(x, y)` lies within the image's data and its offset fits the machine.
pub open spec fn pixel_in_range(img: ImageView, x: u32, y: u32) -> bool {
    &&& y * img.width + x <= u32::MAX
    &&& pixel_offset(x, y, img.width, img.format) + format_channels(img.format) <= img.data.len()
}

impl Image {
    /// Constructs an empty RGBA `Image` with given `width` and `height`.
    pub fn new(width: u32, height: u32) -> (img: Self)
        requires
            width * height <= u32::MAX,
            4 * width * height <= usize::MAX,
        ensures
            img@ == blank_image(width, height, PixelFormat::Rgba),
    {
        Self::with_rgba(width, height)
    }

    /// Constructs an empty RGBA `Image` with given `width` and `height`.
    pub fn with_rgba(width: u32, height: u32) -> (img: Self)
        requires
            width * height <= u32::MAX,
            4 * width * height <= usize::MAX,
        ensures
            img@ == blank_image(width, height, PixelFormat::Rgba),
    {
        let format = PixelFormat::Rgba;
        proof {
            lemma_mul_assoc(4, width as nat, height as nat);
        }
        let n = format.channels() * ((width * height) as usize);
        let data = zeroed(n);
        assert(data@ =~= Seq::new((4 * width * height) as nat, |i: int| 0u8));
        Self::from_vec(width, height, data, format)
    }

    /// Constructs an empty RGB `Image` with given `width` and `height`.
    pub fn with_rgb(width: u32, height: u32) -> (img: Self)
        requires
            width * height <= u32::MAX,
            3 * width * height <= usize::MAX,
        ensures
            img@ == blank_image(width, height, PixelFormat::Rgb),
    {
        let format = PixelFormat::Rgb;
        proof {
            lemma_mul_assoc(3, width as nat, height as nat);
        }
        let n = format.channels() * ((width * height) as usize);
        let data = zeroed(n);
        assert(data@ =~= Seq::new((3 * width * height) as nat, |i: int| 0u8));
        Self::from_vec(width, height, data, format)
    }

    /// Constructs an `Image` from a [u8] slice representing RGB/A values.
    ///
    /// If the bytes length doesn't match the image dimensions and [`PixelFormat`] provided, then
    /// an error is returned.
    pub fn from_bytes(width: u32, height: u32, bytes: &[u8], format: PixelFormat) -> (r: PixResult<
        Self,
    >)
        requires
            format_channels(format) * width <= usize::MAX,
            image_size(width, height, format) <= usize::MAX,
        ensures
            bytes@.len() == image_size(width, height, format) <==> r is Ok,
            r matches Ok(img) ==> img@ == (ImageView { width, height, data: bytes@, format }),
            r matches Err(e) ==> e == (PixError::InvalidImage {
                width,
                height,
                size: bytes@.len() as usize,
                format,
            }),
    {
        proof {
            lemma_mul_assoc(format_channels(format), width as nat, height as nat);
        }
        if bytes.len() != format.channels() * width as usize * height as usize {
            return Err(PixError::InvalidImage { width, height, size: bytes.len(), format });
        }
        let data = vstd::slice::slice_to_vec(bytes);
        Ok(Self::from_vec(width, height, data, format))
    }

    /// Constructs an `Image` from a [Color] slice.
    ///
    /// If the pixels length doesn't match the image dimensions, then an error is returned.
    pub fn from_pixels(width: u32, height: u32, pixels: &[Color], format: PixelFormat) -> (r:
        PixResult<Self>)
        requires
            image_size(width, height, format) <= usize::MAX,
            pixels@.len() * format_channels(format) <= usize::MAX,
        ensures
            pixels@.len() == width * height <==> r is Ok,
            r matches Ok(img) ==> img@ == (ImageView {
                width,
                height,
                data: pixel_bytes(pixels@, format),
                format,
            }),
            r matches Err(e) ==> e == (PixError::InvalidImage {
                width,
                height,
                size: (pixels@.len() * format_channels(format)) as usize,
                format,
            }),
    {
        let c = format.channels();
        proof {
            lemma_mul_assoc(format_channels(format), width as nat, height as nat);
            assert(width * height <= format_channels(format) * (width * height)) by (nonlinear_arith);
        }
        if pixels.len() != width as usize * height as usize {
            return Err(
                PixError::InvalidImage { width, height, size: pixels.len() * c, format },
            );
        }
        let mut bytes: Vec<u8> = Vec::new();
        let mut i: usize = 0;
        while i < pixels.len()
            invariant
                i <= pixels@.len(),
                pixels@.len() == width * height,
                c == format_channels(format),
                image_size(width, height, format) <= usize::MAX,
                bytes@ == pixel_bytes(pixels@.subrange(0, i as int), format),
            decreases pixels@.len() - i,
        {
            let ch = pixels[i].channels();
            let ghost prev = bytes@;
            let mut k: usize = 0;
            while k < c
                invariant
                    k <= c,
                    i < pixels@.len(),
                    c == format_channels(format),
                    ch@ == seq![pixels@[i as int]@.0, pixels@[i as int]@.1, pixels@[i as int]@.2, pixels@[i as int]@.3],
                    bytes@ == prev + Seq::new(k as nat, |j: int| channel(pixels@[i as int], j)),
                decreases c - k,
            {
                bytes.push(ch[k]);
                proof {
                    assert(bytes@ =~= prev + Seq::new((k + 1) as nat, |j: int| channel(pixels@[i as int], j)));
                }
                k += 1;
            }
            proof {
                let ci = c as int;
                let s = pixels@.subrange(0, i + 1);
                assert(s.subrange(0, i as int) =~= pixels@.subrange(0, i as int));
                lemma_pixel_bytes_push(pixels@.subrange(0, i as int), pixels@[i as int], format);
                assert(s =~= pixels@.subrange(0, i as int).push(pixels@[i as int]));
            }
            i += 1;
        }
        assert(pixels@.subrange(0, pixels@.len() as int) =~= pixels@);
        Ok(Self::from_vec(width, height, bytes, format))
    }

    /// Constructs an `Image` from a [`Vec<u8>`] representing RGB/A values.
    pub fn from_vec(width: u32, height: u32, data: Vec<u8>, format: PixelFormat) -> (img: Self)
        ensures
            img@ == (ImageView { width, height, data: data@, format }),
    {
        Self { width, height, data, format }
    }

    /// Returns the `Image` width.
    pub fn width(&self) -> (w: u32)
        ensures
            w == self@.width,
    {
        self.width
    }

    /// Returns the `Image` height.
    pub fn height(&self) -> (h: u32)
        ensures
            h == self@.height,
    {
        self.height
    }

    /// Returns the `Image` dimensions as `(width, height)`.
    pub fn dimensions(&self) -> (d: (u32, u32))
        ensures
            d == (self@.width, self@.height),
    {
        (self.width, self.height)
    }

    /// Returns the `pitch` of the image data which is the number of bytes in a row of pixel data.
    pub fn pitch(&self) -> (p: usize)
        requires
            self@.width * format_channels(self@.format) <= usize::MAX,
        ensures
            p == self@.width * format_channels(self@.format),
    {
        self.width as usize * self.format.channels()
    }

    /// Returns the `Image` bounding [Rect] positioned at `(0, 0)`, its width and height clamped
    /// to half of [`i32::MAX`].
    pub fn bounding_rect(&self) -> (r: Rect<i32>)
        ensures
            r@ == (0i32, 0i32, clamp_size_spec(self@.width), clamp_size_spec(self@.height)),
    {
        let (width, height) = clamp_dimensions(self.width, self.height);
        Rect::new(0, 0, width, height)
    }

    /// Returns the `Image` bounding [Rect] positioned at `offset`, its width and height clamped
    /// to half of [`i32::MAX`].
    pub fn bounding_rect_offset(&self, offset: PointI2) -> (r: Rect<i32>)
        ensures
            r@ == (offset@[0], offset@[1], clamp_size_spec(self@.width), clamp_size_spec(
                self@.height,
            )),
    {
        let (width, height) = clamp_dimensions(self.width, self.height);
        Rect::with_position(offset, width, height)
    }

    /// Returns the center position as [Point], from the clamped width and height.
    pub fn center(&self) -> (p: PointI2)
        ensures
            p@ == seq![(clamp_size_spec(self@.width) / 2) as i32, (clamp_size_spec(self@.height) / 2) as i32],
    {
        let (width, height) = clamp_dimensions(self.width, self.height);
        let p = Point::new([width / 2, height / 2]);
        assert(p@ =~= seq![(clamp_size_spec(self@.width) / 2) as i32, (clamp_size_spec(self@.height) / 2) as i32]);
        p
    }

    /// Returns a cursor over the `Image` pixel data, one byte at a time.
    pub fn bytes(&self) -> (b: Bytes)
        ensures
            b@ == self@.data,
    {
        Bytes { data: self.data.clone(), pos: 0 }
    }

    /// Returns the `Image` pixel data as a [u8] slice.
    pub fn as_bytes(&self) -> (b: &[u8])
        ensures
            b@ == self@.data,
    {
        self.data.as_slice()
    }

    /// Returns the `Image` pixel data as a mutable [u8] slice.
    pub fn as_mut_bytes(&mut self) -> (b: &mut [u8])
        ensures
            b@ == old(self)@.data,
            final(self)@ == (ImageView { data: final(b)@, ..old(self)@ }),
    {
        self.data.as_mut_slice()
    }

    /// Returns the `Image` pixel data as a [`Vec<u8>`].
    pub fn into_bytes(self) -> (b: Vec<u8>)
        ensures
            b@ == self@.data,
    {
        self.data
    }

    /// Returns a cursor over the `Image` pixel data, one [Color] at a time.
    pub fn pixels(&self) -> (p: Pixels)
        ensures
            p@ == (format_channels(self@.format), self@.data),
    {
        Pixels { channels: self.format.channels(), data: self.data.clone(), pos: 0 }
    }

    /// Returns the `Image` pixel data as a [`Vec<Color>`].
    pub fn into_pixels(self) -> (r: Vec<Color>)
        requires
            self@.data.len() % format_channels(self@.format) == 0,
        ensures
            r@.len() == self@.data.len() / format_channels(self@.format),
            forall|i: int|
                0 <= i < r@.len() ==> #[trigger] r@[i]@ == color_at(
                    self@.data,
                    i * format_channels(self@.format),
                    self@.format,
                ),
    {
        let c = self.format.channels();
        let len = self.data.len();
        let n = len / c;
        let mut out: Vec<Color> = Vec::new();
        let mut i: usize = 0;
        while i < n
            invariant
                i <= n,
                c == format_channels(self.format),
                n == (self.data@.len() as int) / (c as int),
                (self.data@.len() as int) % (c as int) == 0,
                len == self.data@.len(),
                out@.len() == i,
                forall|j: int|
                    0 <= j < i ==> #[trigger] out@[j]@ == color_at(self.data@, j * c, self.format),
            decreases n - i,
        {
            proof {
                assert((i + 1) * c <= n * c) by (nonlinear_arith)
                    requires
                        i < n,
                        c > 0,
                ;
                assert(n * c == self.data@.len()) by (nonlinear_arith)
                    requires
                        n == (self.data@.len() as int) / (c as int),
                        (self.data@.len() as int) % (c as int) == 0,
                        c > 0,
                ;
                assert(i * c + c == (i + 1) * c) by (nonlinear_arith);
                assert(i * c + c <= self.data@.len());
            }
            let o = i * c;
            let color = match self.format {
                PixelFormat::Rgb => Color::rgb(self.data[o], self.data[o + 1], self.data[o + 2]),
                PixelFormat::Rgba => Color::rgba(
                    self.data[o],
                    self.data[o + 1],
                    self.data[o + 2],
                    self.data[o + 3],
                ),
            };
            out.push(color);
            i += 1;
        }
        out
    }

    /// Returns the color value at the given `(x, y)` position.
    pub fn get_pixel(&self, x: u32, y: u32) -> (c: Color)
        requires
            pixel_in_range(self@, x, y),
        ensures
            c@ == color_at(self@.data, pixel_offset(x, y, self@.width, self@.format), self@.format),
    {
        let len = self.data.len();
        let idx = self.idx(x, y);
        match self.format {
            PixelFormat::Rgb => Color::rgb(self.data[idx], self.data[idx + 1], self.data[idx + 2]),
            PixelFormat::Rgba => Color::rgba(
                self.data[idx],
                self.data[idx + 1],
                self.data[idx + 2],
                self.data[idx + 3],
            ),
        }
    }

    /// Sets the color value at the given `(x, y)` position: the pixel's bytes become the
    /// color's first `channels` channels, and every other byte is left as it was.
    pub fn set_pixel(&mut self, x: u32, y: u32, color: Color)
        requires
            pixel_in_range(old(self)@, x, y),
        ensures
            final(self)@.width == old(self)@.width,
            final(self)@.height == old(self)@.height,
            final(self)@.format == old(self)@.format,
            final(self)@.data.len() == old(self)@.data.len(),
            forall|k: int|
                0 <= k < old(self)@.data.len() ==> #[trigger] final(self)@.data[k] == {
                    let o = pixel_offset(x, y, old(self)@.width, old(self)@.format);
                    if o <= k < o + format_channels(old(self)@.format) {
                        channel(color, k - o)
                    } else {
                        old(self)@.data[k]
                    }
                },
    {
        let len = self.data.len();
        let idx = self.idx(x, y);
        let c = self.format.channels();
        let ch = color.channels();
        let ghost start = self.data@;
        let mut k: usize = 0;
        while k < c
            invariant
                k <= c,
                c == format_channels(self.format),
                idx == pixel_offset(x, y, self.width, self.format),
                idx + c <= start.len(),
                start.len() == len,
                self.data@.len() == start.len(),
                self.width == old(self).width,
                self.height == old(self).height,
                self.format == old(self).format,
                start == old(self).data@,
                ch@ == seq![color@.0, color@.1, color@.2, color@.3],
                forall|j: int|
                    0 <= j < start.len() ==> #[trigger] self.data@[j] == if idx <= j < idx + k {
                        channel(color, j - idx)
                    } else {
                        start[j]
                    },
            decreases c - k,
        {
            self.data.set(idx + k, ch[k]);
            k += 1;
        }
    }

    /// Replaces the `Image` bytes with a slice of the same length.
    pub fn update_bytes(&mut self, bytes: &[u8])
        requires
            bytes@.len() == old(self)@.data.len(),
        ensures
            final(self)@ == (ImageView { data: bytes@, ..old(self)@ }),
    {
        self.data = vstd::slice::slice_to_vec(bytes);
    }

    /// Returns the `Image` pixel format.
    pub fn format(&self) -> (f: PixelFormat)
        ensures
            f == self@.format,
    {
        self.format
    }

    /// Helper function to get the byte array index based on `(x, y)`.
    fn idx(&self, x: u32, y: u32) -> (i: usize)
        requires
            y * self@.width + x <= u32::MAX,
            pixel_offset(x, y, self@.width, self@.format) <= usize::MAX,
        ensures
            i == pixel_offset(x, y, self@.width, self@.format),
    {
        proof {
            assert(0 <= y * self.width) by (nonlinear_arith);
        }
        self.format.channels() * (y * self.width + x) as usize
    }
}

/// The bytes of colors followed by one more color are the bytes of the colors followed by
/// that color's channels.
/// Multiplication of three sizes groups either way.
proof fn lemma_mul_assoc(c: nat, w: nat, h: nat)
    ensures
        c * w * h == c * (w * h),
        c * (w * h) >= w * h || c == 0,
{
    assert(c * w * h == c * (w * h)) by (nonlinear_arith);
    assert(c * (w * h) >= w * h || c == 0) by (nonlinear_arith);
}

proof fn lemma_pixel_bytes_push(pixels: Seq<Color>, c: Color, format: PixelFormat)
    ensures
        pixel_bytes(pixels.push(c), format) == pixel_bytes(pixels, format) + Seq::new(
            format_channels(format),
            |j: int| channel(c, j),
        ),
{
    let n = format_channels(format) as int;
    let a = pixel_bytes(pixels.push(c), format);
    let b = pixel_bytes(pixels, format) + Seq::new(format_channels(format), |j: int| channel(c, j));
    assert(pixels.len() * n + n == (pixels.len() + 1) * n) by (nonlinear_arith);
    assert forall|k: int| 0 <= k < a.len() implies a[k] == b[k] by {
        if k < pixels.len() * n {
            assert(k / n < pixels.len()) by (nonlinear_arith)
                requires
                    0 <= k < pixels.len() * n,
                    n > 0,
            ;
            assert(0 <= k / n) by (nonlinear_arith)
                requires
                    0 <= k,
                    n > 0,
            ;
        } else {
            assert(k / n == pixels.len()) by (nonlinear_arith)
                requires
                    pixels.len() * n <= k < pixels.len() * n + n,
                    n > 0,
            ;
            assert(k % n == k - pixels.len() * n) by (nonlinear_arith)
                requires
                    pixels.len() * n <= k < pixels.len() * n + n,
                    n > 0,
                    k / n == pixels.len(),
            ;
        }
    }
    assert(a =~= b);
}

/// A vector of `n` zero bytes.
fn zeroed(n: usize) -> (v: Vec<u8>)
    ensures
        v@ == Seq::new(n as nat, |i: int| 0u8),
{
    let mut v: Vec<u8> = Vec::new();
    let mut i: usize = 0;
    while i < n
        invariant
            i <= n,
            v@ == Seq::new(i as nat, |j: int| 0u8),
        decreases n - i,
    {
        v.push(0);
        i += 1;
        assert(v@ =~= Seq::new(i as nat, |j: int| 0u8));
    }
    v
}

/// A cursor over the bytes of an [Image].
///
/// This struct is created by the [`Image::bytes`] method.
#[derive(Debug)]
pub struct Bytes {
    data: Vec<u8>,
    pos: usize,
}

impl View for Bytes {
    type V = Seq<u8>;

    /// The bytes not yet returned.
    closed spec fn view(&self) -> Seq<u8> {
        self.data@.subrange(self.pos as int, self.data@.len() as int)
    }
}

impl Bytes {
    #[verifier::type_invariant]
    spec fn inv(self) -> bool {
        self.pos <= self.data@.len()
    }

    /// The next byte, or `None` once every byte was returned.
    pub fn next(&mut self) -> (r: Option<u8>)
        ensures
            old(self)@.len() == 0 ==> r is None && final(self)@ == old(self)@,
            old(self)@.len() > 0 ==> r == Some(old(self)@[0]) && final(self)@ == old(
                self,
            )@.drop_first(),
    {
        proof {
            use_type_invariant(&*self);
        }
        if self.pos < self.data.len() {
            let b = self.data[self.pos];
            self.pos = self.pos + 1;
            proof {
                assert(self@ =~= old(self)@.drop_first());
            }
            Some(b)
        } else {
            None
        }
    }
}

/// A cursor over the [Color] pixels of an [Image].
///
/// This struct is created by the [`Image::pixels`] method.
#[derive(Debug)]
pub struct Pixels {
    channels: usize,
    data: Vec<u8>,
    pos: usize,
}

impl View for Pixels {
    type V = (nat, Seq<u8>);

    /// The number of channels per pixel and the bytes not yet read.
    closed spec fn view(&self) -> (nat, Seq<u8>) {
        (self.channels as nat, self.data@.subrange(self.pos as int, self.data@.len() as int))
    }
}

impl Pixels {
    #[verifier::type_invariant]
    spec fn inv(self) -> bool {
        &&& self.pos <= self.data@.len()
        &&& self.channels == 3 || self.channels == 4
    }

    /// The next color, or `None` when fewer bytes than a whole pixel are left.
    pub fn next(&mut self) -> (r: Option<Color>)
        ensures
            final(self)@.0 == old(self)@.0,
            old(self)@.1.len() >= old(self)@.0 ==> r is Some && r->0@ == color_at(
                old(self)@.1,
                0,
                if old(self)@.0 == 3 {
                    PixelFormat::Rgb
                } else {
                    PixelFormat::Rgba
                },
            ) && final(self)@.1 == old(self)@.1.subrange(old(self)@.0 as int, old(self)@.1.len() as int),
            old(self)@.1.len() < old(self)@.0 ==> r is None && final(self)@.1.len() == 0,
    {
        proof {
            use_type_invariant(&*self);
        }
        let c = self.channels;
        if self.data.len() - self.pos < c {
            self.pos = self.data.len();
            return None;
        }
        let p = self.pos;
        let color = if c == 3 {
            Color::rgb(self.data[p], self.data[p + 1], self.data[p + 2])
        } else {
            Color::rgba(self.data[p], self.data[p + 1], self.data[p + 2], self.data[p + 3])
        };
        self.pos = p + c;
        proof {
            assert(self@.1 =~= old(self)@.1.subrange(c as int, old(self)@.1.len() as int));
        }
        Some(color)
    }
}

/// Represents an image icon source.
#[derive(Debug, Clone)]
pub enum Icon {
    /// An icon image.
    Image(Image),
    /// A path to an icon image.
    Path(String),
}

/// The image a decoded PNG frame makes: 8-bit RGB or RGBA frames become an image of their
/// size and format when the frame's bytes fit that size; other depths and color types are
/// unsupported.
pub open spec fn frame_image(f: PngFrameView) -> Result<ImageView, PixError> {
    if f.bit_depth != PngBitDepth::Eight || !(f.color_type == PngColorType::Rgb || f.color_type == PngColorType::Rgba) {
        Err(PixError::UnsupportedImageFormat { bit_depth: f.bit_depth, color_type: f.color_type })
    } else {
        let format = if f.color_type == PngColorType::Rgb { PixelFormat::Rgb } else { PixelFormat::Rgba };
        if f.data.len() == image_size(f.width, f.height, format) {
            Ok(ImageView { width: f.width, height: f.height, data: f.data, format })
        } else {
            Err(PixError::InvalidImage { width: f.width, height: f.height, size: f.data.len() as usize, format })
        }
    }
}

/// The image of a result.
pub open spec fn image_result(r: PixResult<Image>) -> Result<ImageView, PixError> {
    match r {
        Ok(img) => Ok(img@),
        Err(e) => Err(e),
    }
}

impl Image {
    /// Constructs an `Image` from a decoded PNG frame: 8-bit RGB and RGBA frames only, whose
    /// bytes match their size.
    pub fn from_png_frame(frame: PngFrame) -> (r: PixResult<Self>)
        ensures
            image_result(r) == frame_image(frame@),
    {
        let bit_depth = frame.bit_depth;
        let color_type = frame.color_type;
        let format = match color_type {
            PngColorType::Rgb if bit_depth == PngBitDepth::Eight => PixelFormat::Rgb,
            PngColorType::Rgba if bit_depth == PngBitDepth::Eight => PixelFormat::Rgba,
            _ => return Err(PixError::UnsupportedImageFormat { bit_depth, color_type }),
        };
        let c = format.channels() as u128;
        let w = frame.width as u128;
        let h = frame.height as u128;
        proof {
            assert(c * w <= 4 * 0xffff_ffff) by (nonlinear_arith)
                requires c <= 4, w <= 0xffff_ffff;
            assert(c * w * h <= 4 * 0xffff_ffff * 0xffff_ffff) by (nonlinear_arith)
                requires c * w <= 4 * 0xffff_ffff, h <= 0xffff_ffff;
        }
        let size = c * w * h;
        proof {
            lemma_mul_assoc(format_channels(format), frame.width as nat, frame.height as nat);
        }
        if size != frame.data.len() as u128 {
            return Err(PixError::InvalidImage {
                width: frame.width,
                height: frame.height,
                size: frame.data.len(),
                format,
            });
        }
        Ok(Self::from_vec(frame.width, frame.height, frame.data, format))
    }

    /// Decodes a PNG file held in memory into an `Image`: the first frame, when it is 8-bit RGB
    /// or RGBA and its bytes match its size.
    pub fn decode_png(bytes: &[u8]) -> (r: PixResult<Self>)
        ensures
            image_result(r) == match png_decoded(bytes@) {
                Some(f) => frame_image(f),
                None => Err(PixError::PngDecoding),
            },
    {
        match png_decode(bytes) {
            Ok(frame) => Self::from_png_frame(frame),
            Err(_) => Err(PixError::PngDecoding),
        }
    }

    /// Encodes the `Image` as an 8-bit PNG file in memory, RGB or RGBA as its format is. An
    /// image whose bytes do not match its size is refused, as the encoder refuses it.
    pub fn encode_png(&self) -> (r: PixResult<Vec<u8>>)
        ensures
            !encodable(self@) ==> r == Err::<Vec<u8>, PixError>(PixError::PngEncoding),
            encodable(self@) ==> match png_encoded(
                self@.width,
                self@.height,
                self@.format == PixelFormat::Rgba,
                self@.data,
            ) {
                Some(b) => r matches Ok(v) && v@ == b,
                None => r == Err::<Vec<u8>, PixError>(PixError::PngEncoding),
            },
    {
        let rgba = match self.format {
            PixelFormat::Rgba => true,
            PixelFormat::Rgb => false,
        };
        let channels: u128 = if rgba { 4 } else { 3 };
        let w = self.width as u128;
        let h = self.height as u128;
        proof {
            assert(w * h <= 0xffff_ffff * 0xffff_ffff) by (nonlinear_arith)
                requires w <= 0xffff_ffff, h <= 0xffff_ffff;
        }
        let row: u128 = channels * w;
        proof {
            assert(row * h <= 4 * 0xffff_ffff * 0xffff_ffff) by (nonlinear_arith)
                requires row <= 4 * 0xffff_ffff, h <= 0xffff_ffff;
        }
        let size: u128 = row * h;
        if size != self.data.len() as u128 || row >= usize::MAX as u128 {
            return Err(PixError::PngEncoding);
        }
        proof {
            assert(row * h == channels * w * h) by (nonlinear_arith)
                requires row == channels * w;
        }
        match png_encode(self.width, self.height, rgba, self.data.as_slice()) {
            Ok(bytes) => Ok(bytes),
            Err(_) => Err(PixError::PngEncoding),
        }
    }
}

} // verus!
