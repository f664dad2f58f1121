//! UI theme: fonts, font styles, colors and spacing, and builders for them.

use crate::color::{hex_channels, Color};
use crate::gui::state::{hash_label, id_hash, FontId};
use crate::shape::{Point, PointI2};
use vstd::prelude::*;
use vstd::string::{StringExecFns, StringSliceAdditionalSpecFns};
use vstd::utf8::encode_utf8;

verus! {

/// A font style: a set of bold, italic, underline and strikethrough bits.
#[derive(Debug, Copy, Clone, PartialEq, Eq, Hash, Structural)]
pub struct FontStyle(pub u8);

impl FontStyle {
    /// No styling.
    pub fn normal() -> (s: Self)
        ensures
            s.0 == 0,
    {
        FontStyle(0)
    }

    /// Bold.
    pub fn bold() -> (s: Self)
        ensures
            s.0 == 1,
    {
        FontStyle(1)
    }

    /// Italic.
    pub fn italic() -> (s: Self)
        ensures
            s.0 == 2,
    {
        FontStyle(2)
    }

    /// Underlined.
    pub fn underline() -> (s: Self)
        ensures
            s.0 == 4,
    {
        FontStyle(4)
    }

    /// Struck through.
    pub fn strikethrough() -> (s: Self)
        ensures
            s.0 == 8,
    {
        FontStyle(8)
    }

    /// The style bits.
    pub fn bits(&self) -> (b: u8)
        ensures
            b == self.0,
    {
        self.0
    }

    /// Whether every style of `other` is set.
    pub fn contains(&self, other: FontStyle) -> (b: bool)
        ensures
            b == (self.0 & other.0 == other.0),
    {
        self.0 & other.0 == other.0
    }

    /// The styles set in either.
    pub fn union(&self, other: FontStyle) -> (s: FontStyle)
        ensures
            s.0 == self.0 | other.0,
    {
        FontStyle(self.0 | other.0)
    }
}

impl Default for FontStyle {
    /// No styling.
    fn default() -> (s: Self)
        ensures
            s.0 == 0,
    {
        FontStyle(0)
    }
}

/// A font that comes with the engine.
#[derive(Debug, Copy, Clone, PartialEq, Eq, Hash, Structural)]
pub enum BuiltinFont {
    Noto,
    Emulogic,
    Inconsolata,
}

/// Where a font's data comes from.
#[derive(Debug, PartialEq, Eq, Hash)]
pub enum FontSrc {
    /// A font known to the platform by name.
    Named,
    /// A font that comes with the engine.
    Builtin(BuiltinFont),
    /// Font data in memory.
    Bytes(&'static [u8]),
    /// A font file on disk.
    Path(String),
}

impl Clone for FontSrc {
    /// The same source.
    fn clone(&self) -> (r: Self)
        ensures
            r == *self,
    {
        match self {
            FontSrc::Named => FontSrc::Named,
            FontSrc::Builtin(b) => FontSrc::Builtin(*b),
            FontSrc::Bytes(bytes) => FontSrc::Bytes(bytes),
            FontSrc::Path(p) => FontSrc::Path(p.clone()),
        }
    }
}

/// Represents a given font-family to be used for rendering text.
#[derive(Debug, PartialEq, Eq, Hash)]
pub struct Font {
    pub(crate) name: String,
    pub(crate) source: FontSrc,
}

/// The abstract font: its name, and whether it comes from memory, a path or a built-in face.
pub struct FontView {
    pub name: Seq<char>,
    pub source: FontSrcView,
}

/// The abstract source of a font.
pub enum FontSrcView {
    Named,
    Builtin(BuiltinFont),
    Bytes(Seq<u8>),
    Path(Seq<char>),
}

impl View for Font {
    type V = FontView;

    closed spec fn view(&self) -> FontView {
        FontView {
            name: self.name@,
            source: match self.source {
                FontSrc::Named => FontSrcView::Named,
                FontSrc::Builtin(b) => FontSrcView::Builtin(b),
                FontSrc::Bytes(bytes) => FontSrcView::Bytes(bytes@),
                FontSrc::Path(p) => FontSrcView::Path(p@),
            },
        }
    }
}

impl Font {
    /// Noto Sans, which comes with the engine.
    pub fn noto() -> (f: Self)
        ensures
            f@.name == "Noto"@,
            f@.source == FontSrcView::Builtin(BuiltinFont::Noto),
    {
        Font { name: String::from_str("Noto"), source: FontSrc::Builtin(BuiltinFont::Noto) }
    }

    /// Emulogic, which comes with the engine.
    pub fn emulogic() -> (f: Self)
        ensures
            f@.name == "Emulogic"@,
            f@.source == FontSrcView::Builtin(BuiltinFont::Emulogic),
    {
        Font {
            name: String::from_str("Emulogic"),
            source: FontSrc::Builtin(BuiltinFont::Emulogic),
        }
    }

    /// Inconsolata, which comes with the engine.
    pub fn inconsolata() -> (f: Self)
        ensures
            f@.name == "Inconsolata"@,
            f@.source == FontSrcView::Builtin(BuiltinFont::Inconsolata),
    {
        Font {
            name: String::from_str("Inconsolata"),
            source: FontSrc::Builtin(BuiltinFont::Inconsolata),
        }
    }

    /// Constructs a new `Font` instance with a given name that the platform provides.
    pub fn named(name: &str) -> (f: Self)
        ensures
            f@.name == name@,
            f@.source == FontSrcView::Named,
    {
        Font { name: String::from_str(name), source: FontSrc::Named }
    }

    /// Constructs a new `Font` instance from a static byte array.
    pub fn from_bytes(name: &str, bytes: &'static [u8]) -> (f: Self)
        ensures
            f@.name == name@,
            f@.source == FontSrcView::Bytes(bytes@),
    {
        Font { name: String::from_str(name), source: FontSrc::Bytes(bytes) }
    }

    /// Constructs a new `Font` instance from a file.
    pub fn from_file(name: &str, path: &str) -> (f: Self)
        ensures
            f@.name == name@,
            f@.source == FontSrcView::Path(path@),
    {
        Font { name: String::from_str(name), source: FontSrc::Path(String::from_str(path)) }
    }

    /// Returns the name of the font family.
    pub fn name(&self) -> (n: &str)
        ensures
            n@ == self@.name,
    {
        self.name.as_str()
    }

    /// Returns the hashed identifier for this font family: the hash of its name.
    pub fn id(&self) -> (id: FontId)
        ensures
            id.0 == id_hash(encode_utf8(self@.name), None),
    {
        FontId(hash_label(self.name.as_str(), None).0)
    }
}

impl Clone for Font {
    /// The same font.
    fn clone(&self) -> (r: Self)
        ensures
            r == *self,
    {
        Font { name: self.name.clone(), source: self.source.clone() }
    }
}

impl Default for Font {
    /// Emulogic.
    fn default() -> (f: Self)
        ensures
            f@.name == "Emulogic"@,
            f@.source == FontSrcView::Builtin(BuiltinFont::Emulogic),
    {
        Font::emulogic()
    }
}

/// A set of font families for body, heading, and monospace text.
#[derive(Debug, PartialEq, Eq, Hash)]
pub struct Fonts {
    /// Body font.
    pub body: Font,
    /// Heading font.
    pub heading: Font,
    /// Monospace font.
    pub monospace: Font,
}

impl Clone for Fonts {
    /// The same fonts.
    fn clone(&self) -> (r: Self)
        ensures
            r == *self,
    {
        Fonts { body: self.body.clone(), heading: self.heading.clone(), monospace: self.monospace.clone() }
    }
}

impl Default for Fonts {
    /// Emulogic for body and heading text, and Inconsolata for monospace text.
    fn default() -> (f: Self)
        ensures
            f.body@.source == FontSrcView::Builtin(BuiltinFont::Emulogic),
            f.heading@.source == FontSrcView::Builtin(BuiltinFont::Emulogic),
            f.monospace@.source == FontSrcView::Builtin(BuiltinFont::Inconsolata),
            f.body@.name == "Emulogic"@,
            f.heading@.name == "Emulogic"@,
            f.monospace@.name == "Inconsolata"@,
    {
        Fonts { body: Font::default(), heading: Font::default(), monospace: Font::inconsolata() }
    }
}

/// A set of font styles for body, heading, and monospace text.
#[derive(Debug, Copy, Clone, PartialEq, Eq, Hash, Structural)]
pub struct FontStyles {
    /// Body style.
    pub body: FontStyle,
    /// Heading style.
    pub heading: FontStyle,
    /// Monospace style.
    pub monospace: FontStyle,
}

impl Default for FontStyles {
    /// No styling anywhere.
    fn default() -> (s: Self)
        ensures
            s.body.0 == 0,
            s.heading.0 == 0,
            s.monospace.0 == 0,
    {
        FontStyles {
            body: FontStyle::default(),
            heading: FontStyle::default(),
            monospace: FontStyle::default(),
        }
    }
}

/// Font type used for theming.
#[derive(Debug, Copy, Clone, PartialEq, Eq, Hash, Structural)]
pub enum FontType {
    Body,
    Heading,
    Monospace,
}

/// Color type used for theming.
#[derive(Debug, Copy, Clone, PartialEq, Eq, Hash, Structural)]
pub enum ColorType {
    Background,
    Surface,
    Primary,
    PrimaryVariant,
    Secondary,
    SecondaryVariant,
    Error,
    OnBackground,
    OnSurface,
    OnPrimary,
    OnSecondary,
    OnError,
}

/// A set of theme colors.
#[derive(Debug, Copy, Clone, PartialEq, Eq, Hash, Structural)]
pub struct Colors {
    pub background: Color,
    pub surface: Color,
    pub primary: Color,
    pub primary_variant: Color,
    pub secondary: Color,
    pub secondary_variant: Color,
    pub error: Color,
    pub on_background: Color,
    pub on_surface: Color,
    pub on_primary: Color,
    pub on_secondary: Color,
    pub on_error: Color,
}

/// The color a theme gives to a color type.
pub open spec fn color_of(c: Colors, t: ColorType) -> Color {
    match t {
        ColorType::Background => c.background,
        ColorType::Surface => c.surface,
        ColorType::Primary => c.primary,
        ColorType::PrimaryVariant => c.primary_variant,
        ColorType::Secondary => c.secondary,
        ColorType::SecondaryVariant => c.secondary_variant,
        ColorType::Error => c.error,
        ColorType::OnBackground => c.on_background,
        ColorType::OnSurface => c.on_surface,
        ColorType::OnPrimary => c.on_primary,
        ColorType::OnSecondary => c.on_secondary,
        ColorType::OnError => c.on_error,
    }
}

/// The palette of the dark theme, as `0xRRGGBB` values in the order of [`ColorType`].
pub open spec fn dark_hex(t: ColorType) -> u32 {
    match t {
        ColorType::Background => 0x121212,
        ColorType::Surface => 0x121212,
        ColorType::Primary => 0xbf360c,
        ColorType::PrimaryVariant => 0xff6f43,
        ColorType::Secondary => 0x0c95bf,
        ColorType::SecondaryVariant => 0x43d3ff,
        ColorType::Error => 0xcf6679,
        ColorType::OnBackground => 0xffffff,
        ColorType::OnSurface => 0xffffff,
        ColorType::OnPrimary => 0x000000,
        ColorType::OnSecondary => 0x000000,
        ColorType::OnError => 0x000000,
    }
}

/// The palette of the light theme, as `0xRRGGBB` values.
pub open spec fn light_hex(t: ColorType) -> u32 {
    match t {
        ColorType::Background => 0xffffff,
        ColorType::Surface => 0xffffff,
        ColorType::Primary => 0x00796b,
        ColorType::PrimaryVariant => 0x4db6ac,
        ColorType::Secondary => 0x79000e,
        ColorType::SecondaryVariant => 0xb64d58,
        ColorType::Error => 0xb00020,
        ColorType::OnBackground => 0x000000,
        ColorType::OnSurface => 0x000000,
        ColorType::OnPrimary => 0xffffff,
        ColorType::OnSecondary => 0xffffff,
        ColorType::OnError => 0xffffff,
    }
}

impl Colors {
    /// A dark color theme.
    pub fn dark() -> (c: Self)
        ensures
            forall|t: ColorType| #[trigger] color_of(c, t)@ == hex_channels(dark_hex(t)),
    {
        let c = Colors {
            background: Color::from_hex(0x121212),
            surface: Color::from_hex(0x121212),
            primary: Color::from_hex(0xbf360c),
            primary_variant: Color::from_hex(0xff6f43),
            secondary: Color::from_hex(0x0c95bf),
            secondary_variant: Color::from_hex(0x43d3ff),
            error: Color::from_hex(0xcf6679),
            on_background: Color::from_hex(0xffffff),
            on_surface: Color::from_hex(0xffffff),
            on_primary: Color::from_hex(0x000000),
            on_secondary: Color::from_hex(0x000000),
            on_error: Color::from_hex(0x000000),
        };
        assert forall|t: ColorType| #[trigger] color_of(c, t)@ == hex_channels(dark_hex(t)) by {
            match t {
                _ => {},
            }
        }
        c
    }

    /// A light color theme.
    pub fn light() -> (c: Self)
        ensures
            forall|t: ColorType| #[trigger] color_of(c, t)@ == hex_channels(light_hex(t)),
    {
        let c = Colors {
            background: Color::from_hex(0xffffff),
            surface: Color::from_hex(0xffffff),
            primary: Color::from_hex(0x00796b),
            primary_variant: Color::from_hex(0x4db6ac),
            secondary: Color::from_hex(0x79000e),
            secondary_variant: Color::from_hex(0xb64d58),
            error: Color::from_hex(0xb00020),
            on_background: Color::from_hex(0x000000),
            on_surface: Color::from_hex(0x000000),
            on_primary: Color::from_hex(0xffffff),
            on_secondary: Color::from_hex(0xffffff),
            on_error: Color::from_hex(0xffffff),
        };
        assert forall|t: ColorType| #[trigger] color_of(c, t)@ == hex_channels(light_hex(t)) by {
            match t {
                _ => {},
            }
        }
        c
    }
}

impl Default for Colors {
    /// The dark color theme.
    fn default() -> (c: Self)
        ensures
            forall|t: ColorType| #[trigger] color_of(c, t)@ == hex_channels(dark_hex(t)),
    {
        Colors::dark()
    }
}

/// Builds a [Spacing] instance by customizing various space and padding settings.
#[derive(Debug, Copy, Clone, PartialEq, Eq, Hash)]
pub struct SpacingBuilder {
    frame_pad: PointI2,
    item_pad: PointI2,
    scroll_size: i32,
}

/// The spacing a builder would build.
pub open spec fn spacing_of(b: SpacingBuilder) -> Spacing {
    Spacing { frame_pad: b.frame_pad_spec(), item_pad: b.item_pad_spec(), scroll_size: b.scroll_size_spec() }
}

impl SpacingBuilder {
    /// The frame padding set.
    pub closed spec fn frame_pad_spec(self) -> PointI2 {
        self.frame_pad
    }

    /// The item padding set.
    pub closed spec fn item_pad_spec(self) -> PointI2 {
        self.item_pad
    }

    /// The scroll size set.
    pub closed spec fn scroll_size_spec(self) -> i32 {
        self.scroll_size
    }

    /// Set padding between the edge of frames/windows and UI widgets.
    pub fn frame_pad(&mut self, x: i32, y: i32) -> (r: &mut Self)
        ensures
            r.frame_pad_spec()@ == seq![x, y],
            r.item_pad_spec() == old(self).item_pad_spec(),
            r.scroll_size_spec() == old(self).scroll_size_spec(),
            *final(self) == *final(r),
    {
        self.frame_pad = Point::new([x, y]);
        assert(self.frame_pad@ =~= seq![x, y]);
        self
    }

    /// Set padding between UI widgets.
    pub fn item_pad(&mut self, x: i32, y: i32) -> (r: &mut Self)
        ensures
            r.item_pad_spec()@ == seq![x, y],
            r.frame_pad_spec() == old(self).frame_pad_spec(),
            r.scroll_size_spec() == old(self).scroll_size_spec(),
            *final(self) == *final(r),
    {
        self.item_pad = Point::new([x, y]);
        assert(self.item_pad@ =~= seq![x, y]);
        self
    }

    /// Set scroll bar size in pixels.
    pub fn scroll_size(&mut self, size: i32) -> (r: &mut Self)
        ensures
            r.scroll_size_spec() == size,
            r.frame_pad_spec() == old(self).frame_pad_spec(),
            r.item_pad_spec() == old(self).item_pad_spec(),
            *final(self) == *final(r),
    {
        self.scroll_size = size;
        self
    }

    /// Convert `SpacingBuilder` into a [Spacing] instance.
    pub fn build(&self) -> (s: Spacing)
        ensures
            s == spacing_of(*self),
    {
        Spacing { frame_pad: self.frame_pad, item_pad: self.item_pad, scroll_size: self.scroll_size }
    }
}

impl Default for SpacingBuilder {
    /// The default spacing's settings.
    fn default() -> (b: Self)
        ensures
            spacing_of(b) == default_spacing(),
    {
        let spacing = Spacing::default();
        SpacingBuilder {
            frame_pad: spacing.frame_pad,
            item_pad: spacing.item_pad,
            scroll_size: spacing.scroll_size,
        }
    }
}

/// A set of styling settings for UI elements.
#[derive(Debug, Copy, Clone, PartialEq, Eq, Hash)]
pub struct Spacing {
    /// Padding between the edge of frames/windows and UI widgets.
    pub frame_pad: PointI2,
    /// Padding between UI widgets.
    pub item_pad: PointI2,
    /// Scroll bar size in pixels.
    pub scroll_size: i32,
}

/// Frame padding `(8, 8)`, item padding `(8, 6)` and scroll bars 12 pixels wide.
pub open spec fn default_spacing() -> Spacing {
    Spacing {
        frame_pad: Point::from_seq(seq![8i32, 8i32]),
        item_pad: Point::from_seq(seq![8i32, 6i32]),
        scroll_size: 12,
    }
}

impl Default for Spacing {
    /// Frame padding `(8, 8)`, item padding `(8, 6)` and scroll bars 12 pixels wide.
    fn default() -> (s: Self)
        ensures
            s == default_spacing(),
    {
        let frame_pad = Point::new([8, 8]);
        let item_pad = Point::new([8, 6]);
        proof {
            Point::lemma_from_seq(frame_pad, seq![8i32, 8i32]);
            Point::lemma_from_seq(item_pad, seq![8i32, 6i32]);
            assert(frame_pad@ =~= seq![8i32, 8i32]);
            assert(item_pad@ =~= seq![8i32, 6i32]);
        }
        Spacing { frame_pad, item_pad, scroll_size: 12 }
    }
}

impl Spacing {
    /// Constructs a default [`SpacingBuilder`] which can build a `Spacing` instance.
    pub fn builder() -> (b: SpacingBuilder)
        ensures
            spacing_of(b) == default_spacing(),
    {
        SpacingBuilder::default()
    }
}

/// A UI `Theme` containing font families, sizes, styles, colors and spacing.
#[derive(Debug, PartialEq, Eq, Hash)]
pub struct Theme {
    /// The name of this theme.
    pub name: String,
    /// The font families used in this theme.
    pub fonts: Fonts,
    /// The body font size used in this theme.
    pub font_size: u32,
    /// The font styles used in this theme.
    pub styles: FontStyles,
    /// The colors used in this theme.
    pub colors: Colors,
    /// The padding, offsets, and other styling settings used in this theme.
    pub spacing: Spacing,
}

impl Clone for Theme {
    /// The same theme.
    fn clone(&self) -> (r: Self)
        ensures
            r == *self,
    {
        Theme {
            name: self.name.clone(),
            fonts: self.fonts.clone(),
            font_size: self.font_size,
            styles: self.styles,
            colors: self.colors,
            spacing: self.spacing,
        }
    }
}

/// The settings every built-in theme shares besides its name and colors: the default fonts and
/// styles, a 12 pixel font and the default spacing.
pub open spec fn standard_theme(t: Theme) -> bool {
    &&& t.fonts.body@.source == FontSrcView::Builtin(BuiltinFont::Emulogic)
    &&& t.fonts.heading@.source == FontSrcView::Builtin(BuiltinFont::Emulogic)
    &&& t.fonts.monospace@.source == FontSrcView::Builtin(BuiltinFont::Inconsolata)
    &&& t.fonts.body@.name == "Emulogic"@
    &&& t.fonts.heading@.name == "Emulogic"@
    &&& t.fonts.monospace@.name == "Inconsolata"@
    &&& t.font_size == 12
    &&& t.styles.body.0 == 0 && t.styles.heading.0 == 0 && t.styles.monospace.0 == 0
    &&& t.spacing == default_spacing()
}

/// The dark theme.
pub open spec fn is_dark_theme(t: Theme) -> bool {
    &&& t.name@ == "Dark"@
    &&& standard_theme(t)
    &&& forall|c: ColorType| #[trigger] color_of(t.colors, c)@ == hex_channels(dark_hex(c))
}

/// The light theme.
pub open spec fn is_light_theme(t: Theme) -> bool {
    &&& t.name@ == "Light"@
    &&& standard_theme(t)
    &&& forall|c: ColorType| #[trigger] color_of(t.colors, c)@ == hex_channels(light_hex(c))
}

impl Default for Theme {
    /// The dark theme.
    fn default() -> (t: Self)
        ensures
            is_dark_theme(t),
    {
        Theme::dark()
    }
}

impl Theme {
    /// Constructs a default [Builder] which can build a `Theme` instance.
    pub fn builder() -> (b: Builder)
        ensures
            is_dark_theme(b.built()),
    {
        Builder::default()
    }

    /// Constructs a default dark `Theme`.
    pub fn dark() -> (t: Self)
        ensures
            is_dark_theme(t),
    {
        Theme {
            name: String::from_str("Dark"),
            colors: Colors::dark(),
            fonts: Fonts::default(),
            font_size: 12,
            styles: FontStyles::default(),
            spacing: Spacing::default(),
        }
    }

    /// Constructs a default light `Theme`.
    pub fn light() -> (t: Self)
        ensures
            is_light_theme(t),
    {
        Theme {
            name: String::from_str("Light"),
            colors: Colors::light(),
            fonts: Fonts::default(),
            font_size: 12,
            styles: FontStyles::default(),
            spacing: Spacing::default(),
        }
    }
}

/// A theme builder. Settings left unset are those of the dark theme.
#[derive(Debug, PartialEq, Eq, Hash)]
pub struct Builder {
    name: String,
    fonts: Fonts,
    size: u32,
    styles: FontStyles,
    colors: Colors,
    spacing: Spacing,
}

impl Builder {
    /// The theme this builder builds.
    pub closed spec fn built(self) -> Theme {
        Theme {
            name: self.name,
            fonts: self.fonts,
            font_size: self.size,
            styles: self.styles,
            colors: self.colors,
            spacing: self.spacing,
        }
    }

    /// Constructs a default theme `Builder` with the given name.
    pub fn new(name: &str) -> (b: Self)
        ensures
            b.built().name@ == name@,
            standard_theme(b.built()),
            forall|c: ColorType| #[trigger] color_of(b.built().colors, c)@ == hex_channels(dark_hex(c)),
    {
        let d = Builder::default();
        let ghost dt = d.built();
        let b = Builder {
            name: String::from_str(name),
            fonts: d.fonts,
            size: d.size,
            styles: d.styles,
            colors: d.colors,
            spacing: d.spacing,
        };
        assert(b.built().colors == dt.colors);
        assert(b.built().fonts == dt.fonts);
        assert(forall|c: ColorType| #[trigger] color_of(b.built().colors, c) == color_of(dt.colors, c));
        b
    }

    /// Set font size.
    pub fn with_font_size(&mut self, size: u32) -> (r: &mut Self)
        ensures
            r.built() == (Theme { font_size: size, ..old(self).built() }),
            *final(self) == *final(r),
    {
        self.size = size;
        self
    }

    /// Set font theme values for a given [`FontType`].
    pub fn with_font(&mut self, font_type: FontType, font: Font, style: FontStyle) -> (r: &mut Self)
        ensures
            r.built() == (match font_type {
                FontType::Body => Theme {
                    fonts: Fonts { body: font, ..old(self).built().fonts },
                    styles: FontStyles { body: style, ..old(self).built().styles },
                    ..old(self).built()
                },
                FontType::Heading => Theme {
                    fonts: Fonts { heading: font, ..old(self).built().fonts },
                    styles: FontStyles { heading: style, ..old(self).built().styles },
                    ..old(self).built()
                },
                FontType::Monospace => Theme {
                    fonts: Fonts { monospace: font, ..old(self).built().fonts },
                    styles: FontStyles { monospace: style, ..old(self).built().styles },
                    ..old(self).built()
                },
            }),
            *final(self) == *final(r),
    {
        match font_type {
            FontType::Body => {
                self.fonts.body = font;
                self.styles.body = style;
            },
            FontType::Heading => {
                self.fonts.heading = font;
                self.styles.heading = style;
            },
            FontType::Monospace => {
                self.fonts.monospace = font;
                self.styles.monospace = style;
            },
        }
        self
    }

    /// Set color theme for a given [`ColorType`]; every other color is kept.
    pub fn with_color(&mut self, color_type: ColorType, color: Color) -> (r: &mut Self)
        ensures
            color_of(r.built().colors, color_type) == color,
            forall|c: ColorType|
                c != color_type ==> #[trigger] color_of(r.built().colors, c) == color_of(
                    old(self).built().colors,
                    c,
                ),
            r.built() == (Theme { colors: r.built().colors, ..old(self).built() }),
            *final(self) == *final(r),
    {
        let c = &mut self.colors;
        match color_type {
            ColorType::Background => c.background = color,
            ColorType::Surface => c.surface = color,
            ColorType::Primary => c.primary = color,
            ColorType::PrimaryVariant => c.primary_variant = color,
            ColorType::Secondary => c.secondary = color,
            ColorType::SecondaryVariant => c.secondary_variant = color,
            ColorType::Error => c.error = color,
            ColorType::OnBackground => c.on_background = color,
            ColorType::OnSurface => c.on_surface = color,
            ColorType::OnPrimary => c.on_primary = color,
            ColorType::OnSecondary => c.on_secondary = color,
            ColorType::OnError => c.on_error = color,
        }
        self
    }

    /// Set element padding space.
    pub fn with_spacing(&mut self, spacing: Spacing) -> (r: &mut Self)
        ensures
            r.built() == (Theme { spacing, ..old(self).built() }),
            *final(self) == *final(r),
    {
        self.spacing = spacing;
        self
    }

    /// Convert [Builder] into a [Theme] instance.
    pub fn build(&self) -> (t: Theme)
        ensures
            t == self.built(),
    {
        Theme {
            name: self.name.clone(),
            fonts: self.fonts.clone(),
            font_size: self.size,
            styles: self.styles,
            colors: self.colors,
            spacing: self.spacing,
        }
    }
}

impl Default for Builder {
    /// The settings of the dark theme.
    fn default() -> (b: Self)
        ensures
            is_dark_theme(b.built()),
    {
        let theme = Theme::default();
        Builder {
            name: theme.name,
            fonts: theme.fonts,
            size: theme.font_size,
            styles: theme.styles,
            colors: theme.colors,
            spacing: theme.spacing,
        }
    }
}

} // verus!
