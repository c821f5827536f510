//! Decoded images as plain values, and what is done to them: decoding,
//! turning upright, scaling to a thumbnail, and drawing the stand-in that a
//! directory gets for a thumbnail.
//!
//! Decoding, scaling and writing text are the work of the `image`,
//! `imageproc` and `ab_glyph` crates. What they are trusted to do is written
//! above each call; what the library builds on it is verified. Turning,
//! mirroring and filling move or set whole pixels, and are done and proved
//! here.

use vstd::prelude::*;
use crate::metadata::ExifOrientation;
use crate::paths::{image_kind, spec_image_kind, ImageKind, PathRules};

verus! {

/// Edge of a thumbnail, in pixels. Thumbnails are squares of this size.
pub const THUMBNAIL_SIZE: u32 = 256;

/// Number of bytes in the pixel data of a thumbnail.
pub const THUMBNAIL_BYTES: usize = 262144;

/// An image in memory: `width` by `height` pixels, row by row from the top,
/// four bytes per pixel (red, green, blue, alpha).
#[derive(Debug, PartialEq, Eq)]
pub struct PixelBuffer {
    pub width: u32,
    pub height: u32,
    pub data: Vec<u8>,
}

/// An image as a mathematical value.
pub struct ImageView {
    pub width: u32,
    pub height: u32,
    pub data: Seq<u8>,
}

impl View for PixelBuffer {
    type V = ImageView;

    open spec fn view(&self) -> ImageView {
        ImageView { width: self.width, height: self.height, data: self.data@ }
    }
}

impl Clone for PixelBuffer {
    fn clone(&self) -> (copy: Self)
        ensures
            copy@ == self@,
    {
        PixelBuffer { width: self.width, height: self.height, data: self.data.clone() }
    }
}

/// A colour: red, green, blue and alpha.
pub type Color = (u8, u8, u8, u8);

/// One channel of a colour: red is channel zero, alpha channel three.
pub open spec fn spec_channel(color: Color, channel: int) -> u8 {
    if channel == 0 {
        color.0
    } else if channel == 1 {
        color.1
    } else if channel == 2 {
        color.2
    } else {
        color.3
    }
}

impl ImageView {
    /// The data holds exactly four bytes for each pixel.
    pub open spec fn wf(self) -> bool {
        self.data.len() == 4 * self.width * self.height
    }

    /// One channel of the pixel at (`x`, `y`).
    pub open spec fn channel(self, x: int, y: int, channel: int) -> u8 {
        self.data[4 * (y * self.width + x) + channel]
    }

    /// The image of `width` by `height` pixels whose pixel at (x, y) is the
    /// pixel of this image at `source(x, y)`.
    pub open spec fn remapped(
        self,
        width: u32,
        height: u32,
        source: spec_fn(int, int) -> (int, int),
    ) -> ImageView {
        ImageView {
            width: width,
            height: height,
            data: Seq::new(
                (4 * width * height) as nat,
                |k: int|
                    {
                        let at = source((k / 4) % (width as int), (k / 4) / (width as int));
                        self.channel(at.0, at.1, k % 4)
                    },
            ),
        }
    }

    /// The image turned a quarter clockwise: its left column becomes its
    /// top row.
    pub open spec fn rotated90(self) -> ImageView {
        self.remapped(self.height, self.width, |x: int, y: int| (y, self.height - 1 - x))
    }

    /// The image turned upside down.
    pub open spec fn rotated180(self) -> ImageView {
        self.remapped(
            self.width,
            self.height,
            |x: int, y: int| (self.width - 1 - x, self.height - 1 - y),
        )
    }

    /// The image turned three quarters clockwise: its top row becomes its
    /// left column.
    pub open spec fn rotated270(self) -> ImageView {
        self.remapped(self.height, self.width, |x: int, y: int| (self.width - 1 - y, x))
    }

    /// The image mirrored, left to right.
    pub open spec fn flipped(self) -> ImageView {
        self.remapped(self.width, self.height, |x: int, y: int| (self.width - 1 - x, y))
    }

    /// The image as its orientation asks it to be shown: turned, and then
    /// mirrored where the orientation says so.
    pub open spec fn oriented(self, orientation: ExifOrientation) -> ImageView {
        match orientation {
            ExifOrientation::Normal => self,
            ExifOrientation::Rotate90 => self.rotated90(),
            ExifOrientation::Rotate180 => self.rotated180(),
            ExifOrientation::Rotate270 => self.rotated270(),
            ExifOrientation::FlipHorizontal => self.flipped(),
            ExifOrientation::FlipHorizontalRotate90 => self.rotated90().flipped(),
            ExifOrientation::FlipHorizontalRotate180 => self.rotated180().flipped(),
            ExifOrientation::FlipHorizontalRotate270 => self.rotated270().flipped(),
        }
    }

    /// The image with a rectangle filled in one colour: the pixels of the
    /// rectangle that lie inside the image take the colour, all others stay.
    pub open spec fn with_rect(
        self,
        left: int,
        top: int,
        width: int,
        height: int,
        color: Color,
    ) -> ImageView {
        ImageView {
            data: Seq::new(
                self.data.len(),
                |k: int|
                    {
                        let x = (k / 4) % (self.width as int);
                        let y = (k / 4) / (self.width as int);
                        if left <= x < left + width && top <= y < top + height {
                            spec_channel(color, k % 4)
                        } else {
                            self.data[k]
                        }
                    },
            ),
            ..self
        }
    }

    /// Whether the image can be scaled to a thumbnail.
    pub open spec fn scalable(self) -> bool {
        spec_scalable_size(self.width, self.height)
    }
}

/// Whether an image of `width` by `height` pixels can be scaled to fill
/// `to_width` by `to_height` pixels. The image is scaled, with its
/// proportions kept, until it covers the target, and is then cut to it. For
/// that the image needs pixels, the sides of the scaled image have to fit in
/// 32 bits, and the scaled image and the intermediate image of sixteen bytes
/// per pixel have to fit the address space.
pub open spec fn spec_fill_fits(width: u32, height: u32, to_width: u32, to_height: u32) -> bool {
    &&& 1 <= width
    &&& 1 <= height
    &&& 1 <= to_width <= 4096
    &&& 1 <= to_height <= 4096
    &&& width * to_height <= 0xFFFF_FFFF * height
    &&& height * to_width <= 0xFFFF_FFFF * width
    &&& 16 * (width * to_height + height * to_width + width) <= isize::MAX
    &&& 4 * (to_width * (height * to_width / (width as int) + 1) + to_height * (width
        * to_height / (height as int) + 1)) <= isize::MAX
}

/// Whether an image of the given size can be scaled to a thumbnail: it has
/// pixels and can be scaled to fill the thumbnail square.
pub open spec fn spec_scalable_size(width: u32, height: u32) -> bool {
    spec_fill_fits(width, height, 256, 256)
}

/// Where addresses have 64 bits, an image can be scaled to a thumbnail
/// exactly if it has pixels and its sides, scaled until the shorter one has
/// 256 pixels, fit in 32 bits.
pub proof fn scalable_with_wide_addresses(width: u32, height: u32)
    requires
        usize::BITS == 64,
    ensures
        spec_scalable_size(width, height) <==> {
            &&& 1 <= width
            &&& 1 <= height
            &&& width * 256 <= 0xFFFF_FFFF * height
            &&& height * 256 <= 0xFFFF_FFFF * width
        },
{
    if 1 <= width && 1 <= height && width * 256 <= 0xFFFF_FFFF * height && height * 256
        <= 0xFFFF_FFFF * width {
        let tall: int = height * 256 / (width as int);
        let wide: int = width * 256 / (height as int);
        vstd::arithmetic::div_mod::lemma_div_is_ordered_by_denominator(height * 256, 1, width as int);
        vstd::arithmetic::div_mod::lemma_div_is_ordered_by_denominator(width * 256, 1, height as int);
        vstd::arithmetic::div_mod::lemma_div_basics(height * 256);
        vstd::arithmetic::div_mod::lemma_div_basics(width * 256);
        assert(isize::MAX == 0x7FFF_FFFF_FFFF_FFFF);
    }
}

/// Most characters of a label that are drawn.
pub const LABEL_CHARS: usize = 255;

/// The label that is drawn for a name: the name, cut to its first 255
/// characters if it has more.
pub open spec fn spec_label(name: Seq<char>) -> Seq<char> {
    if name.len() <= 255 {
        name
    } else {
        name.subrange(0, 255)
    }
}

/// Whether a label can be drawn with the font that the given contents parse
/// to: the line of the font has a height of at least one unit, and the
/// largest glyph that it can hold at the height of the label fits the
/// address space. No glyph is more than 65535 units wide or high, which at
/// eighteen pixels to the line are 1179630 pixels divided by the height of
/// the line; a glyph takes four bytes for each pixel.
pub open spec fn spec_font_draws(contents: Seq<u8>) -> bool {
    let height = spec_line_height(contents);
    &&& height >= 1
    &&& 4 * ((1179630int / height + 3) * (1179630int / height + 3) + 4) <= isize::MAX
}

/// Where addresses have 64 bits, a font can be drawn with exactly if its
/// line has a height of at least one unit.
pub proof fn font_draws_with_wide_addresses(contents: Seq<u8>)
    requires
        usize::BITS == 64,
    ensures
        spec_font_draws(contents) <==> spec_line_height(contents) >= 1,
{
    let height = spec_line_height(contents);
    if height >= 1 {
        let side = 1179630int / height + 3;
        vstd::arithmetic::div_mod::lemma_div_is_ordered_by_denominator(1179630, 1, height);
        vstd::arithmetic::div_mod::lemma_div_pos_is_pos(1179630, height);
        assert(0 <= side * side <= 1179633 * 1179633) by (nonlinear_arith)
            requires
                0 <= side <= 1179633,
        ;
        assert(isize::MAX == 0x7FFF_FFFF_FFFF_FFFF);
    }
}

/// What is drawn for the directory with the given name: the stand-in if
/// there is no font; with a font, the stand-in with its bar and on it the
/// label, written in white and eighteen pixels high. With a font that
/// cannot be drawn with, the bar stays empty.
pub open spec fn spec_directory_thumbnail(name: Seq<char>, font: Option<Seq<u8>>) -> ImageView {
    match font {
        Some(contents) => if spec_font_draws(contents) {
            ImageView {
                width: 256,
                height: 256,
                data: spec_drawn_text(
                    spec_placeholder_with_bar(),
                    (255u8, 255u8, 255u8, 255u8),
                    10,
                    228,
                    18,
                    contents,
                    spec_label(name),
                ),
            }
        } else {
            spec_placeholder_with_bar()
        },
        None => spec_placeholder(),
    }
}

/// The contents of an optional font.
pub open spec fn spec_font_contents(font: Option<&Font>) -> Option<Seq<u8>> {
    match font {
        Some(found) => Some(found@),
        None => None,
    }
}

/// The image of `width` by `height` pixels that has one colour throughout.
pub open spec fn spec_filled(width: u32, height: u32, color: Color) -> ImageView {
    ImageView {
        width: width,
        height: height,
        data: Seq::new((4 * width * height) as nat, |k: int| spec_channel(color, k % 4)),
    }
}

/// The stand-in for the thumbnail of a directory, without its label: a dark
/// blue square with a golden square in its middle.
pub open spec fn spec_placeholder() -> ImageView {
    spec_filled(256, 256, (30u8, 40u8, 60u8, 255u8)).with_rect(
        40,
        40,
        176,
        176,
        (200u8, 160u8, 40u8, 255u8),
    )
}

/// The stand-in with the bar that the label is written on: a translucent
/// black band along the bottom.
pub open spec fn spec_placeholder_with_bar() -> ImageView {
    spec_placeholder().with_rect(0, 220, 256, 36, (0u8, 0u8, 0u8, 180u8))
}

/// What `image::load_from_memory_with_format` makes of the bytes of a file
/// in the given format, as far as it is the same wherever it runs: the
/// width and height of the image that they decode to, or nothing if they do
/// not decode.
pub uninterp spec fn spec_decoded_size(bytes: Seq<u8>, kind: ImageKind) -> Option<(u32, u32)>;

/// Whether `ab_glyph::FontArc::try_from_vec` takes the contents of a file
/// for a font.
pub uninterp spec fn spec_font_parses(data: Seq<u8>) -> bool;

/// The size of the image in a file with the given path and contents: that
/// of the image that the contents decode to, in the format that the
/// extension of the path names. There is none if the extension names no
/// format or the contents do not decode.
pub open spec fn spec_file_size(bytes: Seq<u8>, path: Seq<char>, rules: PathRules) -> Option<
    (u32, u32),
> {
    match spec_image_kind(path, rules) {
        Some(kind) => spec_decoded_size(bytes, kind),
        None => None,
    }
}

/// Whether `decoded` can be the image that a file with the given path and
/// contents decodes to: it has the size of the image in the file, and four
/// bytes for each pixel.
pub open spec fn spec_decodes_to(
    bytes: Seq<u8>,
    path: Seq<char>,
    rules: PathRules,
    decoded: ImageView,
) -> bool {
    &&& spec_file_size(bytes, path, rules) == Some((decoded.width, decoded.height))
    &&& decoded.wf()
}

/// What `imageproc::drawing::draw_text_mut` makes of an image: its pixel
/// data after the text was drawn into it in the given colour, starting at
/// (`x`, `y`), `scale` pixels high, with the font that the contents `font`
/// of a font file parse to.
pub uninterp spec fn spec_drawn_text(
    canvas: ImageView,
    color: Color,
    x: i32,
    y: i32,
    scale: u16,
    font: Seq<u8>,
    text: Seq<char>,
) -> Seq<u8>;

/// What `ab_glyph::Font::height_unscaled` gives for the font that the
/// contents `font` of a font file parse to: the height of a line, which is
/// ascent less descent, in the units of the font.
pub uninterp spec fn spec_line_height(font: Seq<u8>) -> int;

/// What `image::DynamicImage::resize_to_fill` with the triangle filter makes
/// of an image: the pixel data of the image scaled to cover `width` by
/// `height` pixels and cut to that size around its middle.
pub uninterp spec fn spec_resized_to_fill(img: ImageView, width: u32, height: u32) -> Seq<u8>;

/// The thumbnail of a decoded image: the image scaled to fill the thumbnail
/// square, if it can be scaled.
pub open spec fn spec_thumbnail_of(img: ImageView) -> Option<ImageView> {
    if img.scalable() {
        Some(
            ImageView {
                width: 256,
                height: 256,
                data: spec_resized_to_fill(img, 256, 256),
            },
        )
    } else {
        None
    }
}

/// A parsed font of the `ab_glyph` crate.
#[verifier::external_type_specification]
#[verifier::external_body]
pub struct ExFontArc(ab_glyph::FontArc);

/// A font, ready to draw with: the contents of a font file, and what the
/// parser made of them. Fonts are made by `parse_font` only.
pub struct Font {
    contents: Vec<u8>,
    parsed: ab_glyph::FontArc,
}

impl View for Font {
    type V = Seq<u8>;

    closed spec fn view(&self) -> Seq<u8> {
        self.contents@
    }
}

/// Calls `image::load_from_memory_with_format` and turns the result into
/// eight bits per channel with `DynamicImage::into_rgba8`. Whether the
/// bytes decode, and to an image of which size, is a function of the bytes
/// and the format. Where there is a result, its data has four bytes per
/// pixel. Nothing is claimed about the pixels, which a decoder may compute
/// in more than one way.
#[verifier::external_body]
fn image_decode(bytes: &[u8], kind: ImageKind) -> (img: Option<PixelBuffer>)
    ensures
        match img {
            Some(decoded) => spec_decoded_size(bytes@, kind) == Some(
                (decoded.width, decoded.height),
            ) && decoded@.wf(),
            None => spec_decoded_size(bytes@, kind) is None,
        },
{
    let format = match kind {
        ImageKind::Jpeg => image::ImageFormat::Jpeg,
        ImageKind::Png => image::ImageFormat::Png,
        ImageKind::WebP => image::ImageFormat::WebP,
    };
    let pixels = image::load_from_memory_with_format(bytes, format).ok()?.into_rgba8();
    Some(PixelBuffer { width: pixels.width(), height: pixels.height(), data: pixels.into_raw() })
}

/// Calls `image::DynamicImage::resize_to_fill` with the triangle filter.
/// The result has exactly the size asked for and is a function of the image
/// and that size. The call is made only for images with pixels and sizes
/// for which the scaled image, before it is cut, has sides that fit in 32
/// bits, and for which it and the intermediate image fit the address space.
#[verifier::external_body]
fn image_resize_to_fill(img: &PixelBuffer, width: u32, height: u32) -> (resized: PixelBuffer)
    requires
        img@.wf(),
        spec_fill_fits(img.width, img.height, width, height),
    ensures
        resized.width == width,
        resized.height == height,
        resized@.wf(),
        resized.data@ == spec_resized_to_fill(img@, width, height),
{
    let source = image::RgbaImage::from_raw(img.width, img.height, img.data.clone()).unwrap();
    let filter = image::imageops::FilterType::Triangle;
    let resized = image::DynamicImage::ImageRgba8(source).resize_to_fill(width, height, filter);
    let pixels = resized.into_rgba8();
    PixelBuffer { width: pixels.width(), height: pixels.height(), data: pixels.into_raw() }
}

/// The four ways in which an image is turned or mirrored.
#[derive(Clone, Copy)]
enum Turn {
    /// A quarter clockwise.
    Quarter,
    /// Upside down.
    Half,
    /// Three quarters clockwise.
    ThreeQuarters,
    /// Mirrored, left to right.
    Mirror,
}

/// The image after a turn.
spec fn spec_turned(img: ImageView, turn: Turn) -> ImageView {
    match turn {
        Turn::Quarter => img.rotated90(),
        Turn::Half => img.rotated180(),
        Turn::ThreeQuarters => img.rotated270(),
        Turn::Mirror => img.flipped(),
    }
}

/// Byte `k` of an image of `width` by `height` pixels belongs to a pixel of
/// the image.
proof fn lemma_pixel_place(k: int, width: int, height: int)
    requires
        0 <= width,
        0 <= height,
        0 <= k < 4 * width * height,
    ensures
        0 <= (k / 4) % width < width,
        0 <= (k / 4) / width < height,
{
    assert(4 * width * height == 4 * (width * height)) by (nonlinear_arith);
    if width == 0 || height == 0 {
        assert(width * height == 0) by (nonlinear_arith)
            requires
                width == 0 || height == 0,
        ;
    }
    let place = k / 4;
    vstd::arithmetic::div_mod::lemma_fundamental_div_mod(place, width);
    vstd::arithmetic::div_mod::lemma_mod_bound(place, width);
    vstd::arithmetic::div_mod::lemma_div_pos_is_pos(place, width);
    if place / width >= height {
        assert(width * (place / width) >= width * height) by (nonlinear_arith)
            requires
                place / width >= height,
                width > 0,
        ;
    }
}

/// The bytes of the pixel at (`x`, `y`) of an image of `width` by `height`
/// pixels lie within its data.
proof fn lemma_pixel_index(x: int, y: int, channel: int, width: int, height: int)
    requires
        0 <= x < width,
        0 <= y < height,
        0 <= channel < 4,
    ensures
        0 <= y * width <= y * width + x < width * height,
        0 <= 4 * (y * width + x) + channel < 4 * width * height,
{
    assert(0 <= y * width && y * width + width <= width * height) by (nonlinear_arith)
        requires
            0 <= y,
            y + 1 <= height,
            0 < width,
    ;
    assert(4 * width * height == 4 * (width * height)) by (nonlinear_arith);
}

/// Turns or mirrors an image: every pixel goes to its new place, whole.
fn turned(img: &PixelBuffer, turn: Turn) -> (made: PixelBuffer)
    requires
        img@.wf(),
    ensures
        made@ == spec_turned(img@, turn),
        made@.wf(),
{
    let (width, height): (u32, u32) = match turn {
        Turn::Quarter => (img.height, img.width),
        Turn::Half => (img.width, img.height),
        Turn::ThreeQuarters => (img.height, img.width),
        Turn::Mirror => (img.width, img.height),
    };
    let total: usize = img.data.len();
    let across: usize = width as usize;
    let source_across: usize = img.width as usize;
    let source_down: usize = img.height as usize;
    proof {
        assert(4 * img.height * img.width == 4 * img.width * img.height) by (nonlinear_arith);
    }
    let mut data: Vec<u8> = Vec::new();
    let mut k: usize = 0;
    while k < total
        invariant
            k <= total,
            data@.len() == k,
            img@.wf(),
            total == img.data@.len(),
            total == 4 * width * height,
            across == width,
            source_across == img.width,
            source_down == img.height,
            width == spec_turned(img@, turn).width,
            height == spec_turned(img@, turn).height,
            spec_turned(img@, turn).data.len() == total,
            forall|i: int| 0 <= i < k ==> data@[i] == spec_turned(img@, turn).data[i],
        decreases total - k,
    {
        let place: usize = k / 4;
        let channel: usize = k % 4;
        proof {
            lemma_pixel_place(k as int, width as int, height as int);
        }
        let x: usize = place % across;
        let y: usize = place / across;
        let (from_x, from_y): (usize, usize) = match turn {
            Turn::Quarter => (y, source_down - 1 - x),
            Turn::Half => (source_across - 1 - x, source_down - 1 - y),
            Turn::ThreeQuarters => (source_across - 1 - y, x),
            Turn::Mirror => (source_across - 1 - x, y),
        };
        proof {
            lemma_pixel_index(
                from_x as int,
                from_y as int,
                channel as int,
                img.width as int,
                img.height as int,
            );
        }
        let byte: u8 = img.data[4 * (from_y * source_across + from_x) + channel];
        proof {
            assert(spec_turned(img@, turn).data[k as int] == img@.channel(
                from_x as int,
                from_y as int,
                channel as int,
            ));
        }
        data.push(byte);
        k = k + 1;
    }
    let made = PixelBuffer { width, height, data };
    proof {
        assert(made@.data =~= spec_turned(img@, turn).data);
    }
    made
}

/// One channel of a colour: red is channel zero, alpha channel three.
fn channel_of(color: Color, channel: usize) -> (value: u8)
    ensures
        value == spec_channel(color, channel as int),
{
    if channel == 0 {
        color.0
    } else if channel == 1 {
        color.1
    } else if channel == 2 {
        color.2
    } else {
        color.3
    }
}

/// Fills a rectangle of the image with one colour: the pixels of the
/// rectangle that lie inside the image take the colour, all others stay.
fn fill_rect(
    canvas: &mut PixelBuffer,
    left: u32,
    top: u32,
    width: u32,
    height: u32,
    color: Color,
)
    requires
        old(canvas)@.wf(),
    ensures
        final(canvas)@ == old(canvas)@.with_rect(
            left as int,
            top as int,
            width as int,
            height as int,
            color,
        ),
        final(canvas)@.wf(),
{
    let ghost before = canvas@;
    let ghost after = before.with_rect(
        left as int,
        top as int,
        width as int,
        height as int,
        color,
    );
    let total: usize = canvas.data.len();
    let across: usize = canvas.width as usize;
    let mut data: Vec<u8> = Vec::new();
    let mut k: usize = 0;
    while k < total
        invariant
            k <= total,
            data@.len() == k,
            canvas@ == before,
            before.wf(),
            total == before.data.len(),
            across == before.width,
            after == before.with_rect(
                left as int,
                top as int,
                width as int,
                height as int,
                color,
            ),
            forall|i: int| 0 <= i < k ==> data@[i] == after.data[i],
        decreases total - k,
    {
        let place: usize = k / 4;
        let channel: usize = k % 4;
        proof {
            lemma_pixel_place(k as int, before.width as int, before.height as int);
        }
        let x: u64 = (place % across) as u64;
        let y: u64 = (place / across) as u64;
        let inside: bool = left as u64 <= x && x < left as u64 + width as u64 && top as u64 <= y
            && y < top as u64 + height as u64;
        let byte: u8 = if inside {
            channel_of(color, channel)
        } else {
            canvas.data[k]
        };
        data.push(byte);
        k = k + 1;
    }
    canvas.data = data;
    proof {
        assert(canvas@.data =~= after.data);
    }
}

/// Calls `imageproc::drawing::draw_text_mut`, which blends the glyphs of the
/// text into the image, starting at (`x`, `y`), `scale` pixels high. The
/// image keeps its size, and its pixels are a function of the image, the
/// colour, the position, the height, the text and the contents of the font
/// file: a font holds what `ab_glyph` made of its contents, and nothing
/// else goes into the drawing.
///
/// The call adds, in 32 bits, the position, the place of each glyph and a
/// pixel's place within the glyph. It is made only where that sum stays in
/// range: for a position within a quarter of the range, a text of at most
/// 255 characters, at most eighteen pixels to the line, and a font that can
/// be drawn with. A glyph then lies at most 255 advances and kernings from
/// the start, each of at most 65535 and 32768 units, and reaches at most
/// 65535 units from its place, at no more than eighteen pixels to the unit.
#[verifier::external_body]
fn imageproc_draw_text(
    canvas: &mut PixelBuffer,
    color: Color,
    x: i32,
    y: i32,
    scale: u16,
    font: &Font,
    text: &str,
)
    requires
        old(canvas)@.wf(),
        -0x3FFF_FFFF <= x <= 0x3FFF_FFFF,
        -0x3FFF_FFFF <= y <= 0x3FFF_FFFF,
        scale <= 18,
        text@.len() <= 255,
        spec_font_draws(font@),
    ensures
        final(canvas).width == old(canvas).width,
        final(canvas).height == old(canvas).height,
        final(canvas).data@ == spec_drawn_text(old(canvas)@, color, x, y, scale, font@, text@),
        final(canvas)@.wf(),
{
    let data = std::mem::take(&mut canvas.data);
    let mut image = image::RgbaImage::from_raw(canvas.width, canvas.height, data).unwrap();
    let pixel = image::Rgba([color.0, color.1, color.2, color.3]);
    let size = ab_glyph::PxScale { x: scale.into(), y: scale.into() };
    imageproc::drawing::draw_text_mut(&mut image, pixel, x, y, size, &font.parsed, text);
    canvas.data = image.into_raw();
}

/// Calls `ab_glyph::Font::height_unscaled`, which gives the height of a
/// line of the font in the units of the font: its ascent less its descent,
/// two whole numbers of sixteen bits, so that the conversion loses nothing.
/// It is a function of the contents of the font file.
#[verifier::external_body]
fn ab_glyph_line_height(font: &Font) -> (units: i32)
    ensures
        units == spec_line_height(font@),
{
    ab_glyph::Font::height_unscaled(&font.parsed) as i32
}

/// Calls `ab_glyph::FontArc::try_from_vec`, which parses the contents of a
/// font file. Whether it takes the contents for a font is a function of
/// the contents. Nothing is claimed about which contents it takes.
#[verifier::external_body]
fn ab_glyph_parse(data: Vec<u8>) -> (font: Option<ab_glyph::FontArc>)
    ensures
        font is Some <==> spec_font_parses(data@),
{
    ab_glyph::FontArc::try_from_vec(data).ok()
}

impl PixelBuffer {
    /// The data holds exactly four bytes for each pixel.
    pub open spec fn wf(&self) -> bool {
        self@.wf()
    }

    /// Width and height of the image.
    pub fn dimensions(&self) -> (size: (u32, u32))
        ensures
            size == (self.width, self.height),
    {
        (self.width, self.height)
    }

    /// An image of one colour, or nothing if its data would not fit the
    /// address space.
    pub fn filled(width: u32, height: u32, color: Color) -> (img: Option<PixelBuffer>)
        ensures
            match img {
                Some(made) => made@ == spec_filled(width, height, color) && made@.wf(),
                None => 4 * width * height > usize::MAX,
            },
    {
        proof {
            assert(0 <= width * height <= 0xFFFF_FFFF * 0xFFFF_FFFF) by (nonlinear_arith)
                requires
                    0 <= width <= 0xFFFF_FFFF,
                    0 <= height <= 0xFFFF_FFFF,
            ;
            assert(4 * width * height == 4 * (width * height)) by (nonlinear_arith);
        }
        let wide: u128 = 4 * (width as u128 * height as u128);
        if wide > usize::MAX as u128 {
            return None;
        }
        let length: usize = wide as usize;
        let mut data: Vec<u8> = Vec::new();
        let mut k: usize = 0;
        while k < length
            invariant
                k <= length,
                length % 4 == 0,
                k % 4 == 0,
                data@.len() == k,
                forall|i: int| 0 <= i < k ==> data@[i] == spec_channel(color, i % 4),
            decreases length - k,
        {
            data.push(color.0);
            data.push(color.1);
            data.push(color.2);
            data.push(color.3);
            k = k + 4;
        }
        let made = PixelBuffer { width, height, data };
        assert(made@.data =~= spec_filled(width, height, color).data);
        Some(made)
    }
}

/// Parses the contents of a font file: the font, if the contents are taken
/// for one, and nothing if not.
pub fn parse_font(data: Vec<u8>) -> (font: Option<Font>)
    ensures
        font is Some <==> spec_font_parses(data@),
        font matches Some(parsed) ==> parsed@ == data@,
{
    let contents: Vec<u8> = data.clone();
    match ab_glyph_parse(data) {
        Some(parsed) => Some(Font { contents, parsed }),
        None => None,
    }
}

/// Decodes the contents of an image file of the given format. There is an
/// image exactly when the bytes decode, and it has the size that they
/// decode to.
pub fn decode_image(bytes: &[u8], kind: ImageKind) -> (img: Option<PixelBuffer>)
    ensures
        match img {
            Some(decoded) => spec_decoded_size(bytes@, kind) == Some(
                (decoded.width, decoded.height),
            ) && decoded@.wf(),
            None => spec_decoded_size(bytes@, kind) is None,
        },
{
    image_decode(bytes, kind)
}

/// Turns and mirrors an image as its orientation asks.
pub fn apply_orientation(img: &PixelBuffer, orientation: ExifOrientation) -> (upright:
    PixelBuffer)
    requires
        img@.wf(),
    ensures
        upright@ == img@.oriented(orientation),
        upright@.wf(),
{
    match orientation {
        ExifOrientation::Normal => img.clone(),
        ExifOrientation::Rotate90 => turned(img, Turn::Quarter),
        ExifOrientation::Rotate180 => turned(img, Turn::Half),
        ExifOrientation::Rotate270 => turned(img, Turn::ThreeQuarters),
        ExifOrientation::FlipHorizontal => turned(img, Turn::Mirror),
        ExifOrientation::FlipHorizontalRotate90 => {
            let rotated = turned(img, Turn::Quarter);
            turned(&rotated, Turn::Mirror)
        },
        ExifOrientation::FlipHorizontalRotate180 => {
            let rotated = turned(img, Turn::Half);
            turned(&rotated, Turn::Mirror)
        },
        ExifOrientation::FlipHorizontalRotate270 => {
            let rotated = turned(img, Turn::ThreeQuarters);
            turned(&rotated, Turn::Mirror)
        },
    }
}

/// The thumbnail of a decoded image: the image scaled to fill the thumbnail
/// square, or nothing if the image cannot be scaled.
pub fn thumbnail_of(img: &PixelBuffer) -> (thumbnail: Option<PixelBuffer>)
    requires
        img@.wf(),
    ensures
        match thumbnail {
            Some(made) => spec_thumbnail_of(img@) == Some(made@) && made@.wf() && made.width
                == THUMBNAIL_SIZE && made.height == THUMBNAIL_SIZE,
            None => spec_thumbnail_of(img@) is None,
        },
{
    if fill_fits(img.width, img.height, THUMBNAIL_SIZE, THUMBNAIL_SIZE) {
        Some(image_resize_to_fill(img, THUMBNAIL_SIZE, THUMBNAIL_SIZE))
    } else {
        None
    }
}

/// Whether an image of `width` by `height` pixels can be scaled to fill
/// `to_width` by `to_height` pixels.
pub fn fill_fits(width: u32, height: u32, to_width: u32, to_height: u32) -> (fits: bool)
    ensures
        fits == spec_fill_fits(width, height, to_width, to_height),
{
    if width < 1 || height < 1 || to_width < 1 || to_width > 4096 || to_height < 1 || to_height
        > 4096 {
        return false;
    }
    let w: u128 = width as u128;
    let h: u128 = height as u128;
    let tw: u128 = to_width as u128;
    let th: u128 = to_height as u128;
    let limit: u128 = isize::MAX as u128;
    proof {
        assert(0 <= w * th <= 0xFFFF_FFFF * 4096 && 0 <= h * tw <= 0xFFFF_FFFF * 4096)
            by (nonlinear_arith)
            requires
                0 <= w <= 0xFFFF_FFFF,
                0 <= h <= 0xFFFF_FFFF,
                0 <= tw <= 4096,
                0 <= th <= 4096,
        ;
        assert(0xFFFF_FFFF * h <= 0xFFFF_FFFF * 0xFFFF_FFFF && 0xFFFF_FFFF * w <= 0xFFFF_FFFF
            * 0xFFFF_FFFF) by (nonlinear_arith)
            requires
                0 <= w <= 0xFFFF_FFFF,
                0 <= h <= 0xFFFF_FFFF,
        ;
    }
    if w * th > 0xFFFF_FFFF * h || h * tw > 0xFFFF_FFFF * w {
        return false;
    }
    let tall: u128 = h * tw / w;
    let wide: u128 = w * th / h;
    proof {
        vstd::arithmetic::div_mod::lemma_div_is_ordered_by_denominator((h * tw) as int, 1, w as int);
        vstd::arithmetic::div_mod::lemma_div_is_ordered_by_denominator((w * th) as int, 1, h as int);
        vstd::arithmetic::div_mod::lemma_div_basics((h * tw) as int);
        vstd::arithmetic::div_mod::lemma_div_basics((w * th) as int);
        assert(0 <= tw * (tall + 1) <= 4096 * (0xFFFF_FFFF * 4096 + 1) && 0 <= th * (wide + 1)
            <= 4096 * (0xFFFF_FFFF * 4096 + 1)) by (nonlinear_arith)
            requires
                0 <= tall <= 0xFFFF_FFFF * 4096,
                0 <= wide <= 0xFFFF_FFFF * 4096,
                0 <= tw <= 4096,
                0 <= th <= 4096,
        ;
    }
    16 * (w * th + h * tw + w) <= limit && 4 * (tw * (tall + 1) + th * (wide + 1)) <= limit
}

/// The thumbnail of the image file with path `path` and contents `bytes`:
/// that of the image that the contents decode to, in the format that the
/// extension of the path names. There is none if the extension names no
/// format, if the contents do not decode, or if the image cannot be scaled.
pub fn thumbnail_from_file(bytes: &[u8], path: &str, rules: PathRules) -> (thumbnail: Option<
    PixelBuffer,
>)
    ensures
        thumbnail is Some <==> (spec_file_size(bytes@, path@, rules) matches Some(size)
            && spec_scalable_size(size.0, size.1)),
        thumbnail matches Some(made) ==> made.width == THUMBNAIL_SIZE && made.height
            == THUMBNAIL_SIZE && made@.wf() && exists|decoded: ImageView|
            #[trigger] spec_decodes_to(bytes@, path@, rules, decoded) && spec_thumbnail_of(decoded)
                == Some(made@),
{
    match image_kind(path, rules) {
        Some(kind) => match decode_image(bytes, kind) {
            Some(img) => {
                assert(spec_decodes_to(bytes@, path@, rules, img@));
                thumbnail_of(&img)
            },
            None => None,
        },
        None => None,
    }
}

/// The image of the file with path `path` and contents `bytes` as it is
/// shown: what the contents decode to, in the format that the extension of
/// the path names, turned as `orientation` asks. There is none if the
/// extension names no format or the contents do not decode.
pub fn image_from_file(
    bytes: &[u8],
    path: &str,
    orientation: ExifOrientation,
    rules: PathRules,
) -> (img: Option<PixelBuffer>)
    ensures
        img is Some <==> spec_file_size(bytes@, path@, rules) is Some,
        img matches Some(made) ==> made@.wf() && exists|decoded: ImageView|
            #[trigger] spec_decodes_to(bytes@, path@, rules, decoded) && made@ == decoded.oriented(
                orientation,
            ),
{
    match image_kind(path, rules) {
        Some(kind) => match decode_image(bytes, kind) {
            Some(img) => {
                assert(spec_decodes_to(bytes@, path@, rules, img@));
                if orientation.needs_rotation() {
                    Some(apply_orientation(&img, orientation))
                } else {
                    Some(img)
                }
            },
            None => None,
        },
        None => None,
    }
}

/// The stand-in for the thumbnail of a directory, without a label.
pub fn placeholder() -> (img: PixelBuffer)
    ensures
        img@ == spec_placeholder(),
        img@.wf(),
{
    let mut canvas = match PixelBuffer::filled(256, 256, (30, 40, 60, 255)) {
        Some(canvas) => canvas,
        None => PixelBuffer { width: 0, height: 0, data: Vec::new() },
    };
    fill_rect(&mut canvas, 40, 40, 176, 176, (200, 160, 40, 255));
    canvas
}

/// The stand-in for the thumbnail of a directory with the bar that the
/// label is written on.
pub fn placeholder_with_bar() -> (img: PixelBuffer)
    ensures
        img@ == spec_placeholder_with_bar(),
        img@.wf(),
{
    let mut canvas = placeholder();
    fill_rect(&mut canvas, 0, 220, 256, 36, (0, 0, 0, 180));
    canvas
}

/// The label that is drawn for a name: the name, cut to its first 255
/// characters if it has more.
pub fn cut_label(name: &str) -> (label: &str)
    ensures
        label@ == spec_label(name@),
{
    if name.unicode_len() > LABEL_CHARS {
        name.substring_char(0, LABEL_CHARS)
    } else {
        name
    }
}

/// Whether a label can be drawn with the font.
pub fn font_draws(font: &Font) -> (draws: bool)
    ensures
        draws == spec_font_draws(font@),
{
    let height: i32 = ab_glyph_line_height(font);
    if height < 1 {
        return false;
    }
    let side: u128 = 1179630 / (height as u128) + 3;
    proof {
        vstd::arithmetic::div_mod::lemma_div_is_ordered_by_denominator(1179630, 1, height as int);
        vstd::arithmetic::div_mod::lemma_div_pos_is_pos(1179630, height as int);
        assert(0 <= side * side <= 1179633 * 1179633) by (nonlinear_arith)
            requires
                0 <= side <= 1179633,
        ;
    }
    4 * (side * side + 4) <= isize::MAX as u128
}

/// The stand-in for the thumbnail of the directory with the given name.
/// With a font, the name is written in white on the bar along the bottom,
/// from the point (10, 228) on and eighteen pixels high, cut to its first
/// 255 characters; what does not fit the image is not seen. With a font
/// that cannot be drawn with, the bar stays empty. Without a font the
/// stand-in carries neither bar nor label.
pub fn directory_thumbnail(name: &str, font: Option<&Font>) -> (img: PixelBuffer)
    ensures
        img@ == spec_directory_thumbnail(name@, spec_font_contents(font)),
        img.width == THUMBNAIL_SIZE,
        img.height == THUMBNAIL_SIZE,
        img@.wf(),
{
    match font {
        Some(font) => {
            let mut canvas = placeholder_with_bar();
            if font_draws(font) {
                let label = cut_label(name);
                imageproc_draw_text(&mut canvas, (255, 255, 255, 255), 10, 228, 18, font, label);
            }
            canvas
        },
        None => placeholder(),
    }
}

} // verus!
