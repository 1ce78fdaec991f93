//! Decoded pictures and the image operations the viewer performs on them.

use image::DynamicImage;
use vstd::prelude::*;

verus! {

#[verifier::external_type_specification]
#[verifier::external_body]
pub struct ExDynamicImage(image::DynamicImage);

#[verifier::external_type_specification]
#[verifier::external_body]
pub struct ExImageError(image::ImageError);

/// The width and height of a picture, in pixels.
pub struct PictureSize {
    pub width: nat,
    pub height: nat,
}

/// How a picture's pixels are laid out in memory: the channels of each
/// pixel and the size of each sample.
#[derive(Clone, Copy, Debug, PartialEq, Eq, Structural)]
pub enum ColorLayout {
    Luma8,
    LumaA8,
    Rgb8,
    Rgba8,
    Luma16,
    LumaA16,
    Rgb16,
    Rgba16,
    Rgb32F,
    Rgba32F,
    /// A layout that a later version of the image crate may add.
    Other,
}

/// The number of bytes each pixel takes in a layout.
pub open spec fn bytes_per_pixel(layout: ColorLayout) -> nat {
    match layout {
        ColorLayout::Luma8 => 1,
        ColorLayout::LumaA8 => 2,
        ColorLayout::Rgb8 => 3,
        ColorLayout::Rgba8 => 4,
        ColorLayout::Luma16 => 2,
        ColorLayout::LumaA16 => 4,
        ColorLayout::Rgb16 => 6,
        ColorLayout::Rgba16 => 8,
        ColorLayout::Rgb32F => 12,
        ColorLayout::Rgba32F => 16,
        ColorLayout::Other => 0,
    }
}

/// The model of a picture: its size, its layout, and its samples' bytes in
/// memory order, row by row, pixel by pixel.
pub struct ImageModel {
    pub width: nat,
    pub height: nat,
    pub layout: ColorLayout,
    pub samples: Seq<u8>,
}

/// The bytes of an image's samples in memory order (`DynamicImage::as_bytes`).
pub uninterp spec fn image_samples(image: DynamicImage) -> Seq<u8>;

/// A decoded picture together with its dimensions and layout.
pub struct Picture {
    image: DynamicImage,
    width: u32,
    height: u32,
    layout: ColorLayout,
}

impl View for Picture {
    type V = ImageModel;

    closed spec fn view(&self) -> ImageModel {
        ImageModel {
            width: self.width as nat,
            height: self.height as nat,
            layout: self.layout,
            samples: image_samples(self.image),
        }
    }
}

impl Picture {
    /// The width of the picture in pixels.
    pub fn width(&self) -> (w: u32)
        ensures
            w == self@.width,
    {
        self.width
    }

    /// The height of the picture in pixels.
    pub fn height(&self) -> (h: u32)
        ensures
            h == self@.height,
    {
        self.height
    }

    /// The layout of the picture's pixels.
    pub fn layout(&self) -> (l: ColorLayout)
        ensures
            l == self@.layout,
    {
        self.layout
    }

    /// The decoded image the picture holds.
    pub closed spec fn decoded(&self) -> DynamicImage {
        self.image
    }

    /// The decoded image itself.
    pub fn image(&self) -> (i: &DynamicImage)
        ensures
            *i == self.decoded(),
    {
        &self.image
    }
}

/// The picture turned a quarter clockwise: the pixel at column `x`, row
/// `y` of the result is the one at column `y`, row `height - 1 - x` of `m`.
pub open spec fn quarter_turn(m: ImageModel) -> ImageModel {
    let bpp = bytes_per_pixel(m.layout);
    ImageModel {
        width: m.height,
        height: m.width,
        layout: m.layout,
        samples: Seq::new(
            m.width * m.height * bpp,
            |i: int|
                {
                    let px = i / (bpp as int);
                    let c = i % (bpp as int);
                    let x = px % (m.height as int);
                    let y = px / (m.height as int);
                    m.samples[((m.height - 1 - x) * m.width + y) * bpp + c]
                },
        ),
    }
}

/// The picture turned half round: the pixel at column `x`, row `y` of the
/// result is the one at column `width - 1 - x`, row `height - 1 - y` of `m`.
pub open spec fn half_turn(m: ImageModel) -> ImageModel {
    let bpp = bytes_per_pixel(m.layout);
    ImageModel {
        width: m.width,
        height: m.height,
        layout: m.layout,
        samples: Seq::new(
            m.width * m.height * bpp,
            |i: int|
                {
                    let px = i / (bpp as int);
                    let c = i % (bpp as int);
                    let x = px % (m.width as int);
                    let y = px / (m.width as int);
                    m.samples[((m.height - 1 - y) * m.width + (m.width - 1 - x)) * bpp + c]
                },
        ),
    }
}

/// The picture turned three quarters clockwise: the pixel at column `x`,
/// row `y` of the result is the one at column `width - 1 - y`, row `x` of
/// `m`.
pub open spec fn three_quarter_turn(m: ImageModel) -> ImageModel {
    let bpp = bytes_per_pixel(m.layout);
    ImageModel {
        width: m.height,
        height: m.width,
        layout: m.layout,
        samples: Seq::new(
            m.width * m.height * bpp,
            |i: int|
                {
                    let px = i / (bpp as int);
                    let c = i % (bpp as int);
                    let x = px % (m.height as int);
                    let y = px / (m.height as int);
                    m.samples[(x * m.width + (m.width - 1 - y)) * bpp + c]
                },
        ),
    }
}

/// Byte `ch` of the pixel at column `x`, row `y` of `m`.
pub open spec fn sample(m: ImageModel, x: int, y: int, ch: int) -> u8 {
    m.samples[(y * m.width + x) * bytes_per_pixel(m.layout) + ch]
}

/// Whether `t` is `m` turned by `quarters` quarters clockwise (0 to 3): the
/// same layout and number of bytes, the sides swapped for an odd number of
/// quarters, and each pixel of `t` taken from the pixel of `m` that the
/// turn carries onto it.
pub open spec fn turned_by(m: ImageModel, quarters: int, t: ImageModel) -> bool {
    &&& t.layout == m.layout
    &&& t.samples.len() == m.samples.len()
    &&& (if quarters % 2 == 1 {
        t.width == m.height && t.height == m.width
    } else {
        t.width == m.width && t.height == m.height
    })
    &&& forall|x: int, y: int, ch: int|
        0 <= x < t.width && 0 <= y < t.height && 0 <= ch < bytes_per_pixel(m.layout) ==> #[trigger] sample(
            t,
            x,
            y,
            ch,
        ) == if quarters == 0 {
            sample(m, x, y, ch)
        } else if quarters == 1 {
            sample(m, y, m.height - 1 - x, ch)
        } else if quarters == 2 {
            sample(m, m.width - 1 - x, m.height - 1 - y, ch)
        } else {
            sample(m, m.width - 1 - y, x, ch)
        }
}

/// Splits a byte index of a `wid` by `hei` picture into its row, column
/// and byte within the pixel.
proof fn lemma_sample_index(i: int, bpp: int, wid: int, hei: int)
    requires
        bpp > 0,
        wid > 0,
        0 <= i < wid * hei * bpp,
    ensures
        0 <= i % bpp < bpp,
        0 <= (i / bpp) % wid < wid,
        0 <= (i / bpp) / wid < hei,
        i == (((i / bpp) / wid) * wid + (i / bpp) % wid) * bpp + i % bpp,
{
    let px = i / bpp;
    let ch = i % bpp;
    let x = px % wid;
    let y = px / wid;
    vstd::arithmetic::div_mod::lemma_fundamental_div_mod(i, bpp);
    vstd::arithmetic::div_mod::lemma_mod_bound(i, bpp);
    vstd::arithmetic::div_mod::lemma_fundamental_div_mod(px, wid);
    vstd::arithmetic::div_mod::lemma_mod_bound(px, wid);
    vstd::arithmetic::div_mod::lemma_div_pos_is_pos(i, bpp);
    vstd::arithmetic::div_mod::lemma_div_pos_is_pos(px, wid);
    assert(i < bpp * (wid * hei)) by (nonlinear_arith)
        requires
            i < wid * hei * bpp,
    {
    }
    vstd::arithmetic::div_mod::lemma_multiply_divide_lt(i, bpp, wid * hei);
    vstd::arithmetic::div_mod::lemma_multiply_divide_lt(px, wid, hei);
    assert(i == (y * wid + x) * bpp + ch) by (nonlinear_arith)
        requires
            i == bpp * px + ch,
            px == wid * y + x,
    {
    }
}

/// The turns of a picture are what their names say: for every picture
/// whose bytes fill its pixels, `quarter_turn`, `half_turn` and
/// `three_quarter_turn` carry each pixel where a turn by one, two and three
/// quarters clockwise carries it, and any picture so turned is equal to
/// them.
pub proof fn lemma_turns_move_pixels(m: ImageModel, quarters: int, t: ImageModel)
    requires
        bytes_per_pixel(m.layout) > 0,
        m.samples.len() == m.width * m.height * bytes_per_pixel(m.layout),
        0 <= quarters <= 3,
        turned_by(m, quarters, t),
    ensures
        quarters == 0 ==> t == m,
        quarters == 1 ==> t == quarter_turn(m),
        quarters == 2 ==> t == half_turn(m),
        quarters == 3 ==> t == three_quarter_turn(m),
{
    let bpp = bytes_per_pixel(m.layout) as int;
    let r = if quarters == 0 {
        m
    } else if quarters == 1 {
        quarter_turn(m)
    } else if quarters == 2 {
        half_turn(m)
    } else {
        three_quarter_turn(m)
    };
    let wid = t.width as int;
    let hei = t.height as int;
    if wid == 0 || hei == 0 {
        assert(m.width * m.height == 0) by (nonlinear_arith)
            requires
                (wid == 0 || hei == 0),
                (m.width == wid && m.height == hei) || (m.width == hei && m.height == wid),
        {
        }
        assert(t.samples =~= r.samples);
    } else {
        assert(wid * hei * bpp == m.samples.len()) by (nonlinear_arith)
            requires
                m.samples.len() == m.width * m.height * bpp,
                (m.width == wid && m.height == hei) || (m.width == hei && m.height == wid),
        {
        }
        assert forall|i: int| 0 <= i < t.samples.len() implies t.samples[i] == r.samples[i] by {
            lemma_sample_index(i, bpp, wid, hei);
            let x = (i / bpp) % wid;
            let y = (i / bpp) / wid;
            let ch = i % bpp;
            assert(sample(t, x, y, ch) == t.samples[i]);
        }
        assert(t.samples =~= r.samples);
    }
}

/// An 8-bit grayscale frame, row by row.
pub struct GrayFrame {
    pub width: u32,
    pub height: u32,
    pub pixels: Vec<u8>,
}

/// The model of a frame.
pub struct FrameModel {
    pub width: nat,
    pub height: nat,
    pub pixels: Seq<u8>,
}

impl View for GrayFrame {
    type V = FrameModel;

    open spec fn view(&self) -> FrameModel {
        FrameModel { width: self.width as nat, height: self.height as nat, pixels: self.pixels@ }
    }
}

impl GrayFrame {
    /// One byte per pixel.
    pub open spec fn well_formed(&self) -> bool {
        self.pixels@.len() == self.width * self.height
    }
}

/// What decoding the given bytes as an image gives: `None` where the format
/// cannot be guessed or decoding fails, else the decoded picture.
pub uninterp spec fn decoded_image(bytes: Seq<u8>) -> Option<ImageModel>;

/// The picture `resize_to_fill` makes of `m` for the requested size.
pub uninterp spec fn filled(m: ImageModel, width: u32, height: u32) -> ImageModel;

/// The gray values `to_luma8` makes of `m`, one byte per pixel, row by row.
pub uninterp spec fn gray_pixels(m: ImageModel) -> Seq<u8>;

/// Calls `image::load_from_memory`, which guesses the format from the
/// leading bytes and decodes them, and records the decoded image's size and
/// layout. Its result depends on the bytes alone. `DynamicImage` in the
/// image crate built here has exactly the variants that `ColorLayout` lists
/// before `Other`, so a decoded picture never has the layout `Other`.
#[verifier::external_body]
pub(crate) fn decode_picture(bytes: &[u8]) -> (r: Result<Picture, image::ImageError>)
    ensures
        match r {
            Ok(p) => decoded_image(bytes@) == Some(p@),
            Err(_) => decoded_image(bytes@) is None,
        },
        r matches Ok(p) ==> p@.layout != ColorLayout::Other,
{
    let image = image::load_from_memory(bytes)?;
    let layout = match &image {
        DynamicImage::ImageLuma8(_) => ColorLayout::Luma8,
        DynamicImage::ImageLumaA8(_) => ColorLayout::LumaA8,
        DynamicImage::ImageRgb8(_) => ColorLayout::Rgb8,
        DynamicImage::ImageRgba8(_) => ColorLayout::Rgba8,
        DynamicImage::ImageLuma16(_) => ColorLayout::Luma16,
        DynamicImage::ImageLumaA16(_) => ColorLayout::LumaA16,
        DynamicImage::ImageRgb16(_) => ColorLayout::Rgb16,
        DynamicImage::ImageRgba16(_) => ColorLayout::Rgba16,
        DynamicImage::ImageRgb32F(_) => ColorLayout::Rgb32F,
        DynamicImage::ImageRgba32F(_) => ColorLayout::Rgba32F,
        _ => ColorLayout::Other,
    };
    Ok(Picture { width: image.width(), height: image.height(), layout, image })
}

/// Calls `RgbaImage::from_raw` on 8-bit RGBA data and wraps the buffer as a
/// `DynamicImage`. `from_raw` accepts the data exactly when it holds at least
/// four bytes for each of the `width * height` pixels, and keeps the data as
/// the image's samples.
#[verifier::external_body]
pub(crate) fn rgba_picture_from_raw(width: u32, height: u32, data: Vec<u8>) -> (r: Option<Picture>)
    ensures
        r is Some <==> 4 * width * height <= data@.len(),
        r matches Some(p) ==> p@ == (ImageModel {
            width: width as nat,
            height: height as nat,
            layout: ColorLayout::Rgba8,
            samples: data@,
        }) && image_samples(p.decoded()) == data@,
{
    image::RgbaImage::from_raw(width, height, data).map(
        |b| Picture { width, height, layout: ColorLayout::Rgba8, image: DynamicImage::ImageRgba8(b) },
    )
}

/// Calls `DynamicImage::rotate90`, which turns the picture a quarter
/// clockwise into a new buffer of the same layout, pixel by pixel (for a
/// layout the crate may add later, only the sizes are stated).
#[verifier::external_body]
pub(crate) fn rotate_quarter(p: &Picture) -> (r: Picture)
    ensures
        r@.width == p@.height,
        r@.height == p@.width,
        r@.layout == p@.layout,
        p@.layout != ColorLayout::Other ==> r@ == quarter_turn(p@),
{
    let image = p.image.rotate90();
    Picture { width: image.width(), height: image.height(), layout: p.layout, image }
}

/// Calls `DynamicImage::rotate180`, which turns the picture half round into
/// a new buffer of the same layout, pixel by pixel (for a layout the crate
/// may add later, only the sizes are stated).
#[verifier::external_body]
pub(crate) fn rotate_half(p: &Picture) -> (r: Picture)
    ensures
        r@.width == p@.width,
        r@.height == p@.height,
        r@.layout == p@.layout,
        p@.layout != ColorLayout::Other ==> r@ == half_turn(p@),
{
    let image = p.image.rotate180();
    Picture { width: image.width(), height: image.height(), layout: p.layout, image }
}

/// Calls `DynamicImage::rotate270`, which turns the picture three quarters
/// clockwise into a new buffer of the same layout, pixel by pixel (for a
/// layout the crate may add later, only the sizes are stated).
#[verifier::external_body]
pub(crate) fn rotate_three_quarters(p: &Picture) -> (r: Picture)
    ensures
        r@.width == p@.height,
        r@.height == p@.width,
        r@.layout == p@.layout,
        p@.layout != ColorLayout::Other ==> r@ == three_quarter_turn(p@),
{
    let image = p.image.rotate270();
    Picture { width: image.width(), height: image.height(), layout: p.layout, image }
}

/// Whether scaling a `pw` by `ph` picture to fill a `width` by `height`
/// area keeps both scaled sides within `u32::MAX`.
pub open spec fn fill_fits(pw: nat, ph: nat, width: u32, height: u32) -> bool {
    &&& height * pw <= u32::MAX * ph
    &&& width * ph <= u32::MAX * pw
}

/// Calls `DynamicImage::resize_to_fill` with the nearest-neighbour filter:
/// the picture is scaled, keeping its aspect ratio, to the least size that
/// covers the requested one (each side rounded, so at least the request)
/// and cropped to the request, in the same layout. The result depends on
/// the picture and the size alone. It is never larger than the request, and
/// is exactly the request where neither scaled side is clamped to
/// `u32::MAX`. A picture without pixels is left out: for it the scale
/// factor is infinite and the intermediate image can grow to `u32::MAX`
/// pixels in one dimension.
#[verifier::external_body]
pub(crate) fn fill_resized(p: &Picture, width: u32, height: u32) -> (r: Picture)
    requires
        p@.width > 0,
        p@.height > 0,
    ensures
        r@ == filled(p@, width, height),
        r@.layout == p@.layout,
        r@.width <= width,
        r@.height <= height,
        fill_fits(p@.width, p@.height, width, height) ==> r@.width == width && r@.height == height,
{
    let image = p.image.resize_to_fill(width, height, image::imageops::FilterType::Nearest);
    Picture { width: image.width(), height: image.height(), layout: p.layout, image }
}

/// Calls `DynamicImage::to_luma8`, which converts the picture to 8-bit
/// grayscale of the same size, one byte per pixel row by row. The gray
/// values depend on the picture alone.
#[verifier::external_body]
pub(crate) fn to_gray(p: &Picture) -> (r: GrayFrame)
    ensures
        r.width == p@.width,
        r.height == p@.height,
        r.pixels@ == gray_pixels(p@),
        r.well_formed(),
{
    let g = p.image.to_luma8();
    GrayFrame { width: g.width(), height: g.height(), pixels: g.into_raw() }
}

} // verus!
