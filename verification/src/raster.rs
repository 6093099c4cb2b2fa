//! RGBA images as plain pixel data, cropped and encoded through the `image`
//! crate.
use vstd::prelude::*;

verus! {

/// An 8-bit RGBA image: `width * height` pixels, row by row, four bytes each.
pub struct RgbaRaster {
    pub width: u32,
    pub height: u32,
    pub pixels: Vec<u8>,
}

impl RgbaRaster {
    /// The pixel data holds exactly four bytes per pixel.
    pub open spec fn wf(&self) -> bool {
        self.pixels.len() == self.width as nat * self.height as nat * 4
    }

    /// Builds an image from its dimensions and pixel data; `None` when the
    /// data does not hold exactly four bytes per pixel.
    pub fn from_raw(width: u32, height: u32, pixels: Vec<u8>) -> (r: Option<RgbaRaster>)
        ensures
            r is Some <==> pixels.len() == width as nat * height as nat * 4,
            r matches Some(img) ==> img.wf() && img.width == width && img.height == height
                && img.pixels@ == pixels@,
    {
        let w = width as u64;
        let h = height as u64;
        assert(w * h <= u32::MAX as u64 * u32::MAX as u64) by (nonlinear_arith)
            requires w <= u32::MAX, h <= u32::MAX;
        let area: u64 = w * h;
        if area > u64::MAX / 4 {
            assert(pixels.len() <= usize::MAX);
            return None;
        }
        let needed: u64 = area * 4;
        if pixels.len() as u64 == needed {
            Some(RgbaRaster { width, height, pixels })
        } else {
            None
        }
    }
}

/// The part of a `width` x `height` image that a crop at (`x`, `y`) of
/// `w` x `h` keeps, as `image::imageops::crop_imm` clips it: the corner moved
/// inside the image, the size cut at the image's edges. Gives the corner and
/// the size.
pub open spec fn clipped_region(width: nat, height: nat, x: nat, y: nat, w: nat, h: nat) -> (nat, nat, nat, nat) {
    let cx = if x < width { x } else { width };
    let cy = if y < height { y } else { height };
    let cw = if w < width - cx { w } else { (width - cx) as nat };
    let ch = if h < height - cy { h } else { (height - cy) as nat };
    (cx, cy, cw, ch)
}

/// Pixel data of the `cw` x `ch` part of an image of row length `width`
/// whose corner is at (`cx`, `cy`).
pub open spec fn region_pixels(pixels: Seq<u8>, width: nat, cx: nat, cy: nat, cw: nat, ch: nat) -> Seq<u8> {
    Seq::new(
        cw * ch * 4,
        |i: int| pixels[((cy + (i / 4) / (cw as int)) * width + cx + (i / 4) % (cw as int)) * 4 + i % 4],
    )
}

/// Calls `DynamicImage::crop_imm` on the image (as an RGBA image) and takes
/// the result's pixel data. Claims the clipping of `crop_imm` and that each
/// kept pixel is the source pixel at the same place in the region.
#[verifier::external_body]
pub(crate) fn crop_rgba(image: &RgbaRaster, x: u32, y: u32, width: u32, height: u32) -> (r: RgbaRaster)
    requires
        image.wf(),
    ensures
        r.wf(),
        (r.width as nat, r.height as nat) == ({
            let c = clipped_region(image.width as nat, image.height as nat, x as nat, y as nat, width as nat, height as nat);
            (c.2, c.3)
        }),
        r.pixels@ == ({
            let c = clipped_region(image.width as nat, image.height as nat, x as nat, y as nat, width as nat, height as nat);
            region_pixels(image.pixels@, image.width as nat, c.0, c.1, c.2, c.3)
        }),
{
    let full = image::RgbaImage::from_raw(image.width, image.height, image.pixels.clone()).expect("four bytes per pixel");
    let cropped = image::DynamicImage::ImageRgba8(full).crop_imm(x, y, width, height).into_rgba8();
    RgbaRaster { width: cropped.width(), height: cropped.height(), pixels: cropped.into_raw() }
}

/// PNG file that the `image` crate writes for an RGBA image, or the text of
/// its error.
pub uninterp spec fn png_encoding(width: nat, height: nat, pixels: Seq<u8>) -> Result<Seq<u8>, Seq<char>>;

/// Calls `DynamicImage::write_to` with `ImageFormat::Png` into a byte
/// buffer, rendering an error with `to_string`. Claims only that the outcome
/// is the one named by `png_encoding`.
#[verifier::external_body]
pub(crate) fn encode_png(image: &RgbaRaster) -> (r: Result<Vec<u8>, String>)
    requires
        image.wf(),
    ensures
        match r {
            Ok(b) => png_encoding(image.width as nat, image.height as nat, image.pixels@)
                == Ok::<Seq<u8>, Seq<char>>(b@),
            Err(e) => png_encoding(image.width as nat, image.height as nat, image.pixels@)
                == Err::<Seq<u8>, Seq<char>>(e@),
        },
{
    let img = image::RgbaImage::from_raw(image.width, image.height, image.pixels.clone()).expect("four bytes per pixel");
    let mut buf = std::io::Cursor::new(Vec::new());
    match image::DynamicImage::ImageRgba8(img).write_to(&mut buf, image::ImageFormat::Png) {
        Ok(()) => Ok(buf.into_inner()),
        Err(e) => Err(e.to_string()),
    }
}

/// A decoded image as plain data: its size, its colour layout (channels per
/// pixel and bytes per pixel) and its samples as the decoder stores them,
/// row by row (16-bit and 32-bit float samples in the machine's byte order).
#[derive(Debug, Clone)]
pub struct DecodedImage {
    pub width: u32,
    pub height: u32,
    pub channel_count: u8,
    pub bytes_per_pixel: u8,
    pub samples: Vec<u8>,
}

/// Model of a decoded image.
pub struct DecodedImageView {
    pub width: nat,
    pub height: nat,
    pub channel_count: nat,
    pub bytes_per_pixel: nat,
    pub samples: Seq<u8>,
}

impl View for DecodedImage {
    type V = DecodedImageView;

    open spec fn view(&self) -> DecodedImageView {
        DecodedImageView {
            width: self.width as nat,
            height: self.height as nat,
            channel_count: self.channel_count as nat,
            bytes_per_pixel: self.bytes_per_pixel as nat,
            samples: self.samples@,
        }
    }
}

/// The colour layouts of decoded images.
#[derive(Debug, Clone, Copy, PartialEq, Eq, Structural)]
pub enum ColorKind {
    L8,
    La8,
    Rgb8,
    Rgba8,
    L16,
    La16,
    Rgb16,
    Rgba16,
    Rgb32F,
    Rgba32F,
}

/// The colour layout with the given channels and bytes per pixel, if any.
pub open spec fn spec_color_kind(channel_count: nat, bytes_per_pixel: nat) -> Option<ColorKind> {
    if channel_count == 1 && bytes_per_pixel == 1 { Some(ColorKind::L8) }
    else if channel_count == 2 && bytes_per_pixel == 2 { Some(ColorKind::La8) }
    else if channel_count == 3 && bytes_per_pixel == 3 { Some(ColorKind::Rgb8) }
    else if channel_count == 4 && bytes_per_pixel == 4 { Some(ColorKind::Rgba8) }
    else if channel_count == 1 && bytes_per_pixel == 2 { Some(ColorKind::L16) }
    else if channel_count == 2 && bytes_per_pixel == 4 { Some(ColorKind::La16) }
    else if channel_count == 3 && bytes_per_pixel == 6 { Some(ColorKind::Rgb16) }
    else if channel_count == 4 && bytes_per_pixel == 8 { Some(ColorKind::Rgba16) }
    else if channel_count == 3 && bytes_per_pixel == 12 { Some(ColorKind::Rgb32F) }
    else if channel_count == 4 && bytes_per_pixel == 16 { Some(ColorKind::Rgba32F) }
    else { None }
}

impl DecodedImage {
    /// The colour layout of the image: 8-bit, 16-bit or 32-bit float samples,
    /// with 1 to 4 channels; `None` for a layout outside these.
    pub fn color_kind(&self) -> (r: Option<ColorKind>)
        ensures
            r == spec_color_kind(self.channel_count as nat, self.bytes_per_pixel as nat),
    {
        let c = self.channel_count;
        let b = self.bytes_per_pixel;
        if c == 1 && b == 1 { Some(ColorKind::L8) }
        else if c == 2 && b == 2 { Some(ColorKind::La8) }
        else if c == 3 && b == 3 { Some(ColorKind::Rgb8) }
        else if c == 4 && b == 4 { Some(ColorKind::Rgba8) }
        else if c == 1 && b == 2 { Some(ColorKind::L16) }
        else if c == 2 && b == 4 { Some(ColorKind::La16) }
        else if c == 3 && b == 6 { Some(ColorKind::Rgb16) }
        else if c == 4 && b == 8 { Some(ColorKind::Rgba16) }
        else if c == 3 && b == 12 { Some(ColorKind::Rgb32F) }
        else if c == 4 && b == 16 { Some(ColorKind::Rgba32F) }
        else { None }
    }
}

/// `samples` with the bytes of each sample of `width` bytes in reverse
/// order: the same samples in the other byte order.
pub open spec fn byte_swapped(samples: Seq<u8>, width: nat) -> Seq<u8> {
    Seq::new(
        samples.len(),
        |i: int| samples[(i / width as int) * width as int + (width as int - 1 - i % width as int)],
    )
}

/// `d` is the image `v` with its samples in either byte order: `v` gives
/// the samples little-endian, `d` in the order of the machine it was decoded
/// on.
pub open spec fn same_image_in_machine_order(d: DecodedImageView, v: DecodedImageView) -> bool {
    &&& d.width == v.width
    &&& d.height == v.height
    &&& d.channel_count == v.channel_count
    &&& d.bytes_per_pixel == v.bytes_per_pixel
    &&& (d.samples == v.samples || d.samples == byte_swapped(
        v.samples,
        v.bytes_per_pixel / v.channel_count,
    ))
}

/// What `image::load` with `ImageFormat::Png` makes of `bytes`: the decoded
/// image, its samples little-endian, or the text of its error.
pub uninterp spec fn png_image_decoding(bytes: Seq<u8>) -> Result<DecodedImageView, Seq<char>>;

/// What `image::load_from_memory` makes of `bytes`, guessing the format from
/// the bytes: the decoded image, its samples little-endian, or the text of
/// its error.
pub uninterp spec fn guessed_image_decoding(bytes: Seq<u8>) -> Result<DecodedImageView, Seq<char>>;

/// Calls `image::load` with `ImageFormat::Png`, taking the result's size,
/// colour layout and samples (in the machine's byte order), or the error's
/// text. Claims only that the outcome is the one named by
/// `png_image_decoding`, up to the byte order of the samples.
#[verifier::external_body]
pub(crate) fn decode_png_image(bytes: &[u8]) -> (r: Result<DecodedImage, String>)
    ensures
        match r {
            Ok(d) => png_image_decoding(bytes@) matches Ok(v) && same_image_in_machine_order(d@, v),
            Err(e) => png_image_decoding(bytes@) == Err::<DecodedImageView, Seq<char>>(e@),
        },
{
    match image::load(std::io::Cursor::new(bytes), image::ImageFormat::Png) {
        Ok(img) => Ok(DecodedImage {
            width: img.width(),
            height: img.height(),
            channel_count: img.color().channel_count(),
            bytes_per_pixel: img.color().bytes_per_pixel(),
            samples: img.as_bytes().to_vec(),
        }),
        Err(e) => Err(e.to_string()),
    }
}

/// Calls `image::load_from_memory`, taking the result's size, colour layout
/// and samples (in the machine's byte order), or the error's text. Claims
/// only that the outcome is the one named by `guessed_image_decoding`, up to
/// the byte order of the samples.
#[verifier::external_body]
pub(crate) fn decode_any_image(bytes: &[u8]) -> (r: Result<DecodedImage, String>)
    ensures
        match r {
            Ok(d) => guessed_image_decoding(bytes@) matches Ok(v) && same_image_in_machine_order(d@, v),
            Err(e) => guessed_image_decoding(bytes@) == Err::<DecodedImageView, Seq<char>>(e@),
        },
{
    match image::load_from_memory(bytes) {
        Ok(img) => Ok(DecodedImage {
            width: img.width(),
            height: img.height(),
            channel_count: img.color().channel_count(),
            bytes_per_pixel: img.color().bytes_per_pixel(),
            samples: img.as_bytes().to_vec(),
        }),
        Err(e) => Err(e.to_string()),
    }
}

} // verus!
