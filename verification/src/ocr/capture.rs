//! Choice of the monitor that holds a screen region, and encoding of the
//! captured region as a base64 PNG.
use vstd::prelude::*;

use crate::base64_text::{base64_encoding, encode_base64};
use crate::errors::AppError;
use crate::raster::{clipped_region, crop_rgba, encode_png, png_encoding, region_pixels, RgbaRaster};

verus! {

/// Position and size of a monitor, in screen coordinates.
#[derive(Debug, Clone, Copy)]
pub struct MonitorArea {
    pub x: i32,
    pub y: i32,
    pub width: u32,
    pub height: u32,
}

/// `v` lies in the range of `i32`.
pub open spec fn fits_i32(v: int) -> bool {
    i32::MIN <= v <= i32::MAX
}

/// The region at (`x`, `y`) of `w` x `h` pixels lies on monitor `m`. Sizes
/// are taken as `i32` (a size above `i32::MAX` wraps to a negative one), as
/// the capture compares them.
pub open spec fn region_on_monitor(m: MonitorArea, x: i32, y: i32, w: u32, h: u32) -> bool {
    &&& x >= m.x
    &&& y >= m.y
    &&& x + (w as i32) <= m.x + (m.width as i32)
    &&& y + (h as i32) <= m.y + (m.height as i32)
}

/// Testing whether the region lies on monitor `m` adds only `i32` values
/// whose sums fit in `i32`: the sums are formed only once the corner is known
/// to be past the monitor's corner, the vertical ones only once the
/// horizontal test passed.
pub open spec fn probe_fits(m: MonitorArea, x: i32, y: i32, w: u32, h: u32) -> bool {
    (x >= m.x && y >= m.y) ==> {
        &&& fits_i32(x + (w as i32))
        &&& fits_i32(m.x + (m.width as i32))
        &&& (x + (w as i32) <= m.x + (m.width as i32)) ==> {
            &&& fits_i32(y + (h as i32))
            &&& fits_i32(m.y + (m.height as i32))
        }
    }
}

/// The search for the monitor that holds the region, and the conversion of
/// the region's corner to that monitor, stay within `i32`: every monitor up
/// to the first that holds the region is tested without overflow, and the
/// corner's offset on that monitor fits in `i32`.
pub open spec fn capture_arithmetic_fits(monitors: Seq<MonitorArea>, x: i32, y: i32, w: u32, h: u32) -> bool {
    forall|i: int|
        0 <= i < monitors.len() && (forall|j: int| 0 <= j < i ==> !region_on_monitor(#[trigger] monitors[j], x, y, w, h))
            ==> {
            &&& probe_fits(#[trigger] monitors[i], x, y, w, h)
            &&& region_on_monitor(monitors[i], x, y, w, h) ==> fits_i32(x - monitors[i].x) && fits_i32(
                y - monitors[i].y,
            )
        }
}

/// Whether locating the region on `monitors` stays within `i32` (the
/// condition `locate_region` requires).
pub fn capture_arithmetic_is_safe(monitors: &Vec<MonitorArea>, x: i32, y: i32, width: u32, height: u32) -> (r: bool)
    ensures
        r == capture_arithmetic_fits(monitors@, x, y, width, height),
{
    let w = (width as i32) as i64;
    let h = (height as i32) as i64;
    let xx = x as i64;
    let yy = y as i64;
    let mut i: usize = 0;
    while i < monitors.len()
        invariant
            i <= monitors.len(),
            w == (width as i32),
            h == (height as i32),
            xx == x,
            yy == y,
            forall|j: int| 0 <= j < i ==> !region_on_monitor(#[trigger] monitors@[j], x, y, width, height),
            forall|k: int|
                0 <= k < i && (forall|j: int| 0 <= j < k ==> !region_on_monitor(#[trigger] monitors@[j], x, y, width, height))
                    ==> {
                    &&& probe_fits(#[trigger] monitors@[k], x, y, width, height)
                    &&& region_on_monitor(monitors@[k], x, y, width, height) ==> fits_i32(x - monitors@[k].x)
                        && fits_i32(y - monitors@[k].y)
                },
        decreases monitors.len() - i,
    {
        let m = monitors[i];
        let mx = m.x as i64;
        let my = m.y as i64;
        let mw = (m.width as i32) as i64;
        let mh = (m.height as i32) as i64;
        let min = i32::MIN as i64;
        let max = i32::MAX as i64;
        if xx >= mx && yy >= my {
            if xx + w < min || xx + w > max || mx + mw < min || mx + mw > max {
                assert(!probe_fits(monitors@[i as int], x, y, width, height));
                return false;
            }
            if xx + w <= mx + mw {
                if yy + h < min || yy + h > max || my + mh < min || my + mh > max {
                    assert(!probe_fits(monitors@[i as int], x, y, width, height));
                    return false;
                }
                if yy + h <= my + mh {
                    if xx - mx > max || yy - my > max {
                        return false;
                    }
                    proof {
                        assert forall|k: int|
                            0 <= k < monitors@.len() && (forall|j: int|
                                0 <= j < k ==> !region_on_monitor(#[trigger] monitors@[j], x, y, width, height)) implies {
                            &&& probe_fits(#[trigger] monitors@[k], x, y, width, height)
                            &&& region_on_monitor(monitors@[k], x, y, width, height) ==> fits_i32(x - monitors@[k].x)
                                && fits_i32(y - monitors@[k].y)
                        } by {
                            if k > i {
                                assert(region_on_monitor(monitors@[i as int], x, y, width, height));
                            }
                        }
                    }
                    return true;
                }
            }
        }
        i = i + 1;
    }
    true
}

/// Position of the first monitor that holds the region, if any.
pub fn find_monitor(monitors: &Vec<MonitorArea>, x: i32, y: i32, width: u32, height: u32) -> (r: Option<usize>)
    requires
        capture_arithmetic_fits(monitors@, x, y, width, height),
    ensures
        match r {
            Some(i) => {
                &&& i < monitors.len()
                &&& region_on_monitor(monitors@[i as int], x, y, width, height)
                &&& forall|j: int| 0 <= j < i ==> !region_on_monitor(#[trigger] monitors@[j], x, y, width, height)
            },
            None => forall|j: int|
                0 <= j < monitors.len() ==> !region_on_monitor(#[trigger] monitors@[j], x, y, width, height),
        },
{
    let mut i: usize = 0;
    while i < monitors.len()
        invariant
            capture_arithmetic_fits(monitors@, x, y, width, height),
            i <= monitors.len(),
            forall|j: int| 0 <= j < i ==> !region_on_monitor(#[trigger] monitors@[j], x, y, width, height),
        decreases monitors.len() - i,
    {
        let m = monitors[i];
        assert(probe_fits(monitors@[i as int], x, y, width, height));
        let mx = m.x;
        let my = m.y;
        let mw = m.width as i32;
        let mh = m.height as i32;
        if x >= mx && y >= my && (x + width as i32) <= (mx + mw) && (y + height as i32) <= (my + mh) {
            return Some(i);
        }
        i = i + 1;
    }
    None
}

/// Where a screen region lies: on which monitor, and the region's corner in
/// that monitor's coordinates.
#[derive(Debug, Clone, Copy)]
pub struct RegionOnMonitor {
    pub monitor: usize,
    pub local_x: u32,
    pub local_y: u32,
}

/// Finds the first monitor that holds the region and the region's corner on
/// it; fails with a screen-capture error when no monitor holds it.
pub fn locate_region(monitors: &Vec<MonitorArea>, x: i32, y: i32, width: u32, height: u32) -> (r: Result<
    RegionOnMonitor,
    AppError,
>)
    requires
        capture_arithmetic_fits(monitors@, x, y, width, height),
    ensures
        match r {
            Ok(loc) => {
                &&& loc.monitor < monitors.len()
                &&& region_on_monitor(monitors@[loc.monitor as int], x, y, width, height)
                &&& forall|j: int|
                    0 <= j < loc.monitor ==> !region_on_monitor(#[trigger] monitors@[j], x, y, width, height)
                &&& loc.local_x == x - monitors@[loc.monitor as int].x
                &&& loc.local_y == y - monitors@[loc.monitor as int].y
            },
            Err(e) => {
                &&& e matches AppError::ScreenCapture(m) && m@ == "No monitor found for the given region."@
                &&& forall|j: int|
                    0 <= j < monitors.len() ==> !region_on_monitor(#[trigger] monitors@[j], x, y, width, height)
            },
        },
{
    match find_monitor(monitors, x, y, width, height) {
        Some(i) => {
            let m = monitors[i];
            assert(fits_i32(x - m.x) && fits_i32(y - m.y));
            let dx = x - m.x;
            let dy = y - m.y;
            Ok(RegionOnMonitor { monitor: i, local_x: dx as u32, local_y: dy as u32 })
        },
        None => Err(AppError::ScreenCapture(String::from_str("No monitor found for the given region."))),
    }
}

/// What encoding the region of an image as PNG gives: the PNG file of the
/// cropped region, or the text of the PNG encoder's error.
pub open spec fn spec_region_png(
    width: nat,
    height: nat,
    pixels: Seq<u8>,
    x: nat,
    y: nat,
    w: nat,
    h: nat,
) -> Result<Seq<u8>, Seq<char>> {
    let c = clipped_region(width, height, x, y, w, h);
    png_encoding(c.2, c.3, region_pixels(pixels, width, c.0, c.1, c.2, c.3))
}

/// Sample `c` of the pixel at column `col` and row `row` of RGBA data whose
/// rows are `row_len` pixels long.
pub open spec fn rgba_at(pixels: Seq<u8>, row_len: int, col: int, row: int, c: int) -> u8 {
    pixels[(row * row_len + col) * 4 + c]
}

/// `out` is what encoding as PNG gives for a `cw` x `ch` image whose pixel
/// at column `i`, row `j` is the source pixel at column `cx + i`, row
/// `cy + j` of the `width` x `height` RGBA data `pixels`, where (`cx`, `cy`)
/// is the corner (`x`, `y`) moved inside the image (`x` horizontal, `y`
/// vertical) and `cw` x `ch` the size `w` x `h` cut at the image's edges.
pub open spec fn encodes_pixels_at_corner(
    out: Result<Seq<u8>, Seq<char>>,
    width: nat,
    height: nat,
    pixels: Seq<u8>,
    x: nat,
    y: nat,
    w: nat,
    h: nat,
) -> bool {
    let cx: int = if x < width { x as int } else { width as int };
    let cy: int = if y < height { y as int } else { height as int };
    let cw: int = if w < width - cx { w as int } else { width - cx };
    let ch: int = if h < height - cy { h as int } else { height - cy };
    exists|sub: Seq<u8>|
        {
            &&& out == png_encoding(cw as nat, ch as nat, sub)
            &&& sub.len() == cw * ch * 4
            &&& forall|i: int, j: int, c: int|
                0 <= i < cw && 0 <= j < ch && 0 <= c < 4 ==> #[trigger] rgba_at(sub, cw, i, j, c) == rgba_at(
                    pixels,
                    width as int,
                    cx + i,
                    cy + j,
                    c,
                )
        }
}

/// What the region PNG shows: it is the PNG of the image whose pixel at
/// column `i`, row `j` is the source pixel at column `x + i`, row `y + j`
/// (the corner moved inside the image, the size cut at its edges).
pub proof fn lemma_region_png_shows_the_pixels_at_the_corner(
    width: nat,
    height: nat,
    pixels: Seq<u8>,
    x: nat,
    y: nat,
    w: nat,
    h: nat,
)
    ensures
        encodes_pixels_at_corner(spec_region_png(width, height, pixels, x, y, w, h), width, height, pixels, x, y, w, h),
{
    let cx: int = if x < width { x as int } else { width as int };
    let cy: int = if y < height { y as int } else { height as int };
    let cw: int = if w < width - cx { w as int } else { width - cx };
    let ch: int = if h < height - cy { h as int } else { height - cy };
    let c4 = clipped_region(width, height, x, y, w, h);
    assert(c4.0 == cx && c4.1 == cy && c4.2 == cw && c4.3 == ch);
    let sub = region_pixels(pixels, width, c4.0, c4.1, c4.2, c4.3);
    assert forall|i: int, j: int, c: int|
        0 <= i < cw && 0 <= j < ch && 0 <= c < 4 implies #[trigger] rgba_at(sub, cw, i, j, c) == rgba_at(
        pixels,
        width as int,
        cx + i,
        cy + j,
        c,
    ) by {
        let p = j * cw + i;
        let k = p * 4 + c;
        assert(p < cw * ch) by (nonlinear_arith)
            requires 0 <= i < cw, 0 <= j < ch, p == j * cw + i;
        assert(0 <= p) by (nonlinear_arith)
            requires 0 <= i, 0 <= j, 0 <= cw, p == j * cw + i;
        vstd::arithmetic::div_mod::lemma_fundamental_div_mod_converse(k, 4, p, c);
        vstd::arithmetic::div_mod::lemma_fundamental_div_mod_converse(p, cw, j, i);
        assert(k < cw * ch * 4);
    }
    assert(spec_region_png(width, height, pixels, x, y, w, h) == png_encoding(cw as nat, ch as nat, sub));
    assert(sub.len() == cw * ch * 4);
    assert({
        &&& spec_region_png(width, height, pixels, x, y, w, h) == png_encoding(cw as nat, ch as nat, sub)
        &&& sub.len() == cw * ch * 4
        &&& forall|i: int, j: int, c: int|
            0 <= i < cw && 0 <= j < ch && 0 <= c < 4 ==> #[trigger] rgba_at(sub, cw, i, j, c) == rgba_at(
                pixels,
                width as int,
                cx + i,
                cy + j,
                c,
            )
    });
}

/// Crops the region at (`x`, `y`) of `width` x `height` out of a captured
/// monitor image (clipped to the image) and encodes it as PNG. A PNG encoder
/// error becomes a screen-capture error with its text.
pub fn encode_region_png(image: &RgbaRaster, x: u32, y: u32, width: u32, height: u32) -> (r: Result<
    Vec<u8>,
    AppError,
>)
    requires
        image.wf(),
    ensures
        match r {
            Ok(png) => spec_region_png(
                image.width as nat,
                image.height as nat,
                image.pixels@,
                x as nat,
                y as nat,
                width as nat,
                height as nat,
            ) == Ok::<Seq<u8>, Seq<char>>(png@),
            Err(e) => e matches AppError::ScreenCapture(m) && spec_region_png(
                image.width as nat,
                image.height as nat,
                image.pixels@,
                x as nat,
                y as nat,
                width as nat,
                height as nat,
            ) == Err::<Seq<u8>, Seq<char>>(m@),
        },
        match r {
            Ok(png) => encodes_pixels_at_corner(
                Ok(png@),
                image.width as nat,
                image.height as nat,
                image.pixels@,
                x as nat,
                y as nat,
                width as nat,
                height as nat,
            ),
            Err(e) => e matches AppError::ScreenCapture(m) && encodes_pixels_at_corner(
                Err(m@),
                image.width as nat,
                image.height as nat,
                image.pixels@,
                x as nat,
                y as nat,
                width as nat,
                height as nat,
            ),
        },
{
    proof {
        lemma_region_png_shows_the_pixels_at_the_corner(
            image.width as nat,
            image.height as nat,
            image.pixels@,
            x as nat,
            y as nat,
            width as nat,
            height as nat,
        );
    }
    let cropped = crop_rgba(image, x, y, width, height);
    match encode_png(&cropped) {
        Ok(png) => Ok(png),
        Err(msg) => Err(AppError::ScreenCapture(msg)),
    }
}

/// The base64 text (standard alphabet, padded) of a PNG file. Its length,
/// four characters per started group of three bytes, must not exceed
/// `isize::MAX`.
pub fn png_to_base64(png: &Vec<u8>) -> (r: String)
    requires
        (png.len() + 2) / 3 * 4 <= isize::MAX,
    ensures
        r@ == base64_encoding(png@),
{
    encode_base64(png)
}

} // verus!
