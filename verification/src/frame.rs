//! Frames: the part of a full-screen capture that shows the target window,
//! as packed RGB bytes ready for the matcher.

use crate::geometry::{CaptureRect, WindowBounds};
use vstd::prelude::*;

verus! {

/// A captured region: `width * height` pixels, row by row, three bytes
/// (red, green, blue) per pixel, tagged with the screen offset of the
/// window it shows and with the time of the capture.
#[derive(Debug, PartialEq, Eq)]
pub struct Frame {
    pub width: u32,
    pub height: u32,
    pub rgb: Vec<u8>,
    pub origin_x: u32,
    pub origin_y: u32,
    pub captured_at_millis: u64,
}

#[derive(Clone, Copy, Debug, PartialEq, Eq, Structural)]
pub enum CaptureError {
    /// The window's rectangle, scaled to capture pixels, exceeds 32 bits.
    WindowTooLarge,
    /// The capture holds fewer bytes than its dimensions call for.
    BufferTooSmall,
}

impl Frame {
    pub open spec fn well_formed(&self) -> bool {
        self.rgb@.len() == 3 * self.width * self.height
    }
}

/// Where a cut that was asked to start at `start` does start in an image
/// of extent `full`: at `start`, or at the image's edge if that is nearer.
pub open spec fn crop_origin(full: int, start: int) -> int {
    if start < full {
        start
    } else {
        full
    }
}

/// How much of a wanted extent is left inside an image of extent `full`
/// when the cut starts at `start`: the extent is cut down to what remains
/// between the cut's origin and the image's edge.
pub open spec fn crop_extent(full: int, start: int, wanted: int) -> int {
    let origin = crop_origin(full, start);
    if wanted < full - origin {
        wanted
    } else {
        full - origin
    }
}

/// The bytes of a cut of `w` by `h` pixels whose corner is at `(left, top)`
/// of an RGBA image with `stride` pixels per row: pixel by pixel and row by
/// row, the red, green and blue bytes of the image, the alpha byte dropped.
pub open spec fn cut_rgb(raw: Seq<u8>, stride: int, left: int, top: int, w: int, h: int) -> Seq<
    u8,
> {
    Seq::new(
        (3 * w * h) as nat,
        |k: int| raw[4 * ((top + (k / 3) / w) * stride + left + (k / 3) % w) + k % 3],
    )
}

/// Calls `image::RgbaImage::from_raw`, `DynamicImage::crop_imm` and
/// `DynamicImage::to_rgb8`, and gives the cut's width, height and bytes.
/// The contract says what the crate's source shows: `from_raw` refuses a
/// buffer shorter than four bytes per pixel; the cut is clamped to the
/// image; every pixel of the cut is copied from the image at the same
/// place; the conversion keeps the three colour bytes of each pixel and
/// drops the fourth.
#[verifier::external_body]
fn crop_rgba(raw: Vec<u8>, width: u32, height: u32, rect: CaptureRect) -> (r: Option<
    (u32, u32, Vec<u8>),
>)
    ensures
        r.is_some() <==> 4 * width * height <= raw@.len(),
        r.is_some() ==> {
            let cut = r.unwrap();
            &&& cut.0 == crop_extent(width as int, rect.x as int, rect.width as int)
            &&& cut.1 == crop_extent(height as int, rect.y as int, rect.height as int)
            &&& cut.2@ == cut_rgb(
                raw@,
                width as int,
                crop_origin(width as int, rect.x as int),
                crop_origin(height as int, rect.y as int),
                cut.0 as int,
                cut.1 as int,
            )
            &&& cut.2@.len() == 3 * cut.0 * cut.1
        },
{
    let full = image::RgbaImage::from_raw(width, height, raw)?;
    let cut = image::DynamicImage::ImageRgba8(full).crop_imm(
        rect.x,
        rect.y,
        rect.width,
        rect.height,
    ).to_rgb8();
    Some((cut.width(), cut.height(), cut.into_raw()))
}

/// The frame that shows the window `bounds` in a full-screen RGBA capture
/// of the given dimensions and bytes.
pub open spec fn is_frame_of(
    frame: Frame,
    raw: Seq<u8>,
    width: u32,
    height: u32,
    bounds: WindowBounds,
    captured_at_millis: u64,
) -> bool {
    let rect = bounds.capture_rect_spec();
    &&& frame.width == crop_extent(width as int, rect.x as int, rect.width as int)
    &&& frame.height == crop_extent(height as int, rect.y as int, rect.height as int)
    &&& frame.rgb@ == cut_rgb(
        raw,
        width as int,
        crop_origin(width as int, rect.x as int),
        crop_origin(height as int, rect.y as int),
        frame.width as int,
        frame.height as int,
    )
    &&& frame.origin_x == bounds.x
    &&& frame.origin_y == bounds.y
    &&& frame.captured_at_millis == captured_at_millis
    &&& frame.well_formed()
}

/// Cuts the window's rectangle out of a full-screen RGBA capture taken at
/// the given time.
///
/// Fails with `WindowTooLarge` when the scaled rectangle does not fit 32
/// bits, and otherwise with `BufferTooSmall` when the capture is shorter
/// than `4 * width * height` bytes. In every other case the frame is the
/// window's capture rectangle, clamped to the capture.
pub fn crop_to_window(
    raw: Vec<u8>,
    width: u32,
    height: u32,
    bounds: &WindowBounds,
    captured_at_millis: u64,
) -> (r: Result<Frame, CaptureError>)
    ensures
        !bounds.capturable() ==> r is Err && r->Err_0 == CaptureError::WindowTooLarge,
        bounds.capturable() && 4 * width * height > raw@.len() ==> r is Err && r->Err_0
            == CaptureError::BufferTooSmall,
        bounds.capturable() && 4 * width * height <= raw@.len() ==> r is Ok && is_frame_of(
            r->Ok_0,
            raw@,
            width,
            height,
            *bounds,
            captured_at_millis,
        ),
{
    match bounds.capture_rect() {
        None => Err(CaptureError::WindowTooLarge),
        Some(rect) => match crop_rgba(raw, width, height, rect) {
            Some((cut_width, cut_height, rgb)) => Ok(
                Frame {
                    width: cut_width,
                    height: cut_height,
                    rgb,
                    origin_x: bounds.x,
                    origin_y: bounds.y,
                    captured_at_millis,
                },
            ),
            None => Err(CaptureError::BufferTooSmall),
        },
    }
}

/// A cut never reaches outside the capture, and never exceeds what was
/// asked for.
pub proof fn crop_extent_is_clamped(full: int, start: int, wanted: int)
    requires
        0 <= full,
        0 <= start,
        0 <= wanted,
    ensures
        0 <= crop_extent(full, start, wanted) <= wanted,
        crop_extent(full, start, wanted) <= full,
        start + wanted <= full ==> crop_extent(full, start, wanted) == wanted,
{
}

/// Byte `c` of the pixel in column `i` and row `j` of a cut is byte `c` of
/// the image's pixel in column `left + i` and row `top + j`.
pub proof fn cut_pixel(
    raw: Seq<u8>,
    stride: int,
    left: int,
    top: int,
    w: int,
    h: int,
    i: int,
    j: int,
    c: int,
)
    requires
        0 <= i < w,
        0 <= j < h,
        0 <= c < 3,
    ensures
        0 <= 3 * (j * w + i) + c < cut_rgb(raw, stride, left, top, w, h).len(),
        cut_rgb(raw, stride, left, top, w, h)[3 * (j * w + i) + c] == raw[4 * ((top + j) * stride
            + left + i) + c],
{
    let p = j * w + i;
    let k = 3 * p + c;
    assert(0 <= p < w * h) by (nonlinear_arith)
        requires
            p == j * w + i,
            0 <= i < w,
            0 <= j < h,
    ;
    assert(3 * w * h == 3 * (w * h)) by (nonlinear_arith);
    vstd::arithmetic::div_mod::lemma_fundamental_div_mod_converse(k, 3, p, c);
    vstd::arithmetic::div_mod::lemma_fundamental_div_mod_converse(p, w, j, i);
}

} // verus!
