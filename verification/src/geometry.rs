//! Screen geometry: logical window coordinates, capture-resolution pixel
//! coordinates, and the conversions between the two.

use vstd::prelude::*;

verus! {

/// Capture pixels per logical screen unit on the displays this was built for.
pub const DEFAULT_RESOLUTION_SCALE: u32 = 2;

/// A location in frame pixel coordinates (top-left corner of a match).
#[derive(Clone, Copy, Debug, PartialEq, Eq, Structural)]
pub struct Point {
    pub x: i32,
    pub y: i32,
}

/// Pixel dimensions of a template image.
#[derive(Clone, Copy, Debug, PartialEq, Eq, Structural)]
pub struct Size {
    pub width: u32,
    pub height: u32,
}

/// A rectangle in capture-resolution pixels.
#[derive(Clone, Copy, Debug, PartialEq, Eq, Structural)]
pub struct CaptureRect {
    pub x: u32,
    pub y: u32,
    pub width: u32,
    pub height: u32,
}

/// A click target in logical screen coordinates.
#[derive(Clone, Copy, Debug, PartialEq, Eq, Structural)]
pub struct ScreenPoint {
    pub x: u64,
    pub y: u64,
}

/// The target window in logical screen coordinates, with the number of
/// capture pixels per logical unit.
#[derive(Clone, Copy, Debug, PartialEq, Eq, Structural)]
pub struct WindowBounds {
    pub x: u32,
    pub y: u32,
    pub width: u32,
    pub height: u32,
    pub resolution_scale: u32,
}

/// A pixel measure brought back to logical units: negative measures count
/// as zero, the rest is divided by the scale, rounding down.
pub open spec fn logical(pixels: int, scale: int) -> int {
    if pixels <= 0 {
        0
    } else {
        pixels / scale
    }
}

/// One axis of a click target: the window's offset, plus the match location
/// in logical units, plus half of the template's logical extent.
pub open spec fn click_axis(origin: int, pixel: int, extent: int, scale: int) -> int {
    origin + logical(pixel, scale) + logical(extent, scale) / 2
}

fn to_logical(pixels: u64, scale: u32) -> (r: u64)
    requires
        scale >= 1,
    ensures
        r == logical(pixels as int, scale as int),
        r <= pixels,
{
    let s: u64 = scale as u64;
    let r: u64 = pixels / s;
    proof {
        assert(pixels as int / s as int <= pixels as int) by (nonlinear_arith)
            requires
                pixels >= 0,
                s >= 1,
        ;
    }
    r
}

impl WindowBounds {
    /// A scale of zero would make every conversion meaningless.
    pub open spec fn well_formed(&self) -> bool {
        self.resolution_scale >= 1
    }

    /// Bounds at the default resolution scale.
    pub fn new(x: u32, y: u32, width: u32, height: u32) -> (r: WindowBounds)
        ensures
            r == (WindowBounds { x, y, width, height, resolution_scale: DEFAULT_RESOLUTION_SCALE }),
            r.well_formed(),
    {
        WindowBounds { x, y, width, height, resolution_scale: DEFAULT_RESOLUTION_SCALE }
    }

    /// Bounds at a chosen resolution scale; a scale of zero is refused.
    pub fn with_scale(x: u32, y: u32, width: u32, height: u32, resolution_scale: u32) -> (r: Option<
        WindowBounds,
    >)
        ensures
            resolution_scale == 0 ==> r.is_none(),
            resolution_scale >= 1 ==> r == Some(
                (WindowBounds { x, y, width, height, resolution_scale }),
            ),
            r.is_some() ==> r.unwrap().well_formed(),
    {
        if resolution_scale == 0 {
            None
        } else {
            Some(WindowBounds { x, y, width, height, resolution_scale })
        }
    }

    /// Whether the window's rectangle, scaled to capture pixels, still fits
    /// the 32-bit coordinates of a capture.
    pub open spec fn capturable(&self) -> bool {
        &&& self.x * self.resolution_scale <= u32::MAX
        &&& self.y * self.resolution_scale <= u32::MAX
        &&& self.width * self.resolution_scale <= u32::MAX
        &&& self.height * self.resolution_scale <= u32::MAX
    }

    /// The window's rectangle in capture pixels: every logical measure
    /// multiplied by the resolution scale.
    pub open spec fn capture_rect_spec(&self) -> CaptureRect {
        CaptureRect {
            x: (self.x * self.resolution_scale) as u32,
            y: (self.y * self.resolution_scale) as u32,
            width: (self.width * self.resolution_scale) as u32,
            height: (self.height * self.resolution_scale) as u32,
        }
    }

    /// The rectangle to crop from a full-screen capture, or `None` when a
    /// scaled measure does not fit 32 bits.
    pub fn capture_rect(&self) -> (r: Option<CaptureRect>)
        ensures
            r.is_some() <==> self.capturable(),
            self.capturable() ==> r == Some(self.capture_rect_spec()),
            r.is_some() ==> r.unwrap().x == self.x * self.resolution_scale && r.unwrap().y
                == self.y * self.resolution_scale && r.unwrap().width == self.width
                * self.resolution_scale && r.unwrap().height == self.height
                * self.resolution_scale,
    {
        let s: u32 = self.resolution_scale;
        match (self.x.checked_mul(s), self.y.checked_mul(s), self.width.checked_mul(s), self.height.checked_mul(s)) {
            (Some(x), Some(y), Some(width), Some(height)) => Some(
                CaptureRect { x, y, width, height },
            ),
            _ => None,
        }
    }

    /// Where to click for a template of size `template` matched in a frame
    /// of this window at pixel `location`.
    pub open spec fn click_target_spec(&self, location: Point, template: Size) -> ScreenPoint {
        ScreenPoint {
            x: click_axis(
                self.x as int,
                location.x as int,
                template.width as int,
                self.resolution_scale as int,
            ) as u64,
            y: click_axis(
                self.y as int,
                location.y as int,
                template.height as int,
                self.resolution_scale as int,
            ) as u64,
        }
    }

    /// The screen coordinate of the centre of a matched template: the match
    /// location divided by the resolution scale, plus the window's offset,
    /// plus half of the template's logical size.
    pub fn click_target(&self, location: Point, template: Size) -> (r: ScreenPoint)
        requires
            self.well_formed(),
        ensures
            r == self.click_target_spec(location, template),
            r.x == click_axis(
                self.x as int,
                location.x as int,
                template.width as int,
                self.resolution_scale as int,
            ),
            r.y == click_axis(
                self.y as int,
                location.y as int,
                template.height as int,
                self.resolution_scale as int,
            ),
    {
        let s: u32 = self.resolution_scale;
        let px: u64 = if location.x <= 0 { 0 } else { location.x as u64 };
        let py: u64 = if location.y <= 0 { 0 } else { location.y as u64 };
        let lx: u64 = to_logical(px, s);
        let ly: u64 = to_logical(py, s);
        let hw: u64 = to_logical(template.width as u64, s) / 2;
        let hh: u64 = to_logical(template.height as u64, s) / 2;
        ScreenPoint { x: self.x as u64 + lx + hw, y: self.y as u64 + ly + hh }
    }
}

/// At two capture pixels per logical unit, a match at a non-negative pixel
/// location lands on the window offset plus half the location plus half of
/// the template's halved size.
pub proof fn click_target_at_double_density(bounds: WindowBounds, location: Point, template: Size)
    requires
        bounds.resolution_scale == 2,
        location.x >= 0,
        location.y >= 0,
    ensures
        bounds.click_target_spec(location, template).x == bounds.x + location.x / 2 + (
        template.width / 2) / 2,
        bounds.click_target_spec(location, template).y == bounds.y + location.y / 2 + (
        template.height / 2) / 2,
{
}

/// Scaling a logical measure up to capture pixels and back gives the
/// measure again.
pub proof fn logical_inverts_scaling(measure: int, scale: int)
    requires
        measure >= 0,
        scale >= 1,
    ensures
        logical(measure * scale, scale) == measure,
{
    assert(measure * scale >= 0) by (nonlinear_arith)
        requires
            measure >= 0,
            scale >= 1,
    ;
    assert((measure * scale) / scale == measure) by (nonlinear_arith)
        requires
            scale >= 1,
    ;
}

/// A point of the window at logical offset `inside` shows at pixel
/// `inside * scale` of the frame; clicking a match there leads back to the
/// point, shifted by half of the template's logical extent.
pub proof fn click_returns_to_the_point(origin: int, inside: int, extent: int, scale: int)
    requires
        inside >= 0,
        scale >= 1,
    ensures
        click_axis(origin, inside * scale, extent, scale) == origin + inside + logical(
            extent,
            scale,
        ) / 2,
{
    logical_inverts_scaling(inside, scale);
}

/// A template matched at the very corner of the frame is clicked inside the
/// window: the target is never left of or above the window's offset.
pub proof fn click_target_inside_offset(bounds: WindowBounds, location: Point, template: Size)
    requires
        bounds.well_formed(),
    ensures
        bounds.click_target_spec(location, template).x >= bounds.x,
        bounds.click_target_spec(location, template).y >= bounds.y,
{
    let s = bounds.resolution_scale as int;
    assert forall|p: int| #![auto] logical(p, s) >= 0 && (p <= u32::MAX ==> logical(p, s) <= u32::MAX) by {
        if p > 0 {
            assert(0 <= p / s <= p) by (nonlinear_arith)
                requires
                    p > 0,
                    s >= 1,
            ;
        }
    }
}

} // verus!
