//! The capture engine.
//!
//! A per-backend adapter acquires the native drawing surface for the
//! requested target, copies the pixels, and hands them over as a
//! [`RawFrame`]: the raw bytes together with the layout the source
//! backend produced them in (channel order, row stride, row origin).
//! This module validates the request and the frame and normalizes the
//! bytes into an [`Image`] of interleaved RGBA samples with the
//! padding removed and the rows in top-down order.
//!
//! Error policy, uniform across backends:
//! - a zero-sized target is a [`CaptureError::GeometryFailure`];
//! - a requested rectangle that does not lie fully inside the target
//!   monitor's bounds is a [`CaptureError::UnsupportedTarget`] — the
//!   request fails outright and is never clamped;
//! - a frame whose dimensions do not match the request, whose stride
//!   cannot hold a row, or whose buffer is shorter than its declared
//!   layout is a [`CaptureError::ResourceAcquisitionFailure`].
//!
//! No partial image is ever returned on failure.

use vstd::prelude::*;

use crate::error::CaptureError;
use crate::image::Image;
use crate::monitor::Monitor;
use crate::window::Window;

verus! {

/// Order of the four samples of one pixel in the source buffer.
#[derive(Clone, Copy, Debug, PartialEq, Eq, Structural)]
pub enum ChannelOrder {
    Rgba,
    Bgra,
}

/// Vertical origin of the source buffer.
#[derive(Clone, Copy, Debug, PartialEq, Eq, Structural)]
pub enum RowOrder {
    TopDown,
    BottomUp,
}

/// Pixel data as copied from a native surface, with the layout the
/// source backend produced.
pub struct RawFrame {
    /// Width in pixels.
    pub width: u32,
    /// Height in pixels.
    pub height: u32,
    /// Bytes per row, padding included.
    pub stride: u32,
    pub channel_order: ChannelOrder,
    pub row_order: RowOrder,
    pub data: Vec<u8>,
}

impl RawFrame {
    /// The declared layout is coherent: a row fits its stride and the
    /// buffer covers all rows.
    pub open spec fn consistent(self) -> bool {
        &&& 4 * self.width <= self.stride
        &&& self.stride * self.height <= self.data@.len()
    }

    /// Source row that normalized row `y` comes from.
    pub open spec fn spec_src_row(self, y: int) -> int {
        match self.row_order {
            RowOrder::TopDown => y,
            RowOrder::BottomUp => self.height - 1 - y,
        }
    }

    /// Source channel that normalized channel `c` comes from.
    pub open spec fn spec_src_channel(self, c: int) -> int {
        match self.channel_order {
            ChannelOrder::Rgba => c,
            ChannelOrder::Bgra => if c == 0 {
                2
            } else if c == 2 {
                0
            } else {
                c
            },
        }
    }

    /// Byte of the source buffer that pixel `(x, y)`, channel `c`, of
    /// the normalized image comes from.
    pub open spec fn spec_src_index(self, x: int, y: int, c: int) -> int {
        self.spec_src_row(y) * self.stride + 4 * x + self.spec_src_channel(c)
    }
}

/// Byte `c` of pixel `(x, y)` of the normalized buffer `buf` equals
/// the source byte it must come from.
pub open spec fn spec_pixel_ok(frame: RawFrame, buf: Seq<u8>, x: int, y: int, c: int) -> bool {
    buf[(y * frame.width + x) * 4 + c] == frame.data@[frame.spec_src_index(x, y, c)]
}

/// `img` is the normalization of `frame`: same dimensions, a buffer of
/// exactly `width * height * 4` bytes, and every byte drawn from the
/// source position that undoes the frame's channel order, stride
/// padding and row origin.
pub open spec fn spec_normalized(frame: RawFrame, img: Image) -> bool {
    &&& img.width == frame.width
    &&& img.height == frame.height
    &&& img.buffer@.len() == frame.width * frame.height * 4
    &&& forall|x: int, y: int, c: int|
        0 <= x < frame.width && 0 <= y < frame.height && 0 <= c < 4 ==> #[trigger] spec_pixel_ok(
            frame,
            img.buffer@,
            x,
            y,
            c,
        )
}

/// Pixel positions are ordered by row, column, channel: an earlier
/// position has a strictly smaller buffer index.
proof fn lemma_pixel_index_lt(w: int, x: int, y: int, c: int, xx: int, yy: int, cc: int)
    requires
        0 <= xx < w,
        0 <= cc < 4,
        0 <= x,
        0 <= c,
        0 <= yy,
        yy < y || (yy == y && xx < x),
    ensures
        (yy * w + xx) * 4 + cc < (y * w + x) * 4 + c,
{
    if yy < y {
        assert(yy * w + w <= y * w) by (nonlinear_arith)
            requires
                yy + 1 <= y,
                0 <= w,
        ;
    }
}

fn frame_fits(frame: &RawFrame) -> (r: bool)
    ensures
        r == frame.consistent(),
{
    let w4: u64 = 4u64 * (frame.width as u64);
    if (frame.stride as u64) < w4 {
        return false;
    }
    proof {
        assert((frame.stride as u64) * (frame.height as u64) <= 0xFFFF_FFFFu64 * 0xFFFF_FFFFu64)
            by (nonlinear_arith)
            requires
                frame.stride as u64 <= 0xFFFF_FFFFu64,
                frame.height as u64 <= 0xFFFF_FFFFu64,
        ;
    }
    let need: u64 = (frame.stride as u64) * (frame.height as u64);
    (frame.data.len() as u64) >= need
}

/// Normalizes a coherent frame into an RGBA image; an incoherent frame
/// is a resource-acquisition failure.
pub fn normalize_frame(frame: &RawFrame) -> (r: Result<Image, CaptureError>)
    ensures
        frame.consistent() ==> (r matches Ok(img) && spec_normalized(*frame, img)),
        !frame.consistent() ==> r == Err::<Image, CaptureError>(
            CaptureError::ResourceAcquisitionFailure,
        ),
{
    if !frame_fits(frame) {
        return Err(CaptureError::ResourceAcquisitionFailure);
    }
    let w: usize = frame.width as usize;
    let h: usize = frame.height as usize;
    let stride: usize = frame.stride as usize;
    let data_len: usize = frame.data.len();
    let (s0, s1, s2, s3): (usize, usize, usize, usize) = match frame.channel_order {
        ChannelOrder::Rgba => (0, 1, 2, 3),
        ChannelOrder::Bgra => (2, 1, 0, 3),
    };
    let mut buffer: Vec<u8> = Vec::new();
    let mut y: usize = 0;
    while y < h
        invariant
            frame.consistent(),
            w == frame.width,
            h == frame.height,
            stride == frame.stride,
            s0 == frame.spec_src_channel(0),
            s1 == frame.spec_src_channel(1),
            s2 == frame.spec_src_channel(2),
            s3 == frame.spec_src_channel(3),
            data_len == frame.data@.len(),
            y <= h,
            buffer@.len() == (y * w) * 4,
            forall|xx: int, yy: int, cc: int|
                0 <= xx < w && 0 <= yy < y && 0 <= cc < 4 ==> #[trigger] spec_pixel_ok(
                    *frame,
                    buffer@,
                    xx,
                    yy,
                    cc,
                ),
        decreases h - y,
    {
        let sy: usize = match frame.row_order {
            RowOrder::TopDown => y,
            RowOrder::BottomUp => h - 1 - y,
        };
        proof {
            assert(sy == frame.spec_src_row(y as int));
            assert(sy * stride + stride <= h * stride) by (nonlinear_arith)
                requires
                    sy + 1 <= h,
                    0 <= stride,
            ;
            assert(h * stride == stride * h) by (nonlinear_arith);
            assert(stride * h <= frame.data@.len());
        }
        let row_base: usize = sy * stride;
        let mut x: usize = 0;
        while x < w
            invariant
                frame.consistent(),
                w == frame.width,
                h == frame.height,
                stride == frame.stride,
                s0 == frame.spec_src_channel(0),
                s1 == frame.spec_src_channel(1),
                s2 == frame.spec_src_channel(2),
                s3 == frame.spec_src_channel(3),
                data_len == frame.data@.len(),
                y < h,
                x <= w,
                sy == frame.spec_src_row(y as int),
                row_base == sy * stride,
                row_base + stride <= frame.data@.len(),
                buffer@.len() == (y * w + x) * 4,
                forall|xx: int, yy: int, cc: int|
                    0 <= xx < w && 0 <= yy < h && 0 <= cc < 4 && (yy < y || (yy == y && xx < x))
                        ==> #[trigger] spec_pixel_ok(*frame, buffer@, xx, yy, cc),
            decreases w - x,
        {
            let base: usize = row_base + 4 * x;
            proof {
                assert(4 * x + 4 <= 4 * w);
                assert(base + 4 <= row_base + stride);
            }
            let ghost prev = buffer@;
            buffer.push(frame.data[base + s0]);
            buffer.push(frame.data[base + s1]);
            buffer.push(frame.data[base + s2]);
            buffer.push(frame.data[base + s3]);
            proof {
                assert forall|cc: int| 0 <= cc < 4 implies #[trigger] spec_pixel_ok(
                    *frame,
                    buffer@,
                    x as int,
                    y as int,
                    cc,
                ) by {
                    assert((y * w + x) * 4 + cc == prev.len() + cc);
                    assert(frame.spec_src_index(x as int, y as int, cc) == base
                        + frame.spec_src_channel(cc));
                }
                assert forall|xx: int, yy: int, cc: int|
                    0 <= xx < w && 0 <= yy < h && 0 <= cc < 4 && (yy < y || (yy == y && xx < x + 1))
                        implies #[trigger] spec_pixel_ok(*frame, buffer@, xx, yy, cc) by {
                    if yy < y || (yy == y && xx < x) {
                        lemma_pixel_index_lt(
                            w as int,
                            x as int,
                            y as int,
                            0,
                            xx,
                            yy,
                            cc,
                        );
                        assert(spec_pixel_ok(*frame, prev, xx, yy, cc));
                        assert((yy * w + xx) * 4 + cc < prev.len());
                        assert(buffer@[(yy * w + xx) * 4 + cc] == prev[(yy * w + xx) * 4 + cc]);
                    }
                }
            }
            x += 1;
        }
        proof {
            assert((y * w + w) * 4 == ((y + 1) * w) * 4) by (nonlinear_arith);
        }
        y += 1;
    }
    let img = Image { width: frame.width, height: frame.height, buffer };
    proof {
        assert(img.buffer@.len() == frame.width * frame.height * 4) by (nonlinear_arith)
            requires
                img.buffer@.len() == ((h as int) * (w as int)) * 4,
                w == frame.width,
                h == frame.height,
        ;
    }
    Ok(img)
}

/// The outcome class of a full-monitor capture request, `None` when
/// the request and the frame are acceptable.
pub open spec fn spec_screen_error(monitor: Monitor, frame: RawFrame) -> Option<CaptureError> {
    if monitor.width == 0 || monitor.height == 0 {
        Some(CaptureError::GeometryFailure)
    } else if frame.width != monitor.width || frame.height != monitor.height {
        Some(CaptureError::ResourceAcquisitionFailure)
    } else if !frame.consistent() {
        Some(CaptureError::ResourceAcquisitionFailure)
    } else {
        None
    }
}

/// Captures a monitor's full visible rectangle from the frame the
/// adapter copied for it. The image has exactly the monitor's logical
/// dimensions; a frame of any other size is rejected.
pub fn capture_screen(monitor: &Monitor, frame: &RawFrame) -> (r: Result<Image, CaptureError>)
    ensures
        match spec_screen_error(*monitor, *frame) {
            Some(e) => r == Err::<Image, CaptureError>(e),
            None => r matches Ok(img) && spec_normalized(*frame, img) && img.width
                == monitor.width && img.height == monitor.height,
        },
        r matches Ok(img) ==> img.well_formed(),
{
    if monitor.width == 0 || monitor.height == 0 {
        return Err(CaptureError::GeometryFailure);
    }
    if frame.width != monitor.width || frame.height != monitor.height {
        return Err(CaptureError::ResourceAcquisitionFailure);
    }
    normalize_frame(frame)
}

/// The outcome class of an explicit-rectangle capture request. The
/// rectangle is given relative to the monitor's origin, in logical
/// pixels, and must lie fully inside the monitor's bounds: a request
/// that reaches outside fails as unsupported rather than being
/// clamped.
pub open spec fn spec_area_error(
    monitor: Monitor,
    x: i32,
    y: i32,
    width: u32,
    height: u32,
    frame: RawFrame,
) -> Option<CaptureError> {
    if width == 0 || height == 0 {
        Some(CaptureError::GeometryFailure)
    } else if !(0 <= x && 0 <= y && x + width <= monitor.width && y + height <= monitor.height) {
        Some(CaptureError::UnsupportedTarget)
    } else if frame.width != width || frame.height != height {
        Some(CaptureError::ResourceAcquisitionFailure)
    } else if !frame.consistent() {
        Some(CaptureError::ResourceAcquisitionFailure)
    } else {
        None
    }
}

/// Captures an explicit sub-rectangle of a monitor from the frame the
/// adapter copied for it. The image has exactly the requested
/// dimensions.
pub fn capture_screen_area(
    monitor: &Monitor,
    x: i32,
    y: i32,
    width: u32,
    height: u32,
    frame: &RawFrame,
) -> (r: Result<Image, CaptureError>)
    ensures
        match spec_area_error(*monitor, x, y, width, height, *frame) {
            Some(e) => r == Err::<Image, CaptureError>(e),
            None => r matches Ok(img) && spec_normalized(*frame, img) && img.width == width
                && img.height == height,
        },
        r matches Ok(img) ==> img.well_formed(),
{
    if width == 0 || height == 0 {
        return Err(CaptureError::GeometryFailure);
    }
    if x < 0 || y < 0 {
        return Err(CaptureError::UnsupportedTarget);
    }
    if (x as i64) + (width as i64) > (monitor.width as i64) || (y as i64) + (height as i64) > (
    monitor.height as i64) {
        return Err(CaptureError::UnsupportedTarget);
    }
    if frame.width != width || frame.height != height {
        return Err(CaptureError::ResourceAcquisitionFailure);
    }
    normalize_frame(frame)
}

/// The outcome class of a window capture request.
pub open spec fn spec_window_error(window: Window, frame: RawFrame) -> Option<CaptureError> {
    if window.width == 0 || window.height == 0 {
        Some(CaptureError::GeometryFailure)
    } else if frame.width != window.width || frame.height != window.height {
        Some(CaptureError::ResourceAcquisitionFailure)
    } else if !frame.consistent() {
        Some(CaptureError::ResourceAcquisitionFailure)
    } else {
        None
    }
}

/// Captures a window's rectangle from the frame the adapter copied
/// for it. The image has exactly the window's dimensions.
pub fn capture_window(window: &Window, frame: &RawFrame) -> (r: Result<Image, CaptureError>)
    ensures
        match spec_window_error(*window, *frame) {
            Some(e) => r == Err::<Image, CaptureError>(e),
            None => r matches Ok(img) && spec_normalized(*frame, img) && img.width == window.width
                && img.height == window.height,
        },
        r matches Ok(img) ==> img.well_formed(),
{
    if window.width == 0 || window.height == 0 {
        return Err(CaptureError::GeometryFailure);
    }
    if frame.width != window.width || frame.height != window.height {
        return Err(CaptureError::ResourceAcquisitionFailure);
    }
    normalize_frame(frame)
}

/// The outcome class of an explicit virtual-desktop-rectangle capture
/// request. The rectangle is given in virtual-desktop coordinates and
/// must fit the extents of the current monitor set; a request that
/// reaches outside them fails as unsupported rather than being
/// clamped.
pub open spec fn spec_region_error(
    ms: Seq<Monitor>,
    region: crate::geometry::Rect,
    frame: RawFrame,
) -> Option<CaptureError> {
    if region.width == 0 || region.height == 0 {
        Some(CaptureError::GeometryFailure)
    } else if !crate::monitor::spec_region_in_extents(ms, region) {
        Some(CaptureError::UnsupportedTarget)
    } else if frame.width != region.width || frame.height != region.height {
        Some(CaptureError::ResourceAcquisitionFailure)
    } else if !frame.consistent() {
        Some(CaptureError::ResourceAcquisitionFailure)
    } else {
        None
    }
}

/// Captures an explicit rectangle of the virtual desktop from the
/// frame the adapter copied for it. The image has exactly the
/// requested dimensions.
pub fn capture_region(
    monitors: &Vec<Monitor>,
    region: &crate::geometry::Rect,
    frame: &RawFrame,
) -> (r: Result<Image, CaptureError>)
    ensures
        match spec_region_error(monitors@, *region, *frame) {
            Some(e) => r == Err::<Image, CaptureError>(e),
            None => r matches Ok(img) && spec_normalized(*frame, img) && img.width
                == region.width && img.height == region.height,
        },
        r matches Ok(img) ==> img.well_formed(),
{
    if region.width == 0 || region.height == 0 {
        return Err(CaptureError::GeometryFailure);
    }
    if !crate::monitor::region_in_extents(monitors, region) {
        return Err(CaptureError::UnsupportedTarget);
    }
    if frame.width != region.width || frame.height != region.height {
        return Err(CaptureError::ResourceAcquisitionFailure);
    }
    normalize_frame(frame)
}

/// A capture request: a monitor, a window, or an explicit rectangle
/// in virtual-desktop coordinates.
pub enum CaptureTarget {
    Monitor(Monitor),
    Window(Window),
    Region(crate::geometry::Rect),
}

/// Captures one target: the monitor's full rectangle, the window's
/// rectangle, or an explicit virtual-desktop rectangle checked against
/// the extents of the monitor set.
pub fn capture(target: &CaptureTarget, monitors: &Vec<Monitor>, frame: &RawFrame) -> (r: Result<
    Image,
    CaptureError,
>)
    ensures
        match *target {
            CaptureTarget::Monitor(m) => match spec_screen_error(m, *frame) {
                Some(e) => r == Err::<Image, CaptureError>(e),
                None => r matches Ok(img) && spec_normalized(*frame, img) && img.width == m.width
                    && img.height == m.height,
            },
            CaptureTarget::Window(w) => match spec_window_error(w, *frame) {
                Some(e) => r == Err::<Image, CaptureError>(e),
                None => r matches Ok(img) && spec_normalized(*frame, img) && img.width == w.width
                    && img.height == w.height,
            },
            CaptureTarget::Region(region) => match spec_region_error(monitors@, region, *frame) {
                Some(e) => r == Err::<Image, CaptureError>(e),
                None => r matches Ok(img) && spec_normalized(*frame, img) && img.width
                    == region.width && img.height == region.height,
            },
        },
        r matches Ok(img) ==> img.well_formed(),
{
    match target {
        CaptureTarget::Monitor(m) => capture_screen(m, frame),
        CaptureTarget::Window(w) => capture_window(w, frame),
        CaptureTarget::Region(region) => capture_region(monitors, region, frame),
    }
}

/// Capturing an explicit rectangle equal to a monitor's full bounds
/// and capturing that monitor directly yield images of identical
/// dimensions — both have exactly the monitor's logical dimensions.
pub proof fn lemma_full_area_capture_dims(
    monitor: Monitor,
    screen_frame: RawFrame,
    area_frame: RawFrame,
    r1: Result<Image, CaptureError>,
    r2: Result<Image, CaptureError>,
)
    requires
        match spec_screen_error(monitor, screen_frame) {
            Some(e) => r1 == Err::<Image, CaptureError>(e),
            None => r1 matches Ok(img) && img.width == monitor.width && img.height
                == monitor.height,
        },
        match spec_area_error(monitor, 0, 0, monitor.width, monitor.height, area_frame) {
            Some(e) => r2 == Err::<Image, CaptureError>(e),
            None => r2 matches Ok(img) && img.width == monitor.width && img.height
                == monitor.height,
        },
        r1 is Ok,
        r2 is Ok,
    ensures
        r1.unwrap().width == r2.unwrap().width,
        r1.unwrap().height == r2.unwrap().height,
        r1.unwrap().width == monitor.width,
        r1.unwrap().height == monitor.height,
{
}

} // verus!
