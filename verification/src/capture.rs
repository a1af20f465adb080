//! The region-capture engine.
//!
//! A capture request names a monitor and a rectangle in that monitor's
//! physical pixel space. Planning validates the request against a fresh
//! monitor enumeration and fixes the output dimensions: physical size for a
//! monitor at scale factor one, otherwise the physical size divided by the
//! scale factor and rounded. Normalization then turns the raw physical
//! raster into the logical-size image, resampling only when the scale
//! factor is not one.
//!
//! Scale factors are carried in thousandths (`1000` is a factor of one),
//! so the whole pipeline works on plain integers.

use vstd::arithmetic::div_mod::{lemma_div_is_ordered, lemma_div_pos_is_pos};
use vstd::arithmetic::mul::lemma_mul_upper_bound;
use vstd::prelude::*;

verus! {

/// Why a capture request failed.
#[derive(Debug, Clone, Copy, PartialEq, Eq, Structural)]
pub enum CaptureError {
    /// The platform display service could not enumerate monitors.
    EnumerationFailed,
    /// The requested monitor index does not resolve against the current
    /// enumeration.
    MonitorNotFound,
    /// The requested rectangle is empty or lies partly outside the
    /// monitor's physical bounds; nothing is clamped or captured.
    InvalidRegion,
    /// The platform screen-capture call itself failed.
    CaptureFailed,
}

/// One physical display, as one enumeration call reported it.
///
/// Descriptors are snapshots: displays can be added or removed between
/// calls, so a descriptor must not be reused across an action boundary.
#[derive(Debug, Clone, Copy, PartialEq, Eq, Structural)]
pub struct MonitorDescriptor {
    /// Position of this enumeration entry.
    pub index: u32,
    /// Top-left corner in the global physical coordinate space.
    pub pos_x: i32,
    pub pos_y: i32,
    /// Physical size in pixels.
    pub width: u32,
    pub height: u32,
    /// Scale factor in thousandths of a logical pixel per physical pixel.
    pub scale_milli: u32,
}

/// Division of `a` by `b` rounded to the nearest integer, halves up.
pub open spec fn round_div(a: int, b: int) -> int
    recommends
        a >= 0,
        b >= 1,
{
    (2 * a + b) / (2 * b)
}

/// The logical length of `phys` physical pixels at the given scale factor.
/// A scale factor of exactly one performs no division at all.
pub open spec fn logical_dim(phys: u32, scale_milli: u32) -> int {
    if scale_milli == 1000 {
        phys as int
    } else {
        round_div(phys as int * 1000, scale_milli as int)
    }
}

impl MonitorDescriptor {
    /// A descriptor the pipeline can work with: a positive scale factor,
    /// and sizes whose logical counterparts still fit the machine.
    pub open spec fn wf(&self) -> bool {
        &&& self.scale_milli >= 1
        &&& logical_dim(self.width, self.scale_milli) <= u32::MAX
        &&& logical_dim(self.height, self.scale_milli) <= u32::MAX
        &&& 4 * ((self.width as int) * (self.height as int)) <= usize::MAX
        &&& 4 * (logical_dim(self.width, self.scale_milli) * logical_dim(
            self.height,
            self.scale_milli,
        )) <= usize::MAX
    }
}

/// A well-formed enumeration: every descriptor is usable and sits at its
/// own position.
pub open spec fn monitors_wf(s: Seq<MonitorDescriptor>) -> bool {
    forall|i: int| 0 <= i < s.len() ==> (#[trigger] s[i]).wf() && s[i].index == i
}

/// The rectangle is non-empty and lies entirely within the monitor's
/// physical bounds; the engine never clamps.
pub open spec fn region_in_bounds(
    m: MonitorDescriptor,
    x: u32,
    y: u32,
    w: u32,
    h: u32,
) -> bool {
    &&& w >= 1
    &&& h >= 1
    &&& x + w <= m.width
    &&& y + h <= m.height
}

/// A validated capture request with its output dimensions fixed.
#[derive(Debug, Clone, Copy, PartialEq, Eq, Structural)]
pub struct CapturePlan {
    /// The monitor the rectangle was validated against.
    pub monitor: u32,
    /// The requested rectangle, in physical pixels of that monitor.
    pub x: u32,
    pub y: u32,
    pub width: u32,
    pub height: u32,
    /// The monitor's scale factor in thousandths.
    pub scale_milli: u32,
    /// The dimensions of the normalized output image.
    pub out_width: u32,
    pub out_height: u32,
}

impl CapturePlan {
    pub open spec fn wf(&self) -> bool {
        &&& self.scale_milli >= 1
        &&& self.out_width == logical_dim(self.width, self.scale_milli)
        &&& self.out_height == logical_dim(self.height, self.scale_milli)
        &&& 4 * ((self.width as int) * (self.height as int)) <= usize::MAX
        &&& 4 * ((self.out_width as int) * (self.out_height as int)) <= usize::MAX
    }
}

/// The outcome planning owes for a request: exactly one error per failure
/// mode, and otherwise a plan that copies the rectangle and fixes the
/// output dimensions.
pub open spec fn spec_plan(
    monitors: Seq<MonitorDescriptor>,
    index: u32,
    x: u32,
    y: u32,
    w: u32,
    h: u32,
) -> Result<CapturePlan, CaptureError> {
    if index >= monitors.len() {
        Err(CaptureError::MonitorNotFound)
    } else if !region_in_bounds(monitors[index as int], x, y, w, h) {
        Err(CaptureError::InvalidRegion)
    } else {
        let m = monitors[index as int];
        Ok(
            (CapturePlan {
                monitor: index,
                x,
                y,
                width: w,
                height: h,
                scale_milli: m.scale_milli,
                out_width: logical_dim(w, m.scale_milli) as u32,
                out_height: logical_dim(h, m.scale_milli) as u32,
            }),
        )
    }
}

/// A shorter dimension never has a larger logical counterpart.
proof fn lemma_logical_dim_monotone(a: u32, b: u32, scale_milli: u32)
    requires
        scale_milli >= 1,
        a <= b,
    ensures
        logical_dim(a, scale_milli) <= logical_dim(b, scale_milli),
        logical_dim(a, scale_milli) >= 0,
{
    if scale_milli != 1000 {
        lemma_div_is_ordered(
            2 * (a as int * 1000) + scale_milli,
            2 * (b as int * 1000) + scale_milli,
            2 * scale_milli,
        );
        lemma_div_pos_is_pos(2 * (a as int * 1000) + scale_milli, 2 * scale_milli);
    }
}

/// Division rounded to the nearest integer, halves up.
fn round_div_u64(a: u64, b: u64) -> (r: u64)
    requires
        b >= 1,
        b <= u32::MAX,
        2 * a + b <= u64::MAX,
    ensures
        r == round_div(a as int, b as int),
{
    (2 * a + b) / (2 * b)
}

/// Validates a capture request against a fresh enumeration and fixes the
/// output dimensions of the normalized image.
///
/// An out-of-range monitor index fails with `MonitorNotFound`; a rectangle
/// that is empty or exceeds the monitor's physical bounds fails with
/// `InvalidRegion` and nothing is captured. Any other request succeeds.
pub fn plan_capture(
    monitors: &Vec<MonitorDescriptor>,
    index: u32,
    x: u32,
    y: u32,
    width: u32,
    height: u32,
) -> (r: Result<CapturePlan, CaptureError>)
    requires
        monitors_wf(monitors@),
    ensures
        r == spec_plan(monitors@, index, x, y, width, height),
        r is Ok ==> r.unwrap().wf(),
{
    if (index as usize) >= monitors.len() {
        return Err(CaptureError::MonitorNotFound);
    }
    let m = monitors[index as usize];
    if !(width >= 1 && height >= 1 && (x as u64) + (width as u64) <= (m.width as u64)
        && (y as u64) + (height as u64) <= (m.height as u64)) {
        return Err(CaptureError::InvalidRegion);
    }
    let (out_width, out_height): (u32, u32) = if m.scale_milli == 1000 {
        (width, height)
    } else {
        proof {
            lemma_logical_dim_monotone(width, m.width, m.scale_milli);
            lemma_logical_dim_monotone(height, m.height, m.scale_milli);
        }
        let ow = round_div_u64((width as u64) * 1000, m.scale_milli as u64);
        let oh = round_div_u64((height as u64) * 1000, m.scale_milli as u64);
        (ow as u32, oh as u32)
    };
    proof {
        lemma_logical_dim_monotone(width, m.width, m.scale_milli);
        lemma_logical_dim_monotone(height, m.height, m.scale_milli);
        lemma_mul_upper_bound(
            width as int,
            m.width as int,
            height as int,
            m.height as int,
        );
        lemma_mul_upper_bound(
            logical_dim(width, m.scale_milli),
            logical_dim(m.width, m.scale_milli),
            logical_dim(height, m.scale_milli),
            logical_dim(m.height, m.scale_milli),
        );
    }
    Ok(
        CapturePlan {
            monitor: index,
            x,
            y,
            width,
            height,
            scale_milli: m.scale_milli,
            out_width,
            out_height,
        },
    )
}

/// A captured raster image in RGBA8, four bytes per pixel.
#[derive(Debug, Clone, PartialEq, Eq)]
pub struct CaptureResult {
    pub width: u32,
    pub height: u32,
    pub bytes: Vec<u8>,
}

impl CaptureResult {
    pub open spec fn wf(&self) -> bool {
        self.bytes@.len() == 4 * ((self.width as int) * (self.height as int))
    }
}

/// The pixels that Lanczos resampling produces for a source raster and a
/// target size. The result depends on those arguments alone.
pub uninterp spec fn resampled(
    width: nat,
    height: nat,
    bytes: Seq<u8>,
    out_width: nat,
    out_height: nat,
) -> Seq<u8>;

/// Relies on `image::imageops::resize` with the `Lanczos3` filter: the
/// returned buffer has exactly the requested dimensions at four bytes per
/// pixel, and resampling is a pure function of the source pixels and the
/// target size.
#[verifier::external_body]
fn lanczos_resize(
    width: u32,
    height: u32,
    bytes: Vec<u8>,
    out_width: u32,
    out_height: u32,
) -> (r: Vec<u8>)
    requires
        bytes@.len() == 4 * ((width as int) * (height as int)),
        4 * ((out_width as int) * (out_height as int)) <= usize::MAX,
    ensures
        r@.len() == 4 * ((out_width as int) * (out_height as int)),
        r@ == resampled(
            width as nat,
            height as nat,
            bytes@,
            out_width as nat,
            out_height as nat,
        ),
{
    let img: image::ImageBuffer<image::Rgba<u8>, Vec<u8>> = image::ImageBuffer::from_raw(
        width,
        height,
        bytes,
    ).unwrap();
    let resized = image::imageops::resize(
        &img,
        out_width,
        out_height,
        image::imageops::FilterType::Lanczos3,
    );
    resized.into_raw()
}

/// The pixel bytes normalization owes for a plan: the raw raster itself
/// at scale factor one, the resampled raster otherwise.
pub open spec fn spec_normalized(plan: CapturePlan, raw: Seq<u8>) -> Seq<u8> {
    if plan.scale_milli == 1000 {
        raw
    } else {
        resampled(
            plan.width as nat,
            plan.height as nat,
            raw,
            plan.out_width as nat,
            plan.out_height as nat,
        )
    }
}

/// Normalizes a raw physical-space raster to the plan's logical output
/// size. At scale factor one the pixels pass through untouched; at any
/// other factor they are resampled to the rounded logical dimensions.
pub fn normalize_capture(plan: &CapturePlan, raw: Vec<u8>) -> (r: CaptureResult)
    requires
        plan.wf(),
        raw@.len() == 4 * ((plan.width as int) * (plan.height as int)),
    ensures
        r.wf(),
        r.width == plan.out_width,
        r.height == plan.out_height,
        r.bytes@ == spec_normalized(*plan, raw@),
{
    if plan.scale_milli == 1000 {
        CaptureResult { width: plan.out_width, height: plan.out_height, bytes: raw }
    } else {
        let resized = lanczos_resize(
            plan.width,
            plan.height,
            raw,
            plan.out_width,
            plan.out_height,
        );
        CaptureResult { width: plan.out_width, height: plan.out_height, bytes: resized }
    }
}

/// At scale factor one, the output dimensions equal the requested
/// rectangle's width and height exactly.
pub proof fn lemma_unit_scale_exact_dims(
    monitors: Seq<MonitorDescriptor>,
    index: u32,
    x: u32,
    y: u32,
    w: u32,
    h: u32,
)
    requires
        monitors_wf(monitors),
        index < monitors.len(),
        monitors[index as int].scale_milli == 1000,
        region_in_bounds(monitors[index as int], x, y, w, h),
    ensures
        spec_plan(monitors, index, x, y, w, h) is Ok,
        spec_plan(monitors, index, x, y, w, h).unwrap().out_width == w,
        spec_plan(monitors, index, x, y, w, h).unwrap().out_height == h,
{
}

/// At any other scale factor, the output dimensions are the rectangle's
/// width and height divided by the scale factor, rounded to the nearest
/// integer.
pub proof fn lemma_scaled_dims(
    monitors: Seq<MonitorDescriptor>,
    index: u32,
    x: u32,
    y: u32,
    w: u32,
    h: u32,
)
    requires
        monitors_wf(monitors),
        index < monitors.len(),
        monitors[index as int].scale_milli != 1000,
        region_in_bounds(monitors[index as int], x, y, w, h),
    ensures
        spec_plan(monitors, index, x, y, w, h) is Ok,
        spec_plan(monitors, index, x, y, w, h).unwrap().out_width == round_div(
            w as int * 1000,
            monitors[index as int].scale_milli as int,
        ),
        spec_plan(monitors, index, x, y, w, h).unwrap().out_height == round_div(
            h as int * 1000,
            monitors[index as int].scale_milli as int,
        ),
{
    let m = monitors[index as int];
    lemma_logical_dim_monotone(w, m.width, m.scale_milli);
    lemma_logical_dim_monotone(h, m.height, m.scale_milli);
}

/// A rectangle that lies partly or fully outside the monitor's bounds
/// always fails with `InvalidRegion` and produces no plan at all.
pub proof fn lemma_out_of_bounds_rejected(
    monitors: Seq<MonitorDescriptor>,
    index: u32,
    x: u32,
    y: u32,
    w: u32,
    h: u32,
)
    requires
        index < monitors.len(),
        !region_in_bounds(monitors[index as int], x, y, w, h),
    ensures
        spec_plan(monitors, index, x, y, w, h) == Err::<CapturePlan, CaptureError>(
            CaptureError::InvalidRegion,
        ),
{
}

} // verus!
