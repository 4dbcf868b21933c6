//! The decision half of the rasterization pipeline.
//!
//! Turning the vector scene into pixels is done by an SVG renderer whose
//! interface runs on floating point, so the calls themselves live outside
//! this crate.  Every decision the pipeline takes, though, is made here on
//! integers: the clamping of the caller's scale factor, the target pixel
//! dimensions, the choice between the identity and an explicit scale
//! transform, and the classification of each failure.  The scale factor is
//! carried in thousandths, so `1000` means one-to-one.

use vstd::prelude::*;
use crate::geometry::spec_round_div;

verus! {

/// The smallest accepted scale factor, in thousandths: one tenth.
pub const MIN_SCALE_MILLI: u32 = 100;

/// The largest accepted scale factor, in thousandths: five.
pub const MAX_SCALE_MILLI: u32 = 5_000;

/// The widest intrinsic dimension whose five-fold enlargement still fits
/// in 32 bits of pixels.
pub const MAX_RASTER_DIM: u32 = 858_993_459;

/// What can go wrong between a vector scene and encoded pixels.  Each
/// variant is surfaced to the caller verbatim; none is retried.
#[derive(Clone, Copy, Debug, PartialEq, Eq, Structural)]
pub enum RasterError {
    /// The vector document could not be parsed into a scene tree.
    ParseFailed,
    /// The pixel buffer could not be made, as when a dimension is zero.
    BufferAllocationFailed,
    /// The finished buffer could not be encoded into the output format.
    EncodeFailed,
}

impl RasterError {
    /// A fixed description of the failure.
    pub fn message(&self) -> (r: &'static str)
        ensures
            *self is ParseFailed ==> r@ == "Failed to parse SVG"@,
            *self is BufferAllocationFailed ==> r@ == "Failed to create pixmap"@,
            *self is EncodeFailed ==> r@ == "Failed to encode PNG"@,
    {
        match self {
            RasterError::ParseFailed => "Failed to parse SVG",
            RasterError::BufferAllocationFailed => "Failed to create pixmap",
            RasterError::EncodeFailed => "Failed to encode PNG",
        }
    }
}

/// The scale factor actually applied: the caller's wish forced into
/// `[0.1, 5.0]`.
pub open spec fn spec_clamp_scale(milli: int) -> int {
    if milli < MIN_SCALE_MILLI as int {
        MIN_SCALE_MILLI as int
    } else if milli > MAX_SCALE_MILLI as int {
        MAX_SCALE_MILLI as int
    } else {
        milli
    }
}

/// Clamps a requested scale factor, in thousandths, to the accepted range.
pub fn clamp_scale_milli(milli: i64) -> (r: u32)
    ensures
        r == spec_clamp_scale(milli as int),
        MIN_SCALE_MILLI <= r <= MAX_SCALE_MILLI,
{
    if milli < MIN_SCALE_MILLI as i64 {
        MIN_SCALE_MILLI
    } else if milli > MAX_SCALE_MILLI as i64 {
        MAX_SCALE_MILLI
    } else {
        milli as u32
    }
}

/// One pixel dimension of the output: the intrinsic dimension times the
/// scale, rounded to the nearest whole pixel.
pub open spec fn spec_raster_dim(intrinsic: int, scale_milli: int) -> int {
    spec_round_div(intrinsic * scale_milli, 1000)
}

/// Everything the rendering calls need to know: the pixel buffer to make
/// and the transform to draw with.
#[derive(Clone, Copy, Debug, PartialEq, Eq, Structural)]
pub struct RasterPlan {
    /// Width of the pixel buffer.
    pub pixel_width: u32,
    /// Height of the pixel buffer.
    pub pixel_height: u32,
    /// True exactly at scale one: the renderer then draws with the
    /// identity transform instead of an explicit scale matrix.
    pub identity_transform: bool,
}

/// Plans the rasterization of a scene of the given intrinsic size at the
/// given scale: both target pixel dimensions are the intrinsic ones times
/// the scale, rounded to the nearest pixel.  A degenerate plan, one with an
/// empty axis, is refused as a buffer-allocation failure, which is what
/// allocating such a buffer would report.
pub fn plan_raster(width: u32, height: u32, scale_milli: u32) -> (r: Result<
    RasterPlan,
    RasterError,
>)
    requires
        MIN_SCALE_MILLI <= scale_milli <= MAX_SCALE_MILLI,
        width <= MAX_RASTER_DIM,
        height <= MAX_RASTER_DIM,
    ensures
        match r {
            Ok(plan) => {
                &&& plan.pixel_width == spec_raster_dim(width as int, scale_milli as int)
                &&& plan.pixel_height == spec_raster_dim(height as int, scale_milli as int)
                &&& plan.pixel_width > 0
                &&& plan.pixel_height > 0
                &&& plan.identity_transform == (scale_milli == 1000)
            },
            Err(e) => {
                &&& e is BufferAllocationFailed
                &&& (spec_raster_dim(width as int, scale_milli as int) == 0 || spec_raster_dim(
                    height as int,
                    scale_milli as int,
                ) == 0)
            },
        },
{
    proof {
        lemma_raster_dim_fits(width as int, scale_milli as int);
        lemma_raster_dim_fits(height as int, scale_milli as int);
        assert(2 * (width as int) * (scale_milli as int) == 2 * ((width as int) * (
        scale_milli as int)) && 2 * (height as int) * (scale_milli as int) == 2 * ((height as int)
            * (scale_milli as int)) && 0 <= (width as int) * (scale_milli as int) && 0 <= (
        height as int) * (scale_milli as int) && (width as int) * (scale_milli as int)
            <= 0xFFFF_FFFF * 5000 && (height as int) * (scale_milli as int) <= 0xFFFF_FFFF * 5000)
            by (nonlinear_arith)
            requires
                0 <= width <= 0xFFFF_FFFF,
                0 <= height <= 0xFFFF_FFFF,
                0 < scale_milli <= 5000,
        ;
    }
    let pw: u64 = (2 * (width as u64) * (scale_milli as u64) + 1000) / 2000;
    let ph: u64 = (2 * (height as u64) * (scale_milli as u64) + 1000) / 2000;
    if pw == 0 || ph == 0 {
        Err(RasterError::BufferAllocationFailed)
    } else {
        Ok(
            RasterPlan {
                pixel_width: pw as u32,
                pixel_height: ph as u32,
                identity_transform: scale_milli == 1000,
            },
        )
    }
}

/// A rounded target dimension fits in 32 bits whenever the intrinsic one
/// is within `MAX_RASTER_DIM` and the scale is within its range.
proof fn lemma_raster_dim_fits(intrinsic: int, scale_milli: int)
    requires
        0 <= intrinsic <= MAX_RASTER_DIM,
        MIN_SCALE_MILLI <= scale_milli <= MAX_SCALE_MILLI,
    ensures
        0 <= spec_raster_dim(intrinsic, scale_milli) <= u32::MAX,
        spec_raster_dim(intrinsic, scale_milli) == (2 * (intrinsic * scale_milli) + 1000) / 2000,
{
    assert(0 <= intrinsic * scale_milli <= MAX_RASTER_DIM as int * MAX_SCALE_MILLI as int)
        by (nonlinear_arith)
        requires
            0 <= intrinsic <= MAX_RASTER_DIM,
            0 < scale_milli <= MAX_SCALE_MILLI,
    ;
    vstd::arithmetic::div_mod::lemma_div_is_ordered(
        2 * (intrinsic * scale_milli) + 1000,
        2 * (MAX_RASTER_DIM as int * MAX_SCALE_MILLI as int) + 1000,
        2000,
    );
    vstd::arithmetic::div_mod::lemma_div_pos_is_pos(2 * (intrinsic * scale_milli) + 1000, 2000);
}

} // verus!
