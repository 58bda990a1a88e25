//! Resampling a raster to another size.

use vstd::prelude::*;
use crate::raster::Raster;

verus! {

/// Whether the resampler's working buffers fit in memory when a source of
/// width `source_width` is brought to `width` by `height`. It first brings
/// the source to the new height, in four 4-byte samples per pixel, and then
/// to the new width, in four 1-byte samples per pixel.
pub open spec fn resampling_fits(source_width: int, width: int, height: int) -> bool {
    &&& 16 * source_width * height <= isize::MAX
    &&& 4 * width * height <= isize::MAX
}

/// Decides `resampling_fits`.
pub fn can_resample(source_width: u32, width: u32, height: u32) -> (r: bool)
    ensures
        r == resampling_fits(source_width as int, width as int, height as int),
{
    proof {
        assert(source_width as int * height as int <= 0xffff_ffff * 0xffff_ffff)
            by (nonlinear_arith)
            requires
                0 <= source_width as int <= 0xffff_ffff,
                0 <= height as int <= 0xffff_ffff,
        ;
        assert(width as int * height as int <= 0xffff_ffff * 0xffff_ffff) by (nonlinear_arith)
            requires
                0 <= width as int <= 0xffff_ffff,
                0 <= height as int <= 0xffff_ffff,
        ;
        assert(16 * source_width * height == 16 * (source_width as int * height as int))
            by (nonlinear_arith);
        assert(4 * width * height == 4 * (width as int * height as int)) by (nonlinear_arith);
    }
    let working: u64 = source_width as u64 * height as u64;
    let result: u64 = width as u64 * height as u64;
    let limit: u64 = isize::MAX as u64;
    working <= limit / 16 && result <= limit / 4
}

/// Calls `image::imageops::resize` with the Lanczos filter of window 3.
///
/// Taken on trust: the result has exactly the size asked for, and where that
/// is the size of the source the result is a copy of it. What the filter
/// makes of the pixels otherwise is left open. The precondition keeps the
/// buffers that the call allocates within what a vector can hold.
#[verifier::external_body]
pub(crate) fn resample(source: &Raster, width: u32, height: u32) -> (r: Raster)
    requires
        source.wf(),
        resampling_fits(source.spec_width() as int, width as int, height as int),
    ensures
        r.wf(),
        r.spec_width() == width,
        r.spec_height() == height,
        source.spec_width() == width && source.spec_height() == height ==> r@ == source@,
{
    let view = image::ImageBuffer::<image::Rgba<u8>, &[u8]>::from_raw(
        source.width,
        source.height,
        source.data.as_slice(),
    ).unwrap();
    let resized = image::imageops::resize(
        &view,
        width,
        height,
        image::imageops::FilterType::Lanczos3,
    );
    Raster { width: resized.width(), height: resized.height(), data: resized.into_raw() }
}

} // verus!
