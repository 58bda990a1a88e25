//! The scale-down effect: a dimmed, resampled copy of the source in the
//! middle of a black canvas.

use vstd::prelude::*;
use crate::raster::Pixel;
use crate::raster::Raster;
use crate::resample::resample;
use crate::resample::resampling_fits;
use crate::tables::ByteMap;

verus! {

/// A pixel with its three colours sent through `dim` and its opacity kept.
pub open spec fn dimmed(p: Pixel, dim: &ByteMap) -> Pixel {
    Pixel {
        red: dim.apply(p.red),
        green: dim.apply(p.green),
        blue: dim.apply(p.blue),
        alpha: p.alpha,
    }
}

/// Where a span of `inner` cells starts when it is centred in `outer` cells.
pub open spec fn centred(outer: int, inner: int) -> int {
    (outer - inner) / 2
}

/// The pixel at (`x`, `y`) of a `width` by `height` canvas that shows
/// `scaled`, dimmed, in its middle and opaque black around it.
pub open spec fn scale_down_pixel(
    scaled: &Raster,
    width: int,
    height: int,
    dim: &ByteMap,
    x: int,
    y: int,
) -> Pixel {
    let left = centred(width, scaled.spec_width() as int);
    let top = centred(height, scaled.spec_height() as int);
    if scaled.contains(x - left, y - top) {
        dimmed(scaled.pixel(x - left, y - top), dim)
    } else {
        Pixel::opaque_black()
    }
}

/// Whether `out` is the `width` by `height` canvas that shows `scaled`.
pub open spec fn shows_scaled(
    out: &Raster,
    scaled: &Raster,
    width: int,
    height: int,
    dim: &ByteMap,
) -> bool {
    &&& out.wf()
    &&& out.spec_width() == width
    &&& out.spec_height() == height
    &&& forall|x: int, y: int|
        out.contains(x, y) ==> #[trigger] out.pixel(x, y) == scale_down_pixel(
            scaled,
            width,
            height,
            dim,
            x,
            y,
        )
}

/// Whether `out` is the scale-down of `source` to `width` by `height`: black
/// where nothing is left to show, and otherwise the canvas that shows some
/// picture of that size, which at the full size of the source is the source.
pub open spec fn shows_scale_down(
    out: &Raster,
    source: &Raster,
    width: int,
    height: int,
    dim: &ByteMap,
) -> bool {
    &&& out.wf()
    &&& out.spec_width() == source.spec_width()
    &&& out.spec_height() == source.spec_height()
    &&& width == 0 || height == 0 ==> out.uniform(Pixel::opaque_black())
    &&& width > 0 && height > 0 ==> exists|scaled: Raster|
        {
            &&& #[trigger] scaled.wf()
            &&& scaled.spec_width() == width
            &&& scaled.spec_height() == height
            &&& (width == source.spec_width() && height == source.spec_height() ==> scaled@
                == source@)
            &&& shows_scaled(
                out,
                &scaled,
                source.spec_width() as int,
                source.spec_height() as int,
                dim,
            )
        }
}

/// Dims one pixel.
pub fn dim_pixel(p: Pixel, dim: &ByteMap) -> (r: Pixel)
    ensures
        r == dimmed(p, dim),
{
    Pixel { red: dim.map(p.red), green: dim.map(p.green), blue: dim.map(p.blue), alpha: p.alpha }
}

/// Centres an already resampled picture on a black canvas and dims it.
pub fn compose_scaled(scaled: &Raster, width: u32, height: u32, dim: &ByteMap) -> (out: Raster)
    requires
        scaled.wf(),
        scaled.spec_width() <= width,
        scaled.spec_height() <= height,
        crate::raster::holdable(width as int, height as int),
    ensures
        shows_scaled(&out, scaled, width as int, height as int, dim),
{
    let mut out = Raster::filled(width, height, Pixel { red: 0, green: 0, blue: 0, alpha: 255 });
    let inner_width = scaled.width();
    let inner_height = scaled.height();
    let left: u32 = (width - inner_width) / 2;
    let top: u32 = (height - inner_height) / 2;
    let mut y: u32 = 0;
    while y < inner_height
        invariant
            y <= inner_height,
            scaled.wf(),
            inner_width == scaled.spec_width(),
            inner_height == scaled.spec_height(),
            inner_width <= width,
            inner_height <= height,
            left == centred(width as int, inner_width as int),
            top == centred(height as int, inner_height as int),
            out.wf(),
            out.spec_width() == width,
            out.spec_height() == height,
            forall|i: int, j: int|
                out.contains(i, j) ==> #[trigger] out.pixel(i, j) == if j - top < y {
                    scale_down_pixel(scaled, width as int, height as int, dim, i, j)
                } else {
                    Pixel::opaque_black()
                },
        decreases inner_height - y,
    {
        let mut x: u32 = 0;
        while x < inner_width
            invariant
                x <= inner_width,
                y < inner_height,
                scaled.wf(),
                inner_width == scaled.spec_width(),
                inner_height == scaled.spec_height(),
                inner_width <= width,
                inner_height <= height,
                left == centred(width as int, inner_width as int),
                top == centred(height as int, inner_height as int),
                out.wf(),
                out.spec_width() == width,
                out.spec_height() == height,
                forall|i: int, j: int|
                    out.contains(i, j) ==> #[trigger] out.pixel(i, j) == if j - top < y || (j
                        - top == y && i - left < x) {
                        scale_down_pixel(scaled, width as int, height as int, dim, i, j)
                    } else {
                        Pixel::opaque_black()
                    },
            decreases inner_width - x,
        {
            let p = dim_pixel(scaled.get_pixel(x, y), dim);
            out.put_pixel(x + left, y + top, p);
            x += 1;
        }
        y += 1;
    }
    out
}

/// Draws the scale-down effect: resamples `source` to `width` by `height`,
/// centres the result on a black canvas of the size of `source`, and dims it.
/// With no width or no height left there is nothing to show, and the canvas
/// stays black.
///
/// The resampled picture is what the resampler made of the source; of it the
/// contract knows the size, and that at full size it is the source itself.
pub fn draw_scale_down(source: &Raster, width: u32, height: u32, dim: &ByteMap) -> (out: Raster)
    requires
        source.wf(),
        width <= source.spec_width(),
        height <= source.spec_height(),
        width > 0 && height > 0 ==> resampling_fits(
            source.spec_width() as int,
            width as int,
            height as int,
        ),
    ensures
        shows_scale_down(&out, source, width as int, height as int, dim),
{
    proof {
        source.lemma_view();
    }
    if width > 0 && height > 0 {
        let scaled = resample(source, width, height);
        compose_scaled(&scaled, source.width(), source.height(), dim)
    } else {
        Raster::filled(
            source.width(),
            source.height(),
            Pixel { red: 0, green: 0, blue: 0, alpha: 255 },
        )
    }
}

/// Shrinking to the full size of the source with a dimming that changes no
/// value gives the source back.
pub proof fn lemma_scale_down_in_full(out: &Raster, source: &Raster, dim: &ByteMap)
    requires
        source.wf(),
        shows_scale_down(
            out,
            source,
            source.spec_width() as int,
            source.spec_height() as int,
            dim,
        ),
        dim.is_identity(),
    ensures
        out@ == source@,
{
    let width = source.spec_width() as int;
    let height = source.spec_height() as int;
    if width > 0 && height > 0 {
        let scaled = choose|scaled: Raster|
            {
                &&& #[trigger] scaled.wf()
                &&& scaled.spec_width() == width
                &&& scaled.spec_height() == height
                &&& (width == source.spec_width() && height == source.spec_height() ==> scaled@
                    == source@)
                &&& shows_scaled(out, &scaled, width, height, dim)
            };
        scaled.lemma_view();
        source.lemma_view();
        assert forall|x: int, y: int| out.contains(x, y) implies #[trigger] out.pixel(x, y)
            == source.pixel(x, y) by {
            assert(centred(width, width) == 0);
            assert(centred(height, height) == 0);
            assert(scaled.contains(x, y));
            assert(out.pixel(x, y) == scale_down_pixel(&scaled, width, height, dim, x, y));
            let p = scaled.pixel(x, y);
            assert(dim.apply(p.red) == p.red);
            assert(dim.apply(p.green) == p.green);
            assert(dim.apply(p.blue) == p.blue);
            assert(scaled.pixel(x, y) == scaled@.pixels[y * width + x]);
            assert(source.pixel(x, y) == source@.pixels[y * width + x]);
        }
    }
    out.lemma_same_pixels(source);
}

} // verus!
