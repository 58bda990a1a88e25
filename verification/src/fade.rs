//! The fade: the source with its opacity scaled.

use vstd::prelude::*;
use crate::raster::Pixel;
use crate::raster::Raster;
use crate::tables::ByteMap;

verus! {

/// A pixel with its opacity sent through `opacity` and its colours kept.
pub open spec fn faded(p: Pixel, opacity: &ByteMap) -> Pixel {
    Pixel { red: p.red, green: p.green, blue: p.blue, alpha: opacity.apply(p.alpha) }
}

/// Whether `out` is `source` faded by `opacity`.
pub open spec fn shows_faded(out: &Raster, source: &Raster, opacity: &ByteMap) -> bool {
    &&& out.wf()
    &&& out.spec_width() == source.spec_width()
    &&& out.spec_height() == source.spec_height()
    &&& forall|x: int, y: int|
        out.contains(x, y) ==> #[trigger] out.pixel(x, y) == faded(source.pixel(x, y), opacity)
}

/// Draws the fade of `source` on a fresh canvas of the same size.
pub fn draw_fade(source: &Raster, opacity: &ByteMap) -> (out: Raster)
    requires
        source.wf(),
    ensures
        shows_faded(&out, source, opacity),
{
    proof {
        source.lemma_view();
    }
    let width = source.width();
    let height = source.height();
    let mut out = Raster::new(width, height);
    let mut y: u32 = 0;
    while y < height
        invariant
            y <= height,
            source.wf(),
            width == source.spec_width(),
            height == source.spec_height(),
            out.wf(),
            out.spec_width() == width,
            out.spec_height() == height,
            forall|i: int, j: int|
                out.contains(i, j) && j < y ==> #[trigger] out.pixel(i, j) == faded(
                    source.pixel(i, j),
                    opacity,
                ),
        decreases height - y,
    {
        let mut x: u32 = 0;
        while x < width
            invariant
                x <= width,
                y < height,
                source.wf(),
                width == source.spec_width(),
                height == source.spec_height(),
                out.wf(),
                out.spec_width() == width,
                out.spec_height() == height,
                forall|i: int, j: int|
                    out.contains(i, j) && (j < y || (j == y && i < x)) ==> #[trigger] out.pixel(
                        i,
                        j,
                    ) == faded(source.pixel(i, j), opacity),
            decreases width - x,
        {
            let p = source.get_pixel(x, y);
            out.put_pixel(
                x,
                y,
                Pixel { red: p.red, green: p.green, blue: p.blue, alpha: opacity.map(p.alpha) },
            );
            x += 1;
        }
        y += 1;
    }
    out
}

/// A fade whose table sends every opacity to zero leaves nothing opaque.
pub proof fn lemma_fade_to_nothing(out: &Raster, source: &Raster, opacity: &ByteMap)
    requires
        shows_faded(out, source, opacity),
        opacity.is_constant(0),
    ensures
        forall|x: int, y: int| out.contains(x, y) ==> (#[trigger] out.pixel(x, y)).alpha == 0,
{
    assert forall|x: int, y: int| out.contains(x, y) implies (#[trigger] out.pixel(x, y)).alpha
        == 0 by {
        assert(opacity.apply(source.pixel(x, y).alpha) == 0);
    }
}

/// A fade whose table changes no opacity gives the source back.
pub proof fn lemma_fade_in_full(out: &Raster, source: &Raster, opacity: &ByteMap)
    requires
        source.wf(),
        shows_faded(out, source, opacity),
        opacity.is_identity(),
    ensures
        out@ == source@,
{
    assert forall|x: int, y: int| out.contains(x, y) implies #[trigger] out.pixel(x, y)
        == source.pixel(x, y) by {
        assert(opacity.apply(source.pixel(x, y).alpha) == source.pixel(x, y).alpha);
    }
    out.lemma_same_pixels(source);
}

} // verus!
