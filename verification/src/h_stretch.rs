//! The horizontal stretch: what is left of the picture is a thin gray line
//! across the middle of a black canvas, shrinking and fading.

use vstd::prelude::*;
use crate::raster::holdable;
use crate::raster::Pixel;
use crate::raster::Raster;
use crate::scalar::Scalar;

verus! {

/// How many rows the line reaches above and below the middle row.
pub const LINE_HALF_HEIGHT: u32 = 1;

/// The line of one frame: the columns from `x_start` up to, not including,
/// `x_end`, in the shade `gray`.
#[derive(Clone, Copy, Debug, PartialEq, Eq, Structural)]
pub struct BeamLine {
    pub x_start: u32,
    pub x_end: u32,
    pub gray: u8,
}

/// The first row of the line on a canvas of the given height.
pub open spec fn line_top(height: int) -> int {
    if height / 2 >= LINE_HALF_HEIGHT {
        height / 2 - LINE_HALF_HEIGHT
    } else {
        0
    }
}

/// The last row of the line on a canvas of the given height.
pub open spec fn line_bottom(height: int) -> int {
    if height / 2 + LINE_HALF_HEIGHT <= height - 1 {
        height / 2 + LINE_HALF_HEIGHT
    } else {
        height - 1
    }
}

/// Whether cell (`x`, `y`) of a `width` by `height` canvas lies on the line.
pub open spec fn on_line(line: BeamLine, width: int, height: int, x: int, y: int) -> bool {
    &&& line.x_start <= x < line.x_end
    &&& x < width
    &&& line_top(height) <= y <= line_bottom(height)
}

/// The line that is drawn at `progress` of the horizontal stretch: the
/// planned one while the progress is below one, and none from there on, when
/// the beam has collapsed.
pub open spec fn line_at(progress: Scalar, line: BeamLine) -> Option<BeamLine> {
    if progress.lt(Scalar::spec_one()) {
        Some(line)
    } else {
        None
    }
}

/// The pixel at (`x`, `y`) of the horizontal stretch: the line's shade,
/// opaque, on the line, and opaque black everywhere else. Without a line the
/// whole canvas is black.
pub open spec fn h_stretch_pixel(
    line: Option<BeamLine>,
    width: int,
    height: int,
    x: int,
    y: int,
) -> Pixel {
    match line {
        Some(l) => if on_line(l, width, height, x, y) {
            Pixel { red: l.gray, green: l.gray, blue: l.gray, alpha: 255 }
        } else {
            Pixel::opaque_black()
        },
        None => Pixel::opaque_black(),
    }
}

/// Whether `out` is the `width` by `height` canvas of the horizontal stretch.
pub open spec fn shows_h_stretch(out: &Raster, width: int, height: int, line: Option<BeamLine>) -> bool {
    &&& out.wf()
    &&& out.spec_width() == width
    &&& out.spec_height() == height
    &&& forall|x: int, y: int|
        out.contains(x, y) ==> #[trigger] out.pixel(x, y) == h_stretch_pixel(
            line,
            width,
            height,
            x,
            y,
        )
}

/// Draws the horizontal stretch at `progress` on a fresh `width` by `height`
/// canvas: black, with `line` on it while the progress is below one.
pub fn draw_h_stretch(width: u32, height: u32, progress: Scalar, planned: BeamLine) -> (out: Raster)
    requires
        width > 0,
        height > 0,
        holdable(width as int, height as int),
    ensures
        shows_h_stretch(&out, width as int, height as int, line_at(progress, planned)),
{
    let mut out = Raster::filled(width, height, Pixel { red: 0, green: 0, blue: 0, alpha: 255 });
    let line = if progress.less_than(Scalar::one()) {
        Some(planned)
    } else {
        None
    };
    match line {
        Some(l) => {
            let x_end: u32 = if l.x_end < width {
                l.x_end
            } else {
                width
            };
            let centre: u32 = height / 2;
            let top: u32 = if centre >= LINE_HALF_HEIGHT {
                centre - LINE_HALF_HEIGHT
            } else {
                0
            };
            let bottom: u32 = if centre + LINE_HALF_HEIGHT <= height - 1 {
                centre + LINE_HALF_HEIGHT
            } else {
                height - 1
            };
            let shade = Pixel { red: l.gray, green: l.gray, blue: l.gray, alpha: 255 };
            let mut y: u32 = top;
            while y <= bottom
                invariant
                    top <= y <= bottom + 1,
                    bottom < height,
                    line == Some(l),
                    top == line_top(height as int),
                    bottom == line_bottom(height as int),
                    x_end <= width,
                    x_end == if l.x_end < width {
                        l.x_end
                    } else {
                        width
                    },
                    shade == (Pixel { red: l.gray, green: l.gray, blue: l.gray, alpha: 255 }),
                    out.wf(),
                    out.spec_width() == width,
                    out.spec_height() == height,
                    forall|i: int, j: int|
                        out.contains(i, j) ==> #[trigger] out.pixel(i, j) == if j < y {
                            h_stretch_pixel(line, width as int, height as int, i, j)
                        } else {
                            Pixel::opaque_black()
                        },
                decreases bottom + 1 - y,
            {
                let mut x: u32 = l.x_start;
                while x < x_end
                    invariant
                        top <= y <= bottom,
                        bottom < height,
                        top == line_top(height as int),
                        bottom == line_bottom(height as int),
                        l.x_start <= x,
                        x <= x_end || x_end <= l.x_start,
                        x_end <= width,
                        x_end == if l.x_end < width {
                            l.x_end
                        } else {
                            width
                        },
                        line == Some(l),
                        shade == (Pixel { red: l.gray, green: l.gray, blue: l.gray, alpha: 255 }),
                        out.wf(),
                        out.spec_width() == width,
                        out.spec_height() == height,
                        forall|i: int, j: int|
                            out.contains(i, j) ==> #[trigger] out.pixel(i, j) == if j < y || (j
                                == y && i < x) {
                                h_stretch_pixel(line, width as int, height as int, i, j)
                            } else {
                                Pixel::opaque_black()
                            },
                    decreases x_end - x,
                {
                    out.put_pixel(x, y, shade);
                    x += 1;
                }
                y += 1;
            }
        },
        None => {},
    }
    out
}

/// From progress one on, the whole canvas is opaque black, whatever line was
/// planned.
pub proof fn lemma_collapsed_is_black(
    out: &Raster,
    width: int,
    height: int,
    progress: Scalar,
    planned: BeamLine,
)
    requires
        shows_h_stretch(out, width, height, line_at(progress, planned)),
        !progress.lt(Scalar::spec_one()),
    ensures
        out.uniform(Pixel::opaque_black()),
{
}

} // verus!
