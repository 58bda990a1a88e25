//! The vertical stretch: the three colour channels of the source, each
//! squeezed towards the middle row by its own amount, added onto a clear
//! canvas.

use vstd::prelude::*;
use crate::raster::Channel;
use crate::raster::Pixel;
use crate::raster::Raster;
use crate::tables::AxisMap;

verus! {

/// Where one colour channel samples the source: by column and by row.
#[derive(Clone, Debug, PartialEq, Eq)]
pub struct ChannelStretch {
    pub columns: AxisMap,
    pub rows: AxisMap,
}

impl ChannelStretch {
    /// Whether the stretch covers a `width` by `height` canvas and samples a
    /// source of the same size.
    pub open spec fn fits(&self, width: int, height: int) -> bool {
        &&& self.columns.wf()
        &&& self.rows.wf()
        &&& self.columns.extent() == width
        &&& self.rows.extent() == height
    }

    /// The source cell that output cell (`x`, `y`) samples, if the stretched
    /// picture reaches that cell.
    pub open spec fn sample(&self, x: int, y: int) -> Option<(int, int)> {
        match (self.columns@[x], self.rows@[y]) {
            (Some(sx), Some(sy)) => Some((sx as int, sy as int)),
            _ => None,
        }
    }

    /// Decides `fits`, given that both maps are well formed.
    pub fn covers(&self, width: u32, height: u32) -> (r: bool)
        requires
            self.columns.wf(),
            self.rows.wf(),
        ensures
            r == self.fits(width as int, height as int),
    {
        self.columns.len() == width as usize && self.rows.len() == height as usize
    }
}

/// The sum of two sample values, held at the largest value a sample can take.
pub open spec fn blend(a: int, b: int) -> int {
    if a + b > 255 {
        255
    } else {
        a + b
    }
}

/// Adding two samples never leaves the range of a sample, and below the
/// ceiling it is plain addition.
pub proof fn lemma_blend_bounded(a: int, b: int)
    requires
        0 <= a <= 255,
        0 <= b <= 255,
    ensures
        0 <= blend(a, b) <= 255,
        a <= blend(a, b),
        b <= blend(a, b),
        a + b <= 255 ==> blend(a, b) == a + b,
        a + b >= 255 ==> blend(a, b) == 255,
{
}

/// Adds two samples, saturating.
pub fn saturating_blend(a: u8, b: u8) -> (r: u8)
    ensures
        r == blend(a as int, b as int),
{
    if a > 255 - b {
        255
    } else {
        a + b
    }
}

/// What one channel pass makes of a canvas pixel: where the stretched
/// picture reaches the cell, the sampled value is added to the channel and
/// the pixel becomes opaque; elsewhere the pixel stays as it was.
pub open spec fn channel_pass_pixel(
    before: Pixel,
    source: &Raster,
    stretch: &ChannelStretch,
    channel: Channel,
    x: int,
    y: int,
) -> Pixel {
    match stretch.sample(x, y) {
        Some((sx, sy)) => {
            let sum = blend(
                before.channel(channel) as int,
                source.pixel(sx, sy).channel(channel) as int,
            );
            Pixel { alpha: 255, ..before.with_channel(channel, sum as u8) }
        },
        None => before,
    }
}

/// Adds one stretched colour channel of `source` onto `output`.
pub fn draw_v_stretch_channel(
    source: &Raster,
    output: &mut Raster,
    stretch: &ChannelStretch,
    channel: Channel,
)
    requires
        source.wf(),
        old(output).wf(),
        old(output).spec_width() == source.spec_width(),
        old(output).spec_height() == source.spec_height(),
        stretch.fits(source.spec_width() as int, source.spec_height() as int),
    ensures
        final(output).wf(),
        final(output).spec_width() == old(output).spec_width(),
        final(output).spec_height() == old(output).spec_height(),
        forall|x: int, y: int|
            old(output).contains(x, y) ==> #[trigger] final(output).pixel(x, y)
                == channel_pass_pixel(old(output).pixel(x, y), source, stretch, channel, x, y),
{
    let width = source.width();
    let height = source.height();
    let mut y: u32 = 0;
    while y < height
        invariant
            y <= height,
            source.wf(),
            width == source.spec_width(),
            height == source.spec_height(),
            stretch.fits(width as int, height as int),
            output.wf(),
            output.spec_width() == width,
            output.spec_height() == height,
            old(output).spec_width() == width,
            old(output).spec_height() == height,
            forall|i: int, j: int|
                output.contains(i, j) ==> #[trigger] output.pixel(i, j) == if j < y {
                    channel_pass_pixel(old(output).pixel(i, j), source, stretch, channel, i, j)
                } else {
                    old(output).pixel(i, j)
                },
        decreases height - y,
    {
        let row = stretch.rows.get(y);
        let mut x: u32 = 0;
        while x < width
            invariant
                x <= width,
                y < height,
                source.wf(),
                width == source.spec_width(),
                height == source.spec_height(),
                stretch.fits(width as int, height as int),
                row == stretch.rows@[y as int],
                row matches Some(sy) ==> sy < height,
                output.wf(),
                output.spec_width() == width,
                output.spec_height() == height,
                old(output).spec_width() == width,
                old(output).spec_height() == height,
                forall|i: int, j: int|
                    output.contains(i, j) ==> #[trigger] output.pixel(i, j) == if j < y || (j == y
                        && i < x) {
                        channel_pass_pixel(old(output).pixel(i, j), source, stretch, channel, i, j)
                    } else {
                        old(output).pixel(i, j)
                    },
            decreases width - x,
        {
            match (stretch.columns.get(x), row) {
                (Some(sx), Some(sy)) => {
                    let sampled = source.get_pixel(sx, sy);
                    let before = output.get_pixel(x, y);
                    let sum = saturating_blend(before.get(channel), sampled.get(channel));
                    let lit = before.set(channel, sum);
                    output.put_pixel(
                        x,
                        y,
                        Pixel { red: lit.red, green: lit.green, blue: lit.blue, alpha: 255 },
                    );
                },
                _ => {},
            }
            x += 1;
        }
        y += 1;
    }
}

/// A pixel with `value` added to each of its three colours; the opacity
/// stays.
pub open spec fn highlighted(p: Pixel, value: u8) -> Pixel {
    Pixel {
        red: blend(p.red as int, value as int) as u8,
        green: blend(p.green as int, value as int) as u8,
        blue: blend(p.blue as int, value as int) as u8,
        alpha: p.alpha,
    }
}

/// Brightens every pixel of the canvas by `value`.
pub fn add_highlight(output: &mut Raster, value: u8)
    requires
        old(output).wf(),
    ensures
        final(output).wf(),
        final(output).spec_width() == old(output).spec_width(),
        final(output).spec_height() == old(output).spec_height(),
        forall|x: int, y: int|
            old(output).contains(x, y) ==> #[trigger] final(output).pixel(x, y) == highlighted(
                old(output).pixel(x, y),
                value,
            ),
{
    let width = output.width();
    let height = output.height();
    let mut y: u32 = 0;
    while y < height
        invariant
            y <= height,
            output.wf(),
            output.spec_width() == width,
            output.spec_height() == height,
            old(output).spec_width() == width,
            old(output).spec_height() == height,
            forall|i: int, j: int|
                output.contains(i, j) ==> #[trigger] output.pixel(i, j) == if j < y {
                    highlighted(old(output).pixel(i, j), value)
                } else {
                    old(output).pixel(i, j)
                },
        decreases height - y,
    {
        let mut x: u32 = 0;
        while x < width
            invariant
                x <= width,
                y < height,
                output.wf(),
                output.spec_width() == width,
                output.spec_height() == height,
                old(output).spec_width() == width,
                old(output).spec_height() == height,
                forall|i: int, j: int|
                    output.contains(i, j) ==> #[trigger] output.pixel(i, j) == if j < y || (j == y
                        && i < x) {
                        highlighted(old(output).pixel(i, j), value)
                    } else {
                        old(output).pixel(i, j)
                    },
            decreases width - x,
        {
            let p = output.get_pixel(x, y);
            output.put_pixel(
                x,
                y,
                Pixel {
                    red: saturating_blend(p.red, value),
                    green: saturating_blend(p.green, value),
                    blue: saturating_blend(p.blue, value),
                    alpha: p.alpha,
                },
            );
            x += 1;
        }
        y += 1;
    }
}

/// The value that one stretched channel brings to output cell (`x`, `y`):
/// the sampled value, or nothing where the stretched picture does not reach.
pub open spec fn stretched_value(
    source: &Raster,
    stretch: &ChannelStretch,
    channel: Channel,
    x: int,
    y: int,
) -> int {
    match stretch.sample(x, y) {
        Some((sx, sy)) => source.pixel(sx, sy).channel(channel) as int,
        None => 0,
    }
}

/// The pixel at (`x`, `y`) of the finished vertical stretch. Each colour is
/// what its own stretch samples there, brightened by the highlight if there
/// is one; the pixel is opaque where any of the three stretches reaches it
/// and clear elsewhere.
pub open spec fn v_stretch_pixel(
    source: &Raster,
    red: &ChannelStretch,
    green: &ChannelStretch,
    blue: &ChannelStretch,
    highlight: Option<u8>,
    x: int,
    y: int,
) -> Pixel {
    let lift = match highlight {
        Some(value) => value as int,
        None => 0,
    };
    let reached = red.sample(x, y).is_some() || green.sample(x, y).is_some() || blue.sample(
        x,
        y,
    ).is_some();
    Pixel {
        red: blend(stretched_value(source, red, Channel::Red, x, y), lift) as u8,
        green: blend(stretched_value(source, green, Channel::Green, x, y), lift) as u8,
        blue: blend(stretched_value(source, blue, Channel::Blue, x, y), lift) as u8,
        alpha: if reached {
            255
        } else {
            0
        },
    }
}

/// Whether `out` is the finished vertical stretch of `source`.
pub open spec fn shows_v_stretch(
    out: &Raster,
    source: &Raster,
    red: &ChannelStretch,
    green: &ChannelStretch,
    blue: &ChannelStretch,
    highlight: Option<u8>,
) -> bool {
    &&& out.wf()
    &&& out.spec_width() == source.spec_width()
    &&& out.spec_height() == source.spec_height()
    &&& forall|x: int, y: int|
        out.contains(x, y) ==> #[trigger] out.pixel(x, y) == v_stretch_pixel(
            source,
            red,
            green,
            blue,
            highlight,
            x,
            y,
        )
}

/// Draws the vertical stretch of `source`: a clear canvas, the three channel
/// passes, and the highlight where one is given.
pub fn draw_v_stretch(
    source: &Raster,
    red: &ChannelStretch,
    green: &ChannelStretch,
    blue: &ChannelStretch,
    highlight: Option<u8>,
) -> (out: Raster)
    requires
        source.wf(),
        red.fits(source.spec_width() as int, source.spec_height() as int),
        green.fits(source.spec_width() as int, source.spec_height() as int),
        blue.fits(source.spec_width() as int, source.spec_height() as int),
    ensures
        shows_v_stretch(&out, source, red, green, blue, highlight),
{
    proof {
        source.lemma_view();
    }
    let mut out = Raster::new(source.width(), source.height());
    let ghost clear = out;
    draw_v_stretch_channel(source, &mut out, red, Channel::Red);
    let ghost after_red = out;
    draw_v_stretch_channel(source, &mut out, green, Channel::Green);
    let ghost after_green = out;
    draw_v_stretch_channel(source, &mut out, blue, Channel::Blue);
    let ghost after_blue = out;
    match highlight {
        Some(value) => {
            add_highlight(&mut out, value);
        },
        None => {},
    }
    proof {
        assert forall|x: int, y: int| out.contains(x, y) implies #[trigger] out.pixel(x, y)
            == v_stretch_pixel(source, red, green, blue, highlight, x, y) by {
            assert(clear.pixel(x, y) == Pixel::clear());
            assert(after_red.pixel(x, y) == channel_pass_pixel(
                clear.pixel(x, y),
                source,
                red,
                Channel::Red,
                x,
                y,
            ));
            assert(after_green.pixel(x, y) == channel_pass_pixel(
                after_red.pixel(x, y),
                source,
                green,
                Channel::Green,
                x,
                y,
            ));
            assert(after_blue.pixel(x, y) == channel_pass_pixel(
                after_green.pixel(x, y),
                source,
                blue,
                Channel::Blue,
                x,
                y,
            ));
        }
    }
    out
}

/// A channel pass leaves every channel within the range of a sample: the
/// channel it writes holds the saturated sum, whatever the canvas held and
/// wherever the stretch samples.
pub proof fn lemma_channel_pass_saturates(
    before: Pixel,
    source: &Raster,
    stretch: &ChannelStretch,
    channel: Channel,
    x: int,
    y: int,
)
    requires
        stretch.sample(x, y) is Some,
    ensures
        ({
            let (sx, sy) = stretch.sample(x, y).unwrap();
            let after = channel_pass_pixel(before, source, stretch, channel, x, y);
            &&& after.channel(channel) as int == blend(
                before.channel(channel) as int,
                source.pixel(sx, sy).channel(channel) as int,
            )
            &&& after.channel(channel) >= before.channel(channel)
            &&& after.channel(channel) >= source.pixel(sx, sy).channel(channel)
            &&& after.channel(channel) <= 255
            &&& after.alpha == 255
        }),
{
}

/// Each colour of the finished stretch is the saturated sum of what its
/// channel samples and the highlight: never more than a sample can hold, and
/// never less than either part.
pub proof fn lemma_v_stretch_saturates(
    source: &Raster,
    red: &ChannelStretch,
    green: &ChannelStretch,
    blue: &ChannelStretch,
    highlight: Option<u8>,
    x: int,
    y: int,
)
    ensures
        ({
            let lift = match highlight {
                Some(value) => value as int,
                None => 0,
            };
            let p = v_stretch_pixel(source, red, green, blue, highlight, x, y);
            &&& p.red as int == blend(stretched_value(source, red, Channel::Red, x, y), lift)
            &&& p.green as int == blend(stretched_value(source, green, Channel::Green, x, y), lift)
            &&& p.blue as int == blend(stretched_value(source, blue, Channel::Blue, x, y), lift)
            &&& lift <= p.red <= 255
            &&& lift <= p.green <= 255
            &&& lift <= p.blue <= 255
        }),
{
}

/// With nothing stretched and no highlight, the frame shows the colours of
/// the source, opaque.
pub proof fn lemma_unstretched_shows_source(
    out: &Raster,
    source: &Raster,
    red: &ChannelStretch,
    green: &ChannelStretch,
    blue: &ChannelStretch,
)
    requires
        shows_v_stretch(out, source, red, green, blue, None),
        red.fits(source.spec_width() as int, source.spec_height() as int),
        green.fits(source.spec_width() as int, source.spec_height() as int),
        blue.fits(source.spec_width() as int, source.spec_height() as int),
        red.columns.is_identity() && red.rows.is_identity(),
        green.columns.is_identity() && green.rows.is_identity(),
        blue.columns.is_identity() && blue.rows.is_identity(),
    ensures
        forall|x: int, y: int|
            out.contains(x, y) ==> #[trigger] out.pixel(x, y) == (Pixel {
                alpha: 255,
                ..source.pixel(x, y)
            }),
{
    assert forall|x: int, y: int| out.contains(x, y) implies #[trigger] out.pixel(x, y) == (Pixel {
        alpha: 255,
        ..source.pixel(x, y)
    }) by {
        assert(red.columns@[x] == Some(x as u32) && red.rows@[y] == Some(y as u32));
        assert(green.columns@[x] == Some(x as u32) && green.rows@[y] == Some(y as u32));
        assert(blue.columns@[x] == Some(x as u32) && blue.rows@[y] == Some(y as u32));
        assert(out.pixel(x, y) == v_stretch_pixel(source, red, green, blue, None, x, y));
    }
}

} // verus!
