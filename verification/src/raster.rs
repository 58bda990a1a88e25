//! Rasters of 8-bit RGBA pixels.

use vstd::prelude::*;

verus! {

/// One picture element: three colour channels and its opacity.
#[derive(Clone, Copy, Debug, PartialEq, Eq, Structural)]
pub struct Pixel {
    pub red: u8,
    pub green: u8,
    pub blue: u8,
    pub alpha: u8,
}

/// The three channels that carry colour.
#[derive(Clone, Copy, Debug, PartialEq, Eq, Structural)]
pub enum Channel {
    Red,
    Green,
    Blue,
}

impl Pixel {
    /// Black that hides what lies behind it.
    pub open spec fn opaque_black() -> Pixel {
        Pixel { red: 0, green: 0, blue: 0, alpha: 255 }
    }

    /// Black that shows what lies behind it: all four channels zero.
    pub open spec fn clear() -> Pixel {
        Pixel { red: 0, green: 0, blue: 0, alpha: 0 }
    }

    /// The value of one colour channel.
    pub open spec fn channel(self, c: Channel) -> u8 {
        match c {
            Channel::Red => self.red,
            Channel::Green => self.green,
            Channel::Blue => self.blue,
        }
    }

    /// This pixel with one colour channel replaced.
    pub open spec fn with_channel(self, c: Channel, value: u8) -> Pixel {
        match c {
            Channel::Red => Pixel { red: value, ..self },
            Channel::Green => Pixel { green: value, ..self },
            Channel::Blue => Pixel { blue: value, ..self },
        }
    }

    pub fn new(red: u8, green: u8, blue: u8, alpha: u8) -> (p: Pixel)
        ensures
            p == (Pixel { red, green, blue, alpha }),
    {
        Pixel { red, green, blue, alpha }
    }

    /// Reads one colour channel.
    pub fn get(self, c: Channel) -> (v: u8)
        ensures
            v == self.channel(c),
    {
        match c {
            Channel::Red => self.red,
            Channel::Green => self.green,
            Channel::Blue => self.blue,
        }
    }

    /// Replaces one colour channel.
    pub fn set(self, c: Channel, value: u8) -> (p: Pixel)
        ensures
            p == self.with_channel(c, value),
    {
        match c {
            Channel::Red => Pixel { red: value, green: self.green, blue: self.blue, alpha: self.alpha },
            Channel::Green => Pixel { red: self.red, green: value, blue: self.blue, alpha: self.alpha },
            Channel::Blue => Pixel { red: self.red, green: self.green, blue: value, alpha: self.alpha },
        }
    }
}

/// The pixel stored in four consecutive samples, red first.
pub open spec fn pack(samples: Seq<u8>, index: int) -> Pixel {
    Pixel {
        red: samples[4 * index],
        green: samples[4 * index + 1],
        blue: samples[4 * index + 2],
        alpha: samples[4 * index + 3],
    }
}

/// Whether a raster of this size can be held in memory at all.
pub open spec fn holdable(width: int, height: int) -> bool {
    4 * width * height <= usize::MAX
}

/// What a raster is: its size and its pixels, row after row from the top.
pub struct Grid {
    pub width: nat,
    pub height: nat,
    pub pixels: Seq<Pixel>,
}

/// A rectangle of pixels, stored as interleaved samples in row-major order.
#[derive(Clone, Debug, PartialEq, Eq)]
pub struct Raster {
    pub(crate) width: u32,
    pub(crate) height: u32,
    pub(crate) data: Vec<u8>,
}

impl View for Raster {
    type V = Grid;

    closed spec fn view(&self) -> Grid {
        Grid {
            width: self.width as nat,
            height: self.height as nat,
            pixels: Seq::new(
                (self.width * self.height) as nat,
                |i: int| pack(self.data@, i),
            ),
        }
    }
}

impl Raster {
    /// The store holds exactly four samples for each pixel.
    pub closed spec fn wf(&self) -> bool {
        self.data.len() == 4 * self.width * self.height
    }

    pub closed spec fn spec_width(&self) -> u32 {
        self.width
    }

    pub closed spec fn spec_height(&self) -> u32 {
        self.height
    }

    /// The raw samples.
    pub closed spec fn samples(&self) -> Seq<u8> {
        self.data@
    }

    /// Whether a coordinate lies on the raster.
    pub open spec fn contains(&self, x: int, y: int) -> bool {
        0 <= x < self.spec_width() && 0 <= y < self.spec_height()
    }

    /// The pixel in column `x` of row `y`.
    pub closed spec fn pixel(&self, x: int, y: int) -> Pixel {
        pack(self.data@, y * self.width + x)
    }

    /// Whether every pixel of the raster is `p`.
    pub open spec fn uniform(&self, p: Pixel) -> bool {
        forall|x: int, y: int| self.contains(x, y) ==> #[trigger] self.pixel(x, y) == p
    }

    /// The view lists the pixels row by row, and the samples four by pixel.
    pub proof fn lemma_view(&self)
        requires
            self.wf(),
        ensures
            self@.width == self.spec_width(),
            self@.height == self.spec_height(),
            self@.pixels.len() == self.spec_width() * self.spec_height(),
            self.samples().len() == 4 * self.spec_width() * self.spec_height(),
            holdable(self.spec_width() as int, self.spec_height() as int),
            forall|x: int, y: int|
                self.contains(x, y) ==> #[trigger] self.pixel(x, y) == self@.pixels[y
                    * self.spec_width() + x],
            forall|i: int|
                0 <= i < self.spec_width() * self.spec_height() ==> #[trigger] self@.pixels[i]
                    == pack(self.samples(), i),
    {
        assert forall|x: int, y: int| self.contains(x, y) implies #[trigger] self.pixel(x, y)
            == self@.pixels[y * self.spec_width() + x] by {
            lemma_cell_index(x, y, self.width as int, self.height as int);
        }
    }

    /// Two rasters of one size that agree pixel by pixel are the same picture.
    pub proof fn lemma_same_pixels(&self, other: &Raster)
        requires
            self.wf(),
            other.wf(),
            self.spec_width() == other.spec_width(),
            self.spec_height() == other.spec_height(),
            forall|x: int, y: int|
                self.contains(x, y) ==> #[trigger] self.pixel(x, y) == other.pixel(x, y),
        ensures
            self@ == other@,
    {
        let w = self.width as int;
        let h = self.height as int;
        assert forall|i: int| 0 <= i < w * h implies self@.pixels[i] == other@.pixels[i] by {
            lemma_cell_of_index(i, w, h);
            let x = i % w;
            let y = i / w;
            assert(self.contains(x, y));
            assert(self.pixel(x, y) == other.pixel(x, y));
        }
        assert(self@.pixels =~= other@.pixels);
    }

    #[verifier::when_used_as_spec(spec_width)]
    pub fn width(&self) -> (w: u32)
        ensures
            w == self.spec_width(),
    {
        self.width
    }

    #[verifier::when_used_as_spec(spec_height)]
    pub fn height(&self) -> (h: u32)
        ensures
            h == self.spec_height(),
    {
        self.height
    }

    /// Whether `filled` and `new` can build a raster of this size.
    pub fn can_hold(width: u32, height: u32) -> (r: bool)
        ensures
            r == holdable(width as int, height as int),
    {
        proof {
            assert(width as int * height as int <= 0xffff_ffff * 0xffff_ffff) by (nonlinear_arith)
                requires
                    0 <= width as int <= 0xffff_ffff,
                    0 <= height as int <= 0xffff_ffff,
            ;
            assert(4 * width * height == 4 * (width as int * height as int)) by (nonlinear_arith);
        }
        let cells: u64 = width as u64 * height as u64;
        cells <= (usize::MAX / 4) as u64
    }

    /// A raster in which every pixel is `pixel`.
    pub fn filled(width: u32, height: u32, pixel: Pixel) -> (r: Raster)
        requires
            holdable(width as int, height as int),
        ensures
            r.wf(),
            r.spec_width() == width,
            r.spec_height() == height,
            r.uniform(pixel),
    {
        proof {
            assert(4 * width * height == 4 * (width as int * height as int)) by (nonlinear_arith);
        }
        let cells: usize = width as usize * height as usize;
        let mut data: Vec<u8> = Vec::new();
        let mut i: usize = 0;
        while i < cells
            invariant
                i <= cells,
                4 * cells <= usize::MAX,
                data@.len() == 4 * i,
                forall|k: int| 0 <= k < i ==> #[trigger] pack(data@, k) == pixel,
            decreases cells - i,
        {
            let ghost before = data@;
            data.push(pixel.red);
            data.push(pixel.green);
            data.push(pixel.blue);
            data.push(pixel.alpha);
            proof {
                assert forall|k: int| 0 <= k < i + 1 implies #[trigger] pack(data@, k) == pixel by {
                    if k < i {
                        assert(pack(before, k) == pixel);
                    }
                }
            }
            i += 1;
        }
        let r = Raster { width, height, data };
        proof {
            assert forall|x: int, y: int| r.contains(x, y) implies #[trigger] r.pixel(x, y)
                == pixel by {
                lemma_cell_index(x, y, width as int, height as int);
            }
        }
        r
    }

    /// A raster of clear pixels.
    pub fn new(width: u32, height: u32) -> (r: Raster)
        requires
            holdable(width as int, height as int),
        ensures
            r.wf(),
            r.spec_width() == width,
            r.spec_height() == height,
            r.uniform(Pixel::clear()),
    {
        Raster::filled(width, height, Pixel { red: 0, green: 0, blue: 0, alpha: 0 })
    }

    /// Takes over a store of samples. The store must hold exactly four
    /// samples for each pixel of a `width` by `height` raster.
    pub fn from_raw(width: u32, height: u32, data: Vec<u8>) -> (r: Option<Raster>)
        ensures
            r.is_some() <==> data@.len() == 4 * width * height,
            r matches Some(raster) ==> {
                &&& raster.wf()
                &&& raster.spec_width() == width
                &&& raster.spec_height() == height
                &&& raster.samples() == data@
            },
    {
        proof {
            assert(width as int * height as int <= 0xffff_ffff * 0xffff_ffff) by (nonlinear_arith)
                requires
                    0 <= width as int <= 0xffff_ffff,
                    0 <= height as int <= 0xffff_ffff,
            ;
            assert(4 * width * height == 4 * (width as int * height as int)) by (nonlinear_arith);
        }
        let cells: u64 = width as u64 * height as u64;
        let len: u64 = data.len() as u64;
        if len % 4 == 0 && len / 4 == cells {
            Some(Raster { width, height, data })
        } else {
            None
        }
    }

    /// Gives up the store of samples.
    pub fn into_raw(self) -> (data: Vec<u8>)
        ensures
            data@ == self.samples(),
    {
        self.data
    }

    /// The store of samples.
    pub fn as_raw(&self) -> (data: &Vec<u8>)
        ensures
            data@ == self.samples(),
    {
        &self.data
    }

    /// Reads the pixel in column `x` of row `y`.
    pub fn get_pixel(&self, x: u32, y: u32) -> (p: Pixel)
        requires
            self.wf(),
            self.contains(x as int, y as int),
        ensures
            p == self.pixel(x as int, y as int),
    {
        proof {
            lemma_cell_index(x as int, y as int, self.width as int, self.height as int);
            assert(4 * self.width * self.height == 4 * (self.width as int * self.height as int))
                by (nonlinear_arith);
        }
        let base: usize = 4 * (y as usize * self.width as usize + x as usize);
        Pixel {
            red: self.data[base],
            green: self.data[base + 1],
            blue: self.data[base + 2],
            alpha: self.data[base + 3],
        }
    }

    /// Writes the pixel in column `x` of row `y` and leaves the others alone.
    pub fn put_pixel(&mut self, x: u32, y: u32, p: Pixel)
        requires
            old(self).wf(),
            old(self).contains(x as int, y as int),
        ensures
            final(self).wf(),
            final(self).spec_width() == old(self).spec_width(),
            final(self).spec_height() == old(self).spec_height(),
            final(self).pixel(x as int, y as int) == p,
            forall|i: int, j: int|
                old(self).contains(i, j) && !(i == x && j == y) ==> #[trigger] final(self).pixel(
                    i,
                    j,
                ) == old(self).pixel(i, j),
    {
        proof {
            lemma_cell_index(x as int, y as int, self.width as int, self.height as int);
            assert(4 * self.width * self.height == 4 * (self.width as int * self.height as int))
                by (nonlinear_arith);
        }
        let cell: usize = y as usize * self.width as usize + x as usize;
        let base: usize = 4 * cell;
        let ghost before = self.data@;
        self.data[base] = p.red;
        self.data[base + 1] = p.green;
        self.data[base + 2] = p.blue;
        self.data[base + 3] = p.alpha;
        proof {
            assert forall|i: int, j: int|
                old(self).contains(i, j) && !(i == x && j == y) implies #[trigger] self.pixel(i, j)
                == old(self).pixel(i, j) by {
                lemma_cell_index(i, j, self.width as int, self.height as int);
                lemma_cell_distinct(i, j, x as int, y as int, self.width as int);
            }
        }
    }
}

/// A cell of the grid has an index below the number of cells.
pub proof fn lemma_cell_index(x: int, y: int, width: int, height: int)
    by (nonlinear_arith)
    requires
        0 <= x < width,
        0 <= y < height,
    ensures
        0 <= y * width + x < width * height,
{
}

/// Different cells have different indices.
pub proof fn lemma_cell_distinct(x1: int, y1: int, x2: int, y2: int, width: int)
    by (nonlinear_arith)
    requires
        0 <= x1 < width,
        0 <= x2 < width,
        0 <= y1,
        0 <= y2,
        !(x1 == x2 && y1 == y2),
    ensures
        y1 * width + x1 != y2 * width + x2,
{
}

/// Every index below the number of cells is the index of a cell.
pub proof fn lemma_cell_of_index(i: int, width: int, height: int)
    requires
        0 <= i < width * height,
        0 <= width,
        0 <= height,
    ensures
        0 < width,
        0 <= i % width < width,
        0 <= i / width < height,
        (i / width) * width + i % width == i,
{
    assert(0 < width) by (nonlinear_arith)
        requires
            0 <= i < width * height,
            0 <= width,
    ;
    vstd::arithmetic::div_mod::lemma_fundamental_div_mod(i, width);
    vstd::arithmetic::div_mod::lemma_mod_bound(i, width);
    vstd::arithmetic::div_mod::lemma_div_pos_is_pos(i, width);
    let q = i / width;
    let r = i % width;
    assert(width * q == q * width) by (nonlinear_arith);
    assert(q < height) by (nonlinear_arith)
        requires
            q * width + r == i,
            0 <= r,
            i < width * height,
            0 < width,
    ;
}

} // verus!
