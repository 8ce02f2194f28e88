//! The framebuffer: one packed colour for each pixel, row after row from the
//! top left.

use vstd::prelude::*;
use crate::color::Color;

verus! {

/// A grid of `width * height` pixels, each a packed `0xRRGGBB` colour.
pub struct Framebuffer {
    pub width: usize,
    pub height: usize,
    pub buffer: Vec<u32>,
}

/// The column of the pixel that stands at `index` in a grid `width` wide.
pub open spec fn column_of(index: int, width: int) -> int {
    index % width
}

/// The row of the pixel that stands at `index` in a grid `width` wide.
pub open spec fn row_of(index: int, width: int) -> int {
    index / width
}

/// Every index below `width * height` names a pixel of the grid, and its
/// column and row give the index back.
pub proof fn position_is_in_grid(index: int, width: int, height: int)
    requires
        0 <= index < width * height,
        0 <= height,
    ensures
        0 <= column_of(index, width) < width,
        0 <= row_of(index, width) < height,
        row_of(index, width) * width + column_of(index, width) == index,
{
    assert(width > 0) by (nonlinear_arith)
        requires
            0 <= index < width * height,
            0 <= height,
    ;
    vstd::arithmetic::div_mod::lemma_fundamental_div_mod(index, width);
    vstd::arithmetic::div_mod::lemma_mod_bound(index, width);
    let row = index / width;
    assert(width * row == row * width) by (nonlinear_arith);
    assert(0 <= row < height) by (nonlinear_arith)
        requires
            0 <= index < width * height,
            width > 0,
            0 <= index - row * width < width,
    ;
}

/// Each pixel of the grid stands at one index: its row times the width,
/// plus its column.
pub proof fn index_of_position(x: int, y: int, width: int)
    requires
        0 <= x < width,
        0 <= y,
    ensures
        column_of(y * width + x, width) == x,
        row_of(y * width + x, width) == y,
{
    vstd::arithmetic::div_mod::lemma_fundamental_div_mod_converse(y * width + x, width, y, x);
}

impl Framebuffer {
    /// The buffer holds exactly one value for each pixel.
    pub open spec fn well_formed(self) -> bool {
        self.buffer@.len() == self.width * self.height
    }

    /// A framebuffer of the given size, every pixel black.
    pub fn new(width: usize, height: usize) -> (framebuffer: Framebuffer)
        requires
            width * height <= usize::MAX,
        ensures
            framebuffer.well_formed(),
            framebuffer.width == width,
            framebuffer.height == height,
            forall|i: int| 0 <= i < width * height ==> framebuffer.buffer@[i] == 0,
    {
        let size: usize = width * height;
        let mut buffer: Vec<u32> = Vec::with_capacity(size);
        let mut i: usize = 0;
        while i < size
            invariant
                i <= size,
                buffer@.len() == i,
                forall|j: int| 0 <= j < i ==> buffer@[j] == 0,
            decreases size - i,
        {
            buffer.push(0);
            i += 1;
        }
        Framebuffer { width, height, buffer }
    }

    /// A framebuffer of the given size, every pixel black; `None` where the
    /// number of pixels cannot be counted in `usize`.
    pub fn try_new(width: usize, height: usize) -> (made: Option<Framebuffer>)
        ensures
            made is Some <==> width * height <= usize::MAX,
            made matches Some(framebuffer) ==> framebuffer.well_formed() && framebuffer.width
                == width && framebuffer.height == height && forall|i: int|
                0 <= i < width * height ==> framebuffer.buffer@[i] == 0,
    {
        match width.checked_mul(height) {
            Some(_) => Some(Framebuffer::new(width, height)),
            None => None,
        }
    }

    /// The column and the row of the pixel at `index`.
    pub fn position(&self, index: usize) -> (at: (usize, usize))
        requires
            self.well_formed(),
            index < self.buffer@.len(),
        ensures
            at.0 == column_of(index as int, self.width as int),
            at.1 == row_of(index as int, self.width as int),
            at.0 < self.width,
            at.1 < self.height,
            at.1 * self.width + at.0 == index,
    {
        proof {
            position_is_in_grid(index as int, self.width as int, self.height as int);
        }
        (index % self.width, index / self.width)
    }

    /// Writes a colour, packed, to the pixel at `index`.
    pub fn store(&mut self, index: usize, color: Color)
        requires
            index < old(self).buffer@.len(),
        ensures
            final(self).width == old(self).width,
            final(self).height == old(self).height,
            final(self).buffer@ == old(self).buffer@.update(index as int, color.hex() as u32),
    {
        self.buffer.set(index, color.to_hex());
    }
}

/// The pixel at `index` of `buffer` holds, packed, a colour that `shade` can
/// give for the pixel's column and row.
pub open spec fn painted<F: Fn(usize, usize) -> Color>(
    shade: F,
    width: usize,
    buffer: Seq<u32>,
    index: int,
) -> bool {
    exists|color: Color|
        #[trigger] shade.ensures(
            (column_of(index, width as int) as usize, row_of(index, width as int) as usize),
            color,
        ) && buffer[index] == color.hex()
}

/// Fills every pixel with the colour that `shade` gives for its column and
/// row, packed as `0xRRGGBB`. The pixels are visited in index order.
pub fn render<F: Fn(usize, usize) -> Color>(framebuffer: &mut Framebuffer, shade: F)
    requires
        old(framebuffer).well_formed(),
        forall|x: usize, y: usize|
            x < old(framebuffer).width && y < old(framebuffer).height ==> #[trigger] shade.requires(
                (x, y),
            ),
    ensures
        final(framebuffer).width == old(framebuffer).width,
        final(framebuffer).height == old(framebuffer).height,
        final(framebuffer).well_formed(),
        forall|i: int|
            0 <= i < final(framebuffer).buffer@.len() ==> #[trigger] painted(
                shade,
                final(framebuffer).width,
                final(framebuffer).buffer@,
                i,
            ),
{
    let size: usize = framebuffer.buffer.len();
    let mut i: usize = 0;
    while i < size
        invariant
            i <= size,
            size == framebuffer.buffer@.len(),
            framebuffer.width == old(framebuffer).width,
            framebuffer.height == old(framebuffer).height,
            framebuffer.well_formed(),
            forall|x: usize, y: usize|
                x < framebuffer.width && y < framebuffer.height ==> #[trigger] shade.requires(
                    (x, y),
                ),
            forall|j: int|
                0 <= j < i ==> #[trigger] painted(shade, framebuffer.width, framebuffer.buffer@, j),
        decreases size - i,
    {
        let ghost before = framebuffer.buffer@;
        let (x, y): (usize, usize) = framebuffer.position(i);
        let color: Color = shade(x, y);
        framebuffer.store(i, color);
        proof {
            assert(column_of(i as int, framebuffer.width as int) as usize == x);
            assert(row_of(i as int, framebuffer.width as int) as usize == y);
            assert(shade.ensures((x, y), color) && framebuffer.buffer@[i as int] == color.hex());
            assert(painted(shade, framebuffer.width, framebuffer.buffer@, i as int));
            assert forall|j: int| 0 <= j < i implies #[trigger] painted(
                shade,
                framebuffer.width,
                framebuffer.buffer@,
                j,
            ) by {
                assert(painted(shade, framebuffer.width, before, j));
                assert(before[j] == framebuffer.buffer@[j]);
            }
        }
        i += 1;
    }
}

} // verus!
