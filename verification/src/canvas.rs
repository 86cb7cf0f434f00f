//! The pixel grid, and its text in the plain PPM format.

use vstd::prelude::*;
use crate::color::Color;
use crate::decimal::decimal;
use crate::decimal::push_decimal;
use crate::scalar::ZERO_KEY;

verus! {

/// A grid of colours, row by row from the top.
#[derive(Clone, Debug)]
pub struct Canvas {
    pub width: usize,
    pub height: usize,
    pub canvas: Vec<Vec<Color>>,
}

/// The whole parts of the three channels of a pixel, scaled so that full
/// intensity is `255`.
#[derive(Clone, Copy, Debug, PartialEq, Eq, Structural)]
pub struct Level {
    pub r: i64,
    pub g: i64,
    pub b: i64,
}

/// A channel value held to what the format allows, `0` to `255`.
pub open spec fn held(v: int) -> int {
    if v > 255 {
        255
    } else if v < 0 {
        0
    } else {
        v
    }
}

/// The first lines of the text: the format's name, the width and the height,
/// and the largest channel value.
pub open spec fn header_text(width: int, height: int) -> Seq<char> {
    seq!['P', '3', '\n'] + decimal(width) + seq![' '] + decimal(height) + seq!['\n', '2', '5', '5', '\n']
}

/// The line of one pixel: its three channel values, held to the range.
pub open spec fn pixel_text(level: Level) -> Seq<char> {
    decimal(held(level.r as int)) + seq![' '] + decimal(held(level.g as int)) + seq![' '] + decimal(
        held(level.b as int),
    ) + seq!['\n']
}

/// The lines of the first `n` pixels of a row.
pub open spec fn row_text(row: Seq<Level>, n: nat) -> Seq<char>
    decreases n,
{
    if n == 0 {
        Seq::empty()
    } else {
        row_text(row, (n - 1) as nat) + pixel_text(row[n - 1])
    }
}

/// The lines of the first `n` rows.
pub open spec fn rows_text(levels: Seq<Vec<Level>>, n: nat) -> Seq<char>
    decreases n,
{
    if n == 0 {
        Seq::empty()
    } else {
        rows_text(levels, (n - 1) as nat) + row_text(levels[n - 1]@, levels[n - 1]@.len())
    }
}

fn hold(v: i64) -> (r: i64)
    ensures
        r == held(v as int),
{
    if v > 255 {
        255
    } else if v < 0 {
        0
    } else {
        v
    }
}

impl Canvas {
    /// The grid has `height` rows of `width` pixels each.
    pub open spec fn well_formed(&self) -> bool {
        &&& self.canvas@.len() == self.height
        &&& forall|y: int| 0 <= y < self.height ==> (#[trigger] self.canvas@[y])@.len() == self.width
    }

    /// The pixel in column `x` of row `y`.
    pub open spec fn pixel(&self, x: int, y: int) -> Color {
        self.canvas@[y]@[x]
    }

    /// `levels` has one entry for each pixel of the grid.
    pub open spec fn matches(&self, levels: Seq<Vec<Level>>) -> bool {
        &&& levels.len() == self.height
        &&& forall|y: int| 0 <= y < self.height ==> (#[trigger] levels[y])@.len() == self.width
    }

    /// A black canvas.
    pub fn new(width: usize, height: usize) -> (c: Canvas)
        ensures
            c.well_formed(),
            c.width == width,
            c.height == height,
            forall|x: int, y: int|
                0 <= x < width && 0 <= y < height ==> c.pixel(x, y) == Color::from_keys(
                    ZERO_KEY,
                    ZERO_KEY,
                    ZERO_KEY,
                ),
    {
        let mut canvas: Vec<Vec<Color>> = Vec::new();
        let mut y: usize = 0;
        while y < height
            invariant
                y <= height,
                canvas@.len() == y,
                forall|j: int| 0 <= j < y ==> (#[trigger] canvas@[j])@.len() == width,
                forall|i: int, j: int|
                    0 <= i < width && 0 <= j < y ==> #[trigger] canvas@[j]@[i] == Color::from_keys(
                        ZERO_KEY,
                        ZERO_KEY,
                        ZERO_KEY,
                    ),
            decreases height - y,
        {
            let mut row: Vec<Color> = Vec::new();
            let mut x: usize = 0;
            while x < width
                invariant
                    x <= width,
                    row@.len() == x,
                    forall|i: int|
                        0 <= i < x ==> #[trigger] row@[i] == Color::from_keys(
                            ZERO_KEY,
                            ZERO_KEY,
                            ZERO_KEY,
                        ),
                decreases width - x,
            {
                row.push(Color::black());
                x += 1;
            }
            canvas.push(row);
            y += 1;
        }
        Canvas { width, height, canvas }
    }

    /// Sets the pixel in column `x` of row `y`; every other pixel stays.
    pub fn write_pixel(&mut self, x: usize, y: usize, color: Color)
        requires
            old(self).well_formed(),
            x < old(self).width,
            y < old(self).height,
        ensures
            final(self).well_formed(),
            final(self).width == old(self).width,
            final(self).height == old(self).height,
            final(self).pixel(x as int, y as int) == color,
            forall|i: int, j: int|
                0 <= i < old(self).width && 0 <= j < old(self).height && !(i == x && j == y)
                    ==> final(self).pixel(i, j) == old(self).pixel(i, j),
    {
        self.canvas[y][x] = color;
    }

    /// The pixel in column `x` of row `y`.
    pub fn pixel_at(&self, x: usize, y: usize) -> (c: Color)
        requires
            self.well_formed(),
            x < self.width,
            y < self.height,
        ensures
            c == self.pixel(x as int, y as int),
    {
        self.canvas[y][x]
    }

    /// The image as plain PPM text: the header, then one line for each
    /// pixel, row by row. `levels[y][x]` holds the whole parts of the
    /// channels of pixel `(x, y)` scaled to `255`, the caller's arithmetic;
    /// each is held to `0..=255` before it is written.
    pub fn to_ppm(&self, levels: &Vec<Vec<Level>>) -> (content: String)
        requires
            self.matches(levels@),
        ensures
            content@ == header_text(self.width as int, self.height as int) + rows_text(
                levels@,
                levels@.len(),
            ),
    {
        proof {
            reveal_strlit("P3\n");
            reveal_strlit(" ");
            reveal_strlit("\n255\n");
            reveal_strlit("\n");
        }
        let mut content = String::new();
        content.append("P3\n");
        push_width_or_height(&mut content, self.width);
        content.append(" ");
        push_width_or_height(&mut content, self.height);
        content.append("\n255\n");
        assert(content@ =~= header_text(self.width as int, self.height as int));
        let ghost header = content@;
        let mut y: usize = 0;
        while y < levels.len()
            invariant
                y <= levels@.len(),
                content@ == header + rows_text(levels@, y as nat),
            decreases levels@.len() - y,
        {
            let row: &Vec<Level> = &levels[y];
            let ghost before = content@;
            let mut x: usize = 0;
            while x < row.len()
                invariant
                    x <= row@.len(),
                    content@ == before + row_text(row@, x as nat),
                decreases row@.len() - x,
            {
                let level: Level = row[x];
                let ghost start = content@;
                proof {
                    reveal_strlit(" ");
                    reveal_strlit("\n");
                }
                push_decimal(&mut content, hold(level.r));
                content.append(" ");
                push_decimal(&mut content, hold(level.g));
                content.append(" ");
                push_decimal(&mut content, hold(level.b));
                content.append("\n");
                assert(content@ =~= start + pixel_text(level));
                x += 1;
                assert(content@ =~= before + row_text(row@, x as nat));
            }
            y += 1;
            assert(content@ =~= header + rows_text(levels@, y as nat));
        }
        content
    }
}

fn push_width_or_height(out: &mut String, n: usize)
    ensures
        final(out)@ == old(out)@ + decimal(n as int),
{
    crate::decimal::push_digits(out, n as u64);
}

/// Every channel value that is written lies in `0..=255`, and holding it
/// again changes nothing.
pub proof fn law_held_in_range(v: int)
    ensures
        0 <= held(v) <= 255,
        held(held(v)) == held(v),
        0 <= v <= 255 ==> held(v) == v,
{
}

} // verus!
