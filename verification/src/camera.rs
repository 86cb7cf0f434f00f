//! The camera: the shape of its view, and the assembly of a rendered image.

use vstd::prelude::*;
use crate::canvas::Canvas;
use crate::color::Color;
use crate::matrice::Matrice;
use crate::scalar::Scalar;
use crate::scalar::ONE_KEY;

verus! {

/// The number of bounces that a ray from the camera may take.
pub const REMAINING: usize = 4;

/// The extent of the view plane one unit in front of the camera, and the
/// size of one pixel on it.
#[derive(Clone, Copy, Debug, PartialEq, Eq, Structural)]
pub struct Frame {
    pub half_width: Scalar,
    pub half_height: Scalar,
    pub pixel_size: Scalar,
}

/// A camera: the size of its image in pixels, its angle of view, its
/// placement, and the frame that follows from the first two.
#[derive(Clone, Debug)]
pub struct Camera {
    pub hsize: Scalar,
    pub vsize: Scalar,
    pub field_of_view: Scalar,
    pub transform: Matrice,
    pub pixel_size: Scalar,
    pub half_width: Scalar,
    pub half_height: Scalar,
}

/// The frame of an image whose width is `aspect` times its height: the one
/// laid out for a wide image where `aspect` is at least one, else the one
/// laid out for a tall image.
pub open spec fn frame_for(aspect: Scalar, wide: Frame, tall: Frame) -> Frame {
    if (Scalar { key: ONE_KEY }).less_equal(aspect) {
        wide
    } else {
        tall
    }
}

impl Camera {
    /// A camera at the origin that looks along `-z`. `aspect` is `hsize`
    /// over `vsize`; `wide` and `tall` are the frames that the angle of view
    /// gives for an image at least as wide as it is high, where the angle
    /// spans the width, and for a higher one, where it spans the height.
    /// All three are the caller's arithmetic; the camera takes the frame
    /// that fits its aspect.
    pub fn new(
        hsize: Scalar,
        vsize: Scalar,
        field_of_view: Scalar,
        aspect: Scalar,
        wide: Frame,
        tall: Frame,
    ) -> (c: Camera)
        ensures
            c.hsize == hsize,
            c.vsize == vsize,
            c.field_of_view == field_of_view,
            c.transform.well_formed(),
            c.transform.size == 4,
            c.transform.is_identity(),
            c.frame() == frame_for(aspect, wide, tall),
    {
        let frame: Frame = if Scalar::one().is_less_equal(aspect) {
            wide
        } else {
            tall
        };
        Camera {
            hsize,
            vsize,
            field_of_view,
            transform: Matrice::identity(),
            pixel_size: frame.pixel_size,
            half_width: frame.half_width,
            half_height: frame.half_height,
        }
    }

    /// The frame of the camera.
    pub open spec fn frame(&self) -> Frame {
        Frame {
            half_width: self.half_width,
            half_height: self.half_height,
            pixel_size: self.pixel_size,
        }
    }

    /// The column and the row of the pixel with the given number in an image
    /// `width` pixels wide, whose pixels are numbered row by row from the
    /// top left.
    pub fn pixel_position(index: usize, width: usize) -> (p: (usize, usize))
        requires
            width > 0,
        ensures
            p.0 < width,
            p.1 * width + p.0 == index,
    {
        let x: usize = index % width;
        let y: usize = index / width;
        assert(y * width + x == index) by (nonlinear_arith)
            requires
                width > 0,
                x == index % width,
                y == index / width,
        ;
        (x, y)
    }

    /// Assembles the image from the colours of its pixels, which the caller
    /// found one by one, in any order: `pixels` lists them row by row, so
    /// that pixel `(x, y)` is `pixels[y * width + x]`.
    pub fn render(&self, width: usize, height: usize, pixels: &Vec<Color>) -> (image: Canvas)
        requires
            pixels@.len() == width * height,
        ensures
            image.well_formed(),
            image.width == width,
            image.height == height,
            forall|x: int, y: int|
                0 <= x < width && 0 <= y < height ==> image.pixel(x, y) == pixels@[y * width + x],
    {
        let mut canvas: Vec<Vec<Color>> = Vec::new();
        let mut y: usize = 0;
        let mut at: usize = 0;
        let total: usize = pixels.len();
        while y < height
            invariant
                y <= height,
                total == pixels@.len(),
                at == y * width,
                pixels@.len() == width * height,
                canvas@.len() == y,
                forall|j: int| 0 <= j < y ==> (#[trigger] canvas@[j])@.len() == width,
                forall|i: int, j: int|
                    0 <= i < width && 0 <= j < y ==> #[trigger] canvas@[j]@[i] == pixels@[j * width
                        + i],
            decreases height - y,
        {
            proof {
                lemma_row_in_range(y as int, width as int, height as int);
            }
            let mut row: Vec<Color> = Vec::new();
            let mut x: usize = 0;
            while x < width
                invariant
                    x <= width,
                    y < height,
                    at == y * width + x,
                    y * width + width <= total,
                    total == pixels@.len(),
                    row@.len() == x,
                    forall|i: int| 0 <= i < x ==> #[trigger] row@[i] == pixels@[y * width + i],
                decreases width - x,
            {
                row.push(pixels[at]);
                at += 1;
                x += 1;
            }
            canvas.push(row);
            y += 1;
            assert(at == y * width) by (nonlinear_arith)
                requires
                    at == (y - 1) * width + width,
            ;
        }
        Canvas { width, height, canvas }
    }
}

/// Row `y` of a `width` by `height` grid ends within the grid.
proof fn lemma_row_in_range(y: int, width: int, height: int)
    requires
        0 <= y < height,
        0 <= width,
    ensures
        (y + 1) * width <= width * height,
        y * width + width == (y + 1) * width,
{
    assert((y + 1) * width <= width * height) by (nonlinear_arith)
        requires
            0 <= y < height,
            0 <= width,
    ;
    assert(y * width + width == (y + 1) * width) by (nonlinear_arith);
}

/// Each pixel of an image has one number, and `pixel_position` finds the
/// pixel of a number: column and row are determined by it.
pub proof fn law_pixel_numbers(width: int, x: int, y: int, other_x: int, other_y: int)
    requires
        0 <= x < width,
        0 <= other_x < width,
        0 <= y,
        0 <= other_y,
        y * width + x == other_y * width + other_x,
    ensures
        x == other_x,
        y == other_y,
{
    assert(y == other_y) by (nonlinear_arith)
        requires
            0 <= x < width,
            0 <= other_x < width,
            0 <= y,
            0 <= other_y,
            y * width + x == other_y * width + other_x,
    ;
    assert(x == other_x) by (nonlinear_arith)
        requires
            y == other_y,
            y * width + x == other_y * width + other_x,
    ;
}

} // verus!
