//! The row-major pixel buffer and its plain-text serialization.
//!
//! The on-disk format is fixed: the line `P3`, then `<width> <height>`, then
//! `255` (the largest channel value), then one `r g b` line per pixel in
//! row-major order, every number in ASCII decimal. [`ppm_bytes`] states that
//! layout byte for byte, and [`PPMImage::to_ppm`] is proved to produce it.

use vstd::prelude::*;

use crate::color::Color;
use crate::text::decimal;
use crate::text::push_decimal;

verus! {

/// ASCII space, the separator inside a line of the image format.
pub const SPACE: u8 = 32;

/// ASCII line feed, the terminator of every line of the image format.
pub const NEWLINE: u8 = 10;

/// The error a pixel access returns when the requested coordinates fall
/// outside the buffer.
#[derive(Clone, Copy, Debug, PartialEq, Eq, Structural)]
pub enum ImageError {
    OutOfBounds,
}

impl ImageError {
    /// The human-readable description of the error.
    pub fn message(&self) -> (m: &'static str)
        ensures
            m@ == "Pixel coordinates out of bounds"@,
    {
        "Pixel coordinates out of bounds"
    }
}

/// A raster image: `width * height` colors in row-major order.
pub struct PPMImage {
    pub width: usize,
    pub height: usize,
    pub data: Vec<Color>,
}

/// The first line of the serialized image: its magic bytes, `P` then `3`.
pub open spec fn magic_bytes() -> Seq<u8> {
    seq![80u8, 51u8]
}

/// The header of the serialized image: the magic line, the dimensions line,
/// and the largest-channel-value line.
pub open spec fn ppm_header(width: nat, height: nat) -> Seq<u8> {
    magic_bytes() + seq![NEWLINE] + decimal(width) + seq![SPACE] + decimal(height) + seq![NEWLINE]
        + decimal(255) + seq![NEWLINE]
}

/// One pixel of the serialized image: `r g b` and a line break.
pub open spec fn color_line(c: Color) -> Seq<u8> {
    decimal(c.r as nat) + seq![SPACE] + decimal(c.g as nat) + seq![SPACE] + decimal(c.b as nat)
        + seq![NEWLINE]
}

/// The pixel lines of the serialized image, in buffer (row-major) order.
pub open spec fn pixel_lines(data: Seq<Color>) -> Seq<u8>
    decreases data.len(),
{
    if data.len() == 0 {
        Seq::empty()
    } else {
        pixel_lines(data.drop_last()) + color_line(data.last())
    }
}

/// The whole serialized image, byte for byte.
pub open spec fn ppm_bytes(width: nat, height: nat, data: Seq<Color>) -> Seq<u8> {
    ppm_header(width, height) + pixel_lines(data)
}

impl PPMImage {
    /// The buffer holds exactly one color per pixel coordinate.
    pub open spec fn wf(self) -> bool {
        self.data@.len() == self.width * self.height
    }

    /// An all-black image of the given dimensions.
    pub fn new(width: usize, height: usize) -> (img: PPMImage)
        requires
            width * height <= usize::MAX,
        ensures
            img.wf(),
            img.width == width,
            img.height == height,
            forall|i: int|
                0 <= i < img.data@.len() ==> img.data@[i] == (Color { r: 0, g: 0, b: 0 }),
    {
        let total: usize = width * height;
        let mut data: Vec<Color> = Vec::new();
        let mut i: usize = 0;
        while i < total
            invariant
                i <= total,
                data@.len() == i,
                forall|j: int| 0 <= j < i ==> data@[j] == (Color { r: 0, g: 0, b: 0 }),
            decreases total - i,
        {
            data.push(Color::black());
            i = i + 1;
        }
        PPMImage { width, height, data }
    }

    /// The buffer index of the pixel at `(x, y)`, or the out-of-bounds error
    /// when either coordinate falls outside the image. Coordinates are
    /// validated here, at the boundary, so no flat index that mixes a
    /// too-large `x` into a later row can slip through.
    pub fn get_index(&self, x: usize, y: usize) -> (r: Result<usize, ImageError>)
        requires
            self.wf(),
        ensures
            x < self.width && y < self.height ==> y * self.width + x < self.data@.len() && y
                * self.width + x <= usize::MAX && r == Ok::<usize, ImageError>(
                (y * self.width + x) as usize,
            ),
            !(x < self.width && y < self.height) ==> r == Err::<usize, ImageError>(
                ImageError::OutOfBounds,
            ),
    {
        if x >= self.width || y >= self.height {
            Err(ImageError::OutOfBounds)
        } else {
            proof {
                assert(y * self.width + x < self.width * self.height) by (nonlinear_arith)
                    requires
                        x < self.width,
                        y < self.height,
                ;
                assert(self.data.len() <= usize::MAX);
            }
            let index: usize = y * self.width + x;
            Ok(index)
        }
    }

    /// Overwrites the pixel at `(x, y)` when both coordinates are inside
    /// the image, leaving every other pixel and the dimensions as they
    /// were; out-of-bounds coordinates are rejected with no change at all.
    pub fn set_pixel(&mut self, x: usize, y: usize, color: &Color) -> (r: Result<
        (),
        ImageError,
    >)
        requires
            old(self).wf(),
        ensures
            final(self).wf(),
            final(self).width == old(self).width,
            final(self).height == old(self).height,
            x < old(self).width && y < old(self).height ==> r == Ok::<(), ImageError>(())
                && final(self).data@ == old(self).data@.update(
                y * old(self).width + x,
                *color,
            ),
            !(x < old(self).width && y < old(self).height) ==> r == Err::<(), ImageError>(
                ImageError::OutOfBounds,
            ) && final(self).data@ == old(self).data@,
    {
        match self.get_index(x, y) {
            Ok(index) => {
                self.data.set(index, *color);
                Ok(())
            },
            Err(e) => Err(e),
        }
    }

    /// The pixel at `(x, y)`, or the out-of-bounds error when either
    /// coordinate falls outside the image.
    pub fn get_pixel(&self, x: usize, y: usize) -> (r: Result<Color, ImageError>)
        requires
            self.wf(),
        ensures
            x < self.width && y < self.height ==> r == Ok::<Color, ImageError>(
                self.data@[y * self.width + x],
            ),
            !(x < self.width && y < self.height) ==> r == Err::<Color, ImageError>(
                ImageError::OutOfBounds,
            ),
    {
        match self.get_index(x, y) {
            Ok(index) => Ok(self.data[index]),
            Err(e) => Err(e),
        }
    }

    /// A mutable borrow of the pixel at `(x, y)`: the caller's writes through
    /// it are the only change to the image. Out-of-bounds coordinates are
    /// rejected with no change at all.
    pub fn get_pixel_mut(&mut self, x: usize, y: usize) -> (r: Result<&mut Color, ImageError>)
        requires
            old(self).wf(),
        ensures
            final(self).wf(),
            final(self).width == old(self).width,
            final(self).height == old(self).height,
            match r {
                Ok(p) => x < old(self).width && y < old(self).height && *p == old(
                    self,
                ).data@[y * old(self).width + x] && final(self).data@ == old(self).data@.update(
                    y * old(self).width + x,
                    *final(p),
                ),
                Err(e) => !(x < old(self).width && y < old(self).height) && e
                    == ImageError::OutOfBounds && final(self).data@ == old(self).data@,
            },
    {
        match self.get_index(x, y) {
            Ok(index) => Ok(&mut self.data[index]),
            Err(e) => Err(e),
        }
    }

    /// Builds the image whose `y`-th row is `rows[y]`; the rows are
    /// concatenated in order into the row-major buffer.
    pub fn from_rows(rows: Vec<Vec<Color>>) -> (img: PPMImage)
        requires
            rows@.len() > 0,
            forall|y: int| 0 <= y < rows@.len() ==> (#[trigger] rows@[y])@.len() == rows@[0]@.len(),
            rows@.len() * rows@[0]@.len() <= usize::MAX,
        ensures
            img.wf(),
            img.height == rows@.len(),
            img.width == rows@[0]@.len(),
            img.data@ == rows@.map_values(|row: Vec<Color>| row@).flatten(),
    {
        let ghost all_rows: Seq<Seq<Color>> = rows@.map_values(|row: Vec<Color>| row@);
        let height: usize = rows.len();
        let width: usize = rows[0].len();
        let mut data: Vec<Color> = Vec::new();
        let mut y: usize = 0;
        while y < height
            invariant
                y <= height,
                height == rows@.len(),
                width == rows@[0]@.len(),
                forall|k: int| 0 <= k < rows@.len() ==> (#[trigger] rows@[k])@.len() == width,
                all_rows == rows@.map_values(|row: Vec<Color>| row@),
                data@ == all_rows.take(y as int).flatten(),
                data@.len() == y * width,
                rows@.len() * width <= usize::MAX,
            decreases height - y,
        {
            let row = &rows[y];
            let mut x: usize = 0;
            proof {
                assert(y * width + width == (y + 1) * width) by (nonlinear_arith);
                assert((y + 1) * width <= rows@.len() * width) by (nonlinear_arith)
                    requires
                        y + 1 <= rows@.len(),
                        width >= 0,
                ;
            }
            while x < row.len()
                invariant
                    x <= row@.len(),
                    row@ == rows@[y as int]@,
                    row@.len() == width,
                    data@ == all_rows.take(y as int).flatten() + row@.take(x as int),
                    data@.len() == y * width + x,
                    y * width + width <= usize::MAX,
                decreases row@.len() - x,
            {
                data.push(row[x]);
                proof {
                    assert(row@.take(x + 1) =~= row@.take(x as int).push(row@[x as int]));
                    assert(data@ =~= all_rows.take(y as int).flatten() + row@.take(x + 1));
                }
                x = x + 1;
            }
            proof {
                assert(row@.take(row@.len() as int) =~= row@);
                assert(all_rows.take(y + 1) =~= all_rows.take(y as int).push(all_rows[y as int]));
                all_rows.take(y as int).lemma_flatten_push(all_rows[y as int]);
                assert(data@ =~= all_rows.take(y + 1).flatten());
            }
            y = y + 1;
        }
        proof {
            assert(all_rows.take(all_rows.len() as int) =~= all_rows);
            assert(rows@.len() * width == rows@[0]@.len() * rows@.len()) by (nonlinear_arith)
                requires
                    width == rows@[0]@.len(),
            ;
        }
        PPMImage { width, height, data }
    }

    /// Serializes the image: exactly [`ppm_bytes`] of its dimensions and
    /// buffer, ready to be written to a `.ppm` file as-is.
    pub fn to_ppm(&self) -> (out: Vec<u8>)
        ensures
            out@ == ppm_bytes(self.width as nat, self.height as nat, self.data@),
    {
        let mut out: Vec<u8> = Vec::new();
        out.push(80);
        out.push(51);
        out.push(NEWLINE);
        push_decimal(&mut out, self.width);
        out.push(SPACE);
        push_decimal(&mut out, self.height);
        out.push(NEWLINE);
        push_decimal(&mut out, 255);
        out.push(NEWLINE);
        proof {
            assert(out@ =~= ppm_header(self.width as nat, self.height as nat));
        }
        let mut i: usize = 0;
        while i < self.data.len()
            invariant
                i <= self.data@.len(),
                out@ == ppm_header(self.width as nat, self.height as nat) + pixel_lines(
                    self.data@.take(i as int),
                ),
            decreases self.data@.len() - i,
        {
            let c = self.data[i];
            push_decimal(&mut out, c.r as usize);
            out.push(SPACE);
            push_decimal(&mut out, c.g as usize);
            out.push(SPACE);
            push_decimal(&mut out, c.b as usize);
            out.push(NEWLINE);
            proof {
                assert(self.data@.take(i + 1).drop_last() =~= self.data@.take(i as int));
                assert(self.data@.take(i + 1).last() == self.data@[i as int]);
                assert(out@ =~= ppm_header(self.width as nat, self.height as nat) + pixel_lines(
                    self.data@.take(i + 1),
                ));
            }
            i = i + 1;
        }
        proof {
            assert(self.data@.take(self.data@.len() as int) =~= self.data@);
        }
        out
    }
}

} // verus!
