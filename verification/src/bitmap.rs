//! Decoded images: four bytes for each pixel, row after row. Decoding is
//! not done here: whoever opens the file hands in the pixels, and `Bitmap`
//! holds them only if there are as many as its dimensions ask for.

use vstd::prelude::*;
use vstd::arithmetic::div_mod::{lemma_fundamental_div_mod, lemma_mod_pos_bound};
use vstd::slice::slice_subrange;

verus! {

/// A decoded image. Each pixel takes four bytes (red, green, blue, alpha);
/// the pixels of a row follow each other from left to right, and the rows
/// follow each other without gaps.
#[derive(Debug, PartialEq, Eq)]
pub struct Bitmap {
    width: u32,
    height: u32,
    pixels: Vec<u8>,
}

/// What a `Bitmap` holds.
pub struct Raster {
    pub width: u32,
    pub height: u32,
    pub pixels: Seq<u8>,
}

impl Raster {
    /// The number of bytes in a row.
    pub open spec fn pitch(self) -> int {
        4 * self.width
    }

    /// Whether there are as many bytes as the dimensions ask for.
    pub open spec fn well_formed(self) -> bool {
        self.pixels.len() == self.pitch() * self.height
    }

    /// The same image with its rows in the opposite order.
    pub open spec fn flipped(self) -> Raster {
        Raster {
            width: self.width,
            height: self.height,
            pixels: rows_reversed(self.pixels, self.pitch(), self.height as nat),
        }
    }
}

/// The first `rows` rows of `pitch` bytes each of `pixels`, the last of
/// them first.
pub open spec fn rows_reversed(pixels: Seq<u8>, pitch: int, rows: nat) -> Seq<u8>
    decreases rows,
{
    if rows == 0 {
        Seq::empty()
    } else {
        pixels.subrange((rows - 1) * pitch, rows * pitch) + rows_reversed(
            pixels,
            pitch,
            (rows - 1) as nat,
        )
    }
}

proof fn rows_reversed_len(pixels: Seq<u8>, pitch: int, rows: nat)
    requires
        0 <= pitch,
        rows * pitch <= pixels.len(),
    ensures
        rows_reversed(pixels, pitch, rows).len() == rows * pitch,
    decreases rows,
{
    if rows > 0 {
        assert((rows - 1) * pitch + pitch == rows * pitch && 0 <= (rows - 1) * pitch <= rows
            * pitch) by (nonlinear_arith)
            requires
                rows >= 1,
                pitch >= 0,
        ;
        rows_reversed_len(pixels, pitch, (rows - 1) as nat);
        let first = pixels.subrange((rows - 1) * pitch, rows * pitch);
        let rest = rows_reversed(pixels, pitch, (rows - 1) as nat);
        assert(first.len() == pitch);
        assert(rest.len() == (rows - 1) * pitch);
        assert(rows_reversed(pixels, pitch, rows) == first + rest);
        assert((first + rest).len() == first.len() + rest.len());
    } else {
        assert(rows * pitch == 0) by (nonlinear_arith)
            requires
                rows == 0,
        ;
    }
}

/// Reversing the rows puts the byte at column `x` of row `y` at column `x`
/// of row `rows - 1 - y`, and keeps the number of bytes.
pub proof fn rows_reversed_at(pixels: Seq<u8>, pitch: int, rows: nat, y: int, x: int)
    requires
        pixels.len() == rows * pitch,
        0 <= y < rows,
        0 <= x < pitch,
    ensures
        rows_reversed(pixels, pitch, rows).len() == pixels.len(),
        0 <= y * pitch + x < pixels.len(),
        0 <= (rows - 1 - y) * pitch + x < pixels.len(),
        rows_reversed(pixels, pitch, rows)[y * pitch + x] == pixels[(rows - 1 - y) * pitch + x],
{
    rows_reversed_len(pixels, pitch, rows);
    assert(0 <= y * pitch + x < rows * pitch && 0 <= (rows - 1 - y) * pitch + x < rows * pitch)
        by (nonlinear_arith)
        requires
            0 <= y < rows,
            0 <= x < pitch,
    ;
    rows_reversed_row(pixels, pitch, rows, rows, y, x);
}

/// The byte at column `x` of row `y` of the first `taken` rows, reversed.
proof fn rows_reversed_row(pixels: Seq<u8>, pitch: int, rows: nat, taken: nat, y: int, x: int)
    requires
        pixels.len() == rows * pitch,
        taken <= rows,
        0 <= y < taken,
        0 <= x < pitch,
    ensures
        rows_reversed(pixels, pitch, taken).len() == taken * pitch,
        0 <= y * pitch + x < taken * pitch,
        0 <= (taken - 1 - y) * pitch + x < pixels.len(),
        rows_reversed(pixels, pitch, taken)[y * pitch + x] == pixels[(taken - 1 - y) * pitch + x],
    decreases taken,
{
    assert(taken * pitch <= rows * pitch) by (nonlinear_arith)
        requires
            taken <= rows,
            pitch >= 0,
    ;
    rows_reversed_len(pixels, pitch, taken);
    assert(0 <= y * pitch + x < taken * pitch && 0 <= (taken - 1 - y) * pitch + x < taken * pitch)
        by (nonlinear_arith)
        requires
            0 <= y < taken,
            0 <= x < pitch,
    ;
    assert((taken - 1) * pitch + pitch == taken * pitch && 0 <= (taken - 1) * pitch)
        by (nonlinear_arith)
        requires
            taken >= 1,
            pitch >= 0,
    ;
    let first = pixels.subrange((taken - 1) * pitch, taken * pitch);
    let rest = rows_reversed(pixels, pitch, (taken - 1) as nat);
    if y == 0 {
        assert((first + rest)[x] == first[x]);
    } else {
        rows_reversed_row(pixels, pitch, rows, (taken - 1) as nat, y - 1, x);
        assert(y * pitch + x - pitch == (y - 1) * pitch + x) by (nonlinear_arith);
        assert(y * pitch + x >= pitch) by (nonlinear_arith)
            requires
                y >= 1,
                x >= 0,
                pitch >= 0,
        ;
        assert((first + rest)[y * pitch + x] == rest[y * pitch + x - pitch]);
        assert(taken - 1 - y == (taken - 1) - 1 - (y - 1));
    }
}

/// Reversing the rows twice gives the image back.
pub proof fn flipped_twice(raster: Raster)
    requires
        raster.well_formed(),
    ensures
        raster.flipped().well_formed(),
        raster.flipped().flipped() == raster,
{
    let pitch = raster.pitch();
    let rows = raster.height as nat;
    let once = raster.flipped().pixels;
    let twice = raster.flipped().flipped().pixels;
    assert(pitch * rows == rows * pitch) by (nonlinear_arith);
    rows_reversed_len(raster.pixels, pitch, rows);
    rows_reversed_len(once, pitch, rows);
    assert forall|i: int| 0 <= i < raster.pixels.len() implies twice[i] == raster.pixels[i] by {
        if pitch > 0 {
            let y = i / pitch;
            let x = i % pitch;
            lemma_fundamental_div_mod(i, pitch);
            lemma_mod_pos_bound(i, pitch);
            assert(0 <= y < rows && i == y * pitch + x) by (nonlinear_arith)
                requires
                    0 <= i < rows * pitch,
                    pitch > 0,
                    i == pitch * y + x,
                    0 <= x < pitch,
            ;
            rows_reversed_at(once, pitch, rows, y, x);
            rows_reversed_at(raster.pixels, pitch, rows, rows - 1 - y, x);
            assert(rows - 1 - (rows - 1 - y) == y);
        } else {
            assert(raster.pixels.len() == 0) by (nonlinear_arith)
                requires
                    raster.pixels.len() == pitch * rows,
                    pitch == 0,
            ;
        }
    }
    assert(twice =~= raster.pixels);
}

impl View for Bitmap {
    type V = Raster;

    closed spec fn view(&self) -> Raster {
        Raster { width: self.width, height: self.height, pixels: self.pixels@ }
    }
}

impl Bitmap {
    #[verifier::type_invariant]
    spec fn sized(&self) -> bool {
        self@.well_formed()
    }

    /// Makes an image of `width` by `height` pixels from its bytes, if there
    /// are as many bytes as the dimensions ask for.
    pub fn new(width: u32, height: u32, pixels: Vec<u8>) -> (made: Option<Bitmap>)
        ensures
            match made {
                Some(bitmap) => bitmap@ == (Raster { width, height, pixels: pixels@ })
                    && bitmap@.well_formed(),
                None => !(Raster { width, height, pixels: pixels@ }).well_formed(),
            },
    {
        assert(4 * width * height <= 4 * 0xffff_ffff * 0xffff_ffff) by (nonlinear_arith)
            requires
                width <= 0xffff_ffff,
                height <= 0xffff_ffff,
        ;
        let wanted: u128 = 4 * (width as u128) * (height as u128);
        if pixels.len() as u128 == wanted {
            Some(Bitmap { width, height, pixels })
        } else {
            None
        }
    }

    pub fn width(&self) -> (width: u32)
        ensures
            width == self@.width,
    {
        self.width
    }

    pub fn height(&self) -> (height: u32)
        ensures
            height == self@.height,
    {
        self.height
    }

    /// The bytes of the image.
    pub fn pixels(&self) -> (pixels: &Vec<u8>)
        ensures
            pixels@ == self@.pixels,
            self@.well_formed(),
    {
        proof {
            use_type_invariant(self);
        }
        &self.pixels
    }

    /// Gives the bytes of the image away.
    pub fn into_pixels(self) -> (pixels: Vec<u8>)
        ensures
            pixels@ == self@.pixels,
            self@.well_formed(),
    {
        proof {
            use_type_invariant(&self);
        }
        self.pixels
    }

    /// Turns the image upside down: the bottom row becomes the first.
    pub fn flip(self) -> (flipped: Bitmap)
        ensures
            self@.well_formed(),
            flipped@ == self@.flipped(),
    {
        proof {
            use_type_invariant(&self);
        }
        let Bitmap { width, height, pixels } = self;
        let ghost raster = Raster { width, height, pixels: pixels@ };
        if height == 0 {
            assert(pixels@.len() == 0) by (nonlinear_arith)
                requires
                    pixels@.len() == raster.pitch() * height,
                    height == 0,
            ;
            assert(pixels@ =~= rows_reversed(pixels@, raster.pitch(), 0));
            return Bitmap { width, height, pixels };
        }
        assert(4 * width <= pixels@.len() && raster.pitch() * height == height * (4 * width))
            by (nonlinear_arith)
            requires
                pixels@.len() == raster.pitch() * height,
                raster.pitch() == 4 * width,
                height >= 1,
        ;
        let total: usize = pixels.len();
        let pitch: usize = 4 * (width as usize);
        let rows: usize = height as usize;
        let mut out: Vec<u8> = Vec::with_capacity(total);
        let mut y: usize = rows;
        while y > 0
            invariant
                y <= rows,
                pixels@.len() == rows * pitch,
                pixels@.len() == total,
                out@ + rows_reversed(pixels@, pitch as int, y as nat) == rows_reversed(
                    pixels@,
                    pitch as int,
                    rows as nat,
                ),
            decreases y,
        {
            assert((y - 1) * pitch + pitch == y * pitch && 0 <= (y - 1) * pitch && y * pitch
                <= rows * pitch) by (nonlinear_arith)
                requires
                    1 <= y <= rows,
            ;
            let ghost before = out@;
            let start: usize = (y - 1) * pitch;
            let row = slice_subrange(pixels.as_slice(), start, start + pitch);
            out.extend_from_slice(row);
            y -= 1;
            proof {
                let rest = rows_reversed(pixels@, pitch as int, y as nat);
                assert(out@ + rest =~= before + (row@ + rest));
            }
        }
        proof {
            rows_reversed_len(pixels@, pitch as int, rows as nat);
            assert(out@ =~= out@ + rows_reversed(pixels@, pitch as int, 0));
        }
        Bitmap { width, height, pixels: out }
    }
}

} // verus!
