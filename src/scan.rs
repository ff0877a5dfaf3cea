//! The order in which the camera visits the pixels of an image: row by row
//! from the top, and left to right within a row.

use vstd::prelude::*;
use vstd::arithmetic::div_mod::lemma_fundamental_div_mod_converse;
use vstd::arithmetic::mul::lemma_mul_inequality;

verus! {

/// A pixel position: column `i` counted from the left, row `j` counted from
/// the top.
#[derive(Clone, Copy, Debug, PartialEq, Eq, Structural)]
pub struct Pixel {
    pub i: u32,
    pub j: u32,
}

/// The pixel visited at position `k` of a scan over rows of `width` pixels.
pub open spec fn pixel_at(width: nat, k: nat) -> Pixel
    recommends
        width > 0,
{
    Pixel { i: (k % width) as u32, j: (k / width) as u32 }
}

/// What a scan is, mathematically: the image size and how many pixels
/// have been handed out.
pub struct ScanView {
    pub width: nat,
    pub height: nat,
    pub next: nat,
}

/// A row-major walk over the pixels of a `width` by `height` image.
pub struct Scan {
    width: u32,
    height: u32,
    row: u32,
    col: u32,
}

/// Position `row * width + col` of a pixel inside the image lies before its
/// end, and the position after the last column of a row is the start of
/// the next.
proof fn lemma_position(width: int, height: int, row: int, col: int)
    requires
        0 <= row < height,
        0 <= col < width,
    ensures
        row * width + col < width * height,
        (row + 1) * width == row * width + width,
{
    lemma_mul_inequality(row + 1, height, width);
    assert((row + 1) * width == row * width + width) by (nonlinear_arith);
}

impl View for Scan {
    type V = ScanView;

    closed spec fn view(&self) -> ScanView {
        ScanView {
            width: self.width as nat,
            height: self.height as nat,
            next: (self.row * self.width + self.col) as nat,
        }
    }
}

impl Scan {
    #[verifier::type_invariant]
    spec fn well_formed(self) -> bool {
        &&& self.row <= self.height
        &&& self.row < self.height ==> self.col < self.width
        &&& self.row == self.height ==> self.col == 0
    }

    /// A scan that has handed out no pixel yet.
    pub fn new(width: u32, height: u32) -> (r: Scan)
        ensures
            r@.width == width,
            r@.height == height,
            r@.next == 0,
    {
        if width == 0 {
            assert(height * 0 == 0) by (nonlinear_arith);
            Scan { width, height, row: height, col: 0 }
        } else {
            Scan { width, height, row: 0, col: 0 }
        }
    }

    /// Hands out the next pixel in row-major order, or `None` once every
    /// pixel of the image has been handed out.
    pub fn next_pixel(&mut self) -> (r: Option<Pixel>)
        ensures
            final(self)@.width == old(self)@.width,
            final(self)@.height == old(self)@.height,
            old(self)@.next < old(self)@.width * old(self)@.height ==> {
                &&& r == Some(pixel_at(old(self)@.width, old(self)@.next))
                &&& final(self)@.next == old(self)@.next + 1
            },
            old(self)@.next >= old(self)@.width * old(self)@.height ==> {
                &&& r is None
                &&& final(self)@.next == old(self)@.next
            },
    {
        proof {
            use_type_invariant(&*self);
        }
        if self.row >= self.height {
            assert(self.row * self.width == self.width * self.height) by (nonlinear_arith)
                requires
                    self.row == self.height,
            ;
            return None;
        }
        let p = Pixel { i: self.col, j: self.row };
        proof {
            lemma_fundamental_div_mod_converse(
                self@.next as int,
                self.width as int,
                self.row as int,
                self.col as int,
            );
            lemma_position(self.width as int, self.height as int, self.row as int, self.col as int);
        }
        if self.col + 1 < self.width {
            *self = Scan { width: self.width, height: self.height, row: self.row, col: self.col + 1 };
        } else {
            *self = Scan { width: self.width, height: self.height, row: self.row + 1, col: 0 };
        }
        Some(p)
    }
}

} // verus!
