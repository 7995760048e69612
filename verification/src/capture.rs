//! Captured images: RGBA, row-major, without padding.

use crate::geometry::Region;
use vstd::prelude::*;

verus! {

/// Why a capture did not arrive.
#[derive(Clone, Copy, Debug, PartialEq, Eq, Structural)]
pub enum CaptureError {
    /// The capture source could not be reached.
    Unavailable,
}

/// The model of a [`PixelBuffer`].
pub struct PixelModel {
    pub width: int,
    pub height: int,
    pub bytes: Seq<u8>,
}

impl PixelModel {
    /// There are four bytes for each pixel.
    pub open spec fn valid(self) -> bool {
        &&& 0 <= self.width
        &&& 0 <= self.height
        &&& self.bytes.len() == self.width * self.height * 4
    }

    /// The image is exactly as large as the region.
    pub open spec fn covers(self, region: Region) -> bool {
        self.width == region.width && self.height == region.height
    }

    /// Where the pixel in column `x` of row `y` begins.
    pub open spec fn offset(self, x: int, y: int) -> int {
        (y * self.width + x) * 4
    }
}

/// One pixel: red, green, blue, alpha.
#[derive(Clone, Copy, Debug, PartialEq, Eq, Structural)]
pub struct Pixel {
    pub red: u8,
    pub green: u8,
    pub blue: u8,
    pub alpha: u8,
}

/// An image of `width * height` pixels of four bytes each.
#[derive(Debug)]
pub struct PixelBuffer {
    width: u32,
    height: u32,
    data: Vec<u8>,
}

impl View for PixelBuffer {
    type V = PixelModel;

    closed spec fn view(&self) -> PixelModel {
        PixelModel { width: self.width as int, height: self.height as int, bytes: self.data@ }
    }
}

impl PixelBuffer {
    /// What holds of every value of the type.
    #[verifier::type_invariant]
    pub open spec fn inv(self) -> bool {
        self@.valid()
    }

    /// The image of the given size over `data`, where `data` has four
    /// bytes for each pixel, and nothing otherwise.
    pub fn new(width: u32, height: u32, data: Vec<u8>) -> (b: Option<PixelBuffer>)
        ensures
            b.is_some() <==> data@.len() == width * height * 4,
            b matches Some(buffer) ==> buffer@ == (PixelModel {
                width: width as int,
                height: height as int,
                bytes: data@,
            }) && buffer@.valid(),
    {
        assert(0 <= width * height <= 0xffff_ffff * 0xffff_ffff) by (nonlinear_arith)
            requires
                0 <= width <= 0xffff_ffff,
                0 <= height <= 0xffff_ffff,
        ;
        let expected: u128 = (width as u128) * (height as u128) * 4;
        if data.len() as u128 == expected {
            Some(PixelBuffer { width, height, data })
        } else {
            None
        }
    }

    /// The number of columns.
    pub fn width(&self) -> (w: u32)
        ensures
            w == self@.width,
    {
        self.width
    }

    /// The number of rows.
    pub fn height(&self) -> (h: u32)
        ensures
            h == self@.height,
    {
        self.height
    }

    /// The bytes, row by row.
    pub fn data(&self) -> (d: &Vec<u8>)
        ensures
            d@ == self@.bytes,
            d@.len() == self@.width * self@.height * 4,
    {
        proof {
            use_type_invariant(self);
        }
        &self.data
    }

    /// The bytes, row by row, given up by the buffer.
    pub fn into_raw(self) -> (d: Vec<u8>)
        ensures
            d@ == self@.bytes,
    {
        self.data
    }

    /// Whether the image is exactly as large as `region`.
    pub fn covers(&self, region: &Region) -> (c: bool)
        ensures
            c == self@.covers(*region),
    {
        region.width >= 0 && region.height >= 0 && self.width as i64 == region.width as i64
            && self.height as i64 == region.height as i64
    }

    /// The pixel in column `x` of row `y`, where the image has one.
    pub fn pixel(&self, x: u32, y: u32) -> (p: Option<Pixel>)
        ensures
            p.is_some() <==> x < self@.width && y < self@.height,
            p matches Some(px) ==> {
                let at = self@.offset(x as int, y as int);
                &&& 0 <= at
                &&& at + 4 <= self@.bytes.len()
                &&& px == (Pixel {
                    red: self@.bytes[at],
                    green: self@.bytes[at + 1],
                    blue: self@.bytes[at + 2],
                    alpha: self@.bytes[at + 3],
                })
            },
    {
        proof {
            use_type_invariant(self);
        }
        if x < self.width && y < self.height {
            let held: usize = self.data.len();
            let ghost len = held as int;
            let ghost row = y as int * self.width as int;
            assert(len == self.width * self.height * 4);
            assert(0 <= row && (row + x) * 4 + 4 <= len) by (nonlinear_arith)
                requires
                    0 <= x < self.width,
                    0 <= y < self.height,
                    row == y * self.width,
                    len == self.width * self.height * 4,
            ;
            let start: usize = (y as usize) * (self.width as usize);
            let at: usize = (start + (x as usize)) * 4;
            assert(at == self@.offset(x as int, y as int));
            Some(
                Pixel {
                    red: self.data[at],
                    green: self.data[at + 1],
                    blue: self.data[at + 2],
                    alpha: self.data[at + 3],
                },
            )
        } else {
            None
        }
    }
}

} // verus!
