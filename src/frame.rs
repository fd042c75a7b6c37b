//! The finished image: `width * height` pixel words, row-major, top row first.
use vstd::prelude::*;
use crate::color::{pack_rgba, rgba_word};

verus! {

/// Where pixel `(x, y)` stands in the frame buffer.
pub fn pixel_index(x: usize, y: usize, width: usize, height: usize) -> (i: usize)
    requires
        x < width,
        y < height,
        width * height <= usize::MAX,
    ensures
        i == y * width + x,
        i < width * height,
{
    proof {
        assert(y * width + x < width * height) by (nonlinear_arith)
            requires x < width, y < height;
    }
    y * width + x
}

/// Packs the quantized channels of every pixel, in order, into the frame buffer.
pub fn pack_frame(pixels: &Vec<(u8, u8, u8)>) -> (frame: Vec<u32>)
    ensures
        frame.len() == pixels.len(),
        forall|i: int| 0 <= i < pixels.len() ==> frame[i] as int
            == rgba_word(pixels[i].0, pixels[i].1, pixels[i].2),
{
    let mut frame: Vec<u32> = Vec::with_capacity(pixels.len());
    let mut i: usize = 0;
    while i < pixels.len()
        invariant
            i <= pixels.len(),
            frame.len() == i,
            forall|m: int| 0 <= m < i ==> frame[m] as int
                == rgba_word(pixels[m].0, pixels[m].1, pixels[m].2),
        decreases pixels.len() - i,
    {
        let (r, g, b) = pixels[i];
        frame.push(pack_rgba(r, g, b));
        i = i + 1;
    }
    frame
}

} // verus!
