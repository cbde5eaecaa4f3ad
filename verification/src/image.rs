//! From rendered colours to the pixels of an image file.
use vstd::prelude::*;
use crate::color::{byte_spec, Color};

verus! {

/// The pixel of a colour: the byte of each channel.
pub open spec fn pixel_spec(color: Color) -> Seq<int> {
    seq![byte_spec(color@[0]), byte_spec(color@[1]), byte_spec(color@[2])]
}

/// The pixels of gamma-corrected colours, one for each and in their order.
pub fn to_pixels(data: &Vec<Color>) -> (pixels: Vec<[u8; 3]>)
    ensures
        pixels@.len() == data@.len(),
        forall|i: int, c: int|
            0 <= i < data@.len() && 0 <= c < 3 ==> (#[trigger] pixels@[i][c]) as int == pixel_spec(
                data@[i],
            )[c],
{
    let mut pixels: Vec<[u8; 3]> = Vec::new();
    let mut i: usize = 0;
    while i < data.len()
        invariant
            i <= data.len(),
            pixels@.len() == i,
            forall|k: int, c: int|
                0 <= k < i && 0 <= c < 3 ==> (#[trigger] pixels@[k][c]) as int == pixel_spec(
                    data@[k],
                )[c],
        decreases data.len() - i,
    {
        pixels.push(data[i].to_rgb24());
        i = i + 1;
    }
    pixels
}

} // verus!
