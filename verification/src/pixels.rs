use vstd::prelude::*;

verus! {

/// An RGBA pixel as a 0x00RRGGBB word.
pub open spec fn rgb_word(r: u8, g: u8, b: u8) -> u32 {
    (r * 0x10000 + g * 0x100 + b) as u32
}

/// Rearranges the RGBA bytes read back from the GPU into 0x00RRGGBB words,
/// one per pixel, as far as both buffers reach; alpha is dropped and the
/// rest of `out` is kept.
pub fn pack_rgba_pixels(pixels: &[u8], out: &mut [u32])
    ensures
        final(out)@.len() == old(out)@.len(),
        forall|i: int|
            0 <= i < old(out)@.len() ==> #[trigger] final(out)@[i] == if i < pixels@.len() / 4 {
                rgb_word(pixels@[4 * i], pixels@[4 * i + 1], pixels@[4 * i + 2])
            } else {
                old(out)@[i]
            },
{
    let count = if out.len() < pixels.len() / 4 {
        out.len()
    } else {
        pixels.len() / 4
    };
    let mut i: usize = 0;
    while i < count
        invariant
            count <= out@.len(),
            count <= pixels@.len() / 4,
            i <= count,
            pixels@.len() <= usize::MAX,
            out@.len() == old(out)@.len(),
            forall|k: int|
                0 <= k < out@.len() ==> #[trigger] out@[k] == if k < i {
                    rgb_word(pixels@[4 * k], pixels@[4 * k + 1], pixels@[4 * k + 2])
                } else {
                    old(out)@[k]
                },
        decreases count - i,
    {
        assert(4 * i + 3 < pixels@.len());
        let r = pixels[4 * i] as u32;
        let g = pixels[4 * i + 1] as u32;
        let b = pixels[4 * i + 2] as u32;
        // RGBA bytes to 0x00RRGGBB
        out[i] = r * 0x10000 + g * 0x100 + b;
        i = i + 1;
    }
}

} // verus!
