//! Pixel words: three 8-bit channels and an opaque alpha in one `u32`.
use vstd::prelude::*;

verus! {

/// The 32-bit word that holds an opaque pixel: `A << 24 | B << 16 | G << 8 | R`, alpha 255.
pub open spec fn rgba_word(r: u8, g: u8, b: u8) -> int {
    255 * 0x100_0000 + b * 0x1_0000 + g * 0x100 + r
}

/// Packs three 8-bit channels into one opaque pixel word.
pub fn pack_rgba(r: u8, g: u8, b: u8) -> (w: u32)
    ensures
        w as int == rgba_word(r, g, b),
{
    let w: u32 = (255u32 << 24u32) | ((b as u32) << 16u32) | ((g as u32) << 8u32) | (r as u32);
    assert(w == 255u32 * 0x100_0000u32 + (b as u32) * 0x1_0000u32 + (g as u32) * 0x100u32 + (r as u32)) by (bit_vector)
        requires
            w == (255u32 << 24u32) | ((b as u32) << 16u32) | ((g as u32) << 8u32) | (r as u32),
            (r as u32) < 256, (g as u32) < 256, (b as u32) < 256,
    ;
    w
}

/// The channel of a pixel word that starts at bit `8 * k` (red, green, blue, alpha for `k` = 0..3).
pub open spec fn channel_of(w: u32, k: nat) -> int {
    (w as int / pow256(k)) % 256
}

pub open spec fn pow256(k: nat) -> int
    decreases k,
{
    if k == 0 { 1 } else { 256 * pow256((k - 1) as nat) }
}

/// Splits a pixel word into its red, green, blue and alpha channels.
pub fn unpack_rgba(w: u32) -> (c: (u8, u8, u8, u8))
    ensures
        c.0 as int == channel_of(w, 0),
        c.1 as int == channel_of(w, 1),
        c.2 as int == channel_of(w, 2),
        c.3 as int == channel_of(w, 3),
{
    reveal_with_fuel(pow256, 4);
    let r: u32 = w & 0xff;
    let g: u32 = (w >> 8u32) & 0xff;
    let b: u32 = (w >> 16u32) & 0xff;
    let a: u32 = w >> 24u32;
    assert(r == w % 0x100 && g == (w / 0x100) % 0x100 && b == (w / 0x1_0000) % 0x100
        && a == (w / 0x100_0000) % 0x100) by (bit_vector)
        requires
            r == w & 0xff,
            g == (w >> 8u32) & 0xff,
            b == (w >> 16u32) & 0xff,
            a == w >> 24u32,
    ;
    (r as u8, g as u8, b as u8, a as u8)
}

/// Unpacking a packed pixel gives back each channel exactly, with alpha 255.
pub proof fn lemma_pack_unpack(r: u8, g: u8, b: u8)
    ensures
        0 <= rgba_word(r, g, b) < 0x1_0000_0000,
        channel_of(rgba_word(r, g, b) as u32, 0) == r,
        channel_of(rgba_word(r, g, b) as u32, 1) == g,
        channel_of(rgba_word(r, g, b) as u32, 2) == b,
        channel_of(rgba_word(r, g, b) as u32, 3) == 255,
{
    reveal_with_fuel(pow256, 4);
    let w = rgba_word(r, g, b);
    assert(w / 0x100 == 255 * 0x1_0000 + b * 0x100 + g) by (nonlinear_arith)
        requires w == 255 * 0x100_0000 + b * 0x1_0000 + g * 0x100 + r, 0 <= r < 256;
    assert(w / 0x1_0000 == 255 * 0x100 + b) by (nonlinear_arith)
        requires w == 255 * 0x100_0000 + b * 0x1_0000 + g * 0x100 + r, 0 <= r < 256, 0 <= g < 256;
    assert(w / 0x100_0000 == 255) by (nonlinear_arith)
        requires w == 255 * 0x100_0000 + b * 0x1_0000 + g * 0x100 + r, 0 <= r < 256, 0 <= g < 256,
            0 <= b < 256;
}

} // verus!
