//! Pixel encoding and framebuffer layout: three 8-bit channels packed into
//! one `0RGB` word, and the slot of each pixel in the buffer.
use vstd::prelude::*;

verus! {

/// The packed value of a color: red in bits 16..24, green in bits 8..16,
/// blue in bits 0..8, and a zero top byte.
pub open spec fn argb_of(r: u8, g: u8, b: u8) -> nat {
    (r as nat) * 0x10000 + (g as nat) * 0x100 + (b as nat)
}

/// Packs three channel bytes into a `0RGB` word, the layout a framebuffer
/// of 32-bit pixels expects.
pub fn vec_to_color(r: u8, g: u8, b: u8) -> (c: u32)
    ensures
        c == argb_of(r, g, b),
        c < 0x100_0000,
        (c >> 16) & 0xff == r as u32,
        (c >> 8) & 0xff == g as u32,
        c & 0xff == b as u32,
{
    let (r32, g32, b32) = (r as u32, g as u32, b as u32);
    let c = (0u32 << 24) | (r32 << 16) | (g32 << 8) | b32;
    assert(c == r32 * 0x10000 + g32 * 0x100 + b32
        && c < 0x100_0000
        && (c >> 16) & 0xff == r32
        && (c >> 8) & 0xff == g32
        && c & 0xff == b32) by (bit_vector)
        requires
            r32 < 256 && g32 < 256 && b32 < 256,
            c == (0u32 << 24) | (r32 << 16) | (g32 << 8) | b32,
    ;
    c
}

/// The framebuffer slot of pixel `(x, y)`, where `y` counts rows from the
/// bottom of the image and the buffer stores rows from the top.
pub open spec fn slot_of(x: nat, y: nat, width: nat, height: nat) -> nat {
    ((height - 1 - y) * width + x) as nat
}

/// Returns the index in a row-major framebuffer of `width * height` pixels,
/// top row first, of the pixel at column `x` and row `y` counted from the
/// bottom.
pub fn pixel_index(x: usize, y: usize, width: usize, height: usize) -> (i: usize)
    requires
        x < width,
        y < height,
        width * height <= usize::MAX,
    ensures
        i == slot_of(x as nat, y as nat, width as nat, height as nat),
        i < width * height,
{
    let row: usize = height - 1 - y;
    assert(row * width + x < width * height) by (nonlinear_arith)
        requires
            row < height,
            x < width,
    ;
    row * width + x
}

} // verus!
