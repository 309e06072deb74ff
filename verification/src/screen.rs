//! Turning the display buffer into pixels to paint.
use vstd::prelude::*;

verus! {

/// Width of the window the display is painted in.
pub const WINDOW_WIDTH: u32 = 640;

/// Height of the window the display is painted in.
pub const WINDOW_HEIGHT: u32 = 320;

/// Width of one display pixel in the window.
pub const X_SCALE: u32 = WINDOW_WIDTH / 64;

/// Height of one display pixel in the window.
pub const Y_SCALE: u32 = WINDOW_HEIGHT / 32;

/// One display pixel: the top-left corner of its rectangle in the window,
/// and whether it is lit.
#[derive(PartialEq, Eq, Structural, Clone, Copy, Debug)]
pub struct Pixel {
    pub x: i32,
    pub y: i32,
    pub on: bool,
}

/// The `k`-th pixel painted: rows top to bottom, in each row the eight
/// bytes left to right, in each byte the bits from least significant up;
/// the most significant bit of a byte is its leftmost pixel.
pub open spec fn pixel_spec(screen: Seq<u8>, k: int) -> Pixel {
    let row = k / 64;
    let col = (k / 8) % 8;
    let bit = k % 8;
    let byte = screen[row * 8 + col];
    Pixel {
        x: ((col * 8 + 7 - bit) * 10) as i32,
        y: (row * 10) as i32,
        on: ((byte >> (bit as u8)) & 1) != 0,
    }
}

/// The 2048 pixels of the 64 x 32 display held in the first 256 bytes of `screen`.
pub fn screen_pixels(screen: &[u8]) -> (pixels: Vec<Pixel>)
    requires
        screen@.len() >= 256,
    ensures
        pixels@.len() == 2048,
        forall|k: int| 0 <= k < 2048 ==> #[trigger] pixels@[k] == pixel_spec(screen@, k),
{
    let mut pixels: Vec<Pixel> = Vec::new();
    let mut k: usize = 0;
    while k < 2048
        invariant
            screen@.len() >= 256,
            k <= 2048,
            pixels@.len() == k,
            forall|j: int| 0 <= j < k ==> #[trigger] pixels@[j] == pixel_spec(screen@, j),
        decreases 2048 - k,
    {
        let row: usize = k / 64;
        let col: usize = (k / 8) % 8;
        let bit: u8 = (k % 8) as u8;
        let byte: u8 = screen[(row * 8) + col];
        let on = ((byte >> bit) & 1) != 0;
        let x: i32 = ((col * 8 + 7 - bit as usize) * X_SCALE as usize) as i32;
        let y: i32 = (row * Y_SCALE as usize) as i32;
        pixels.push(Pixel { x, y, on });
        k = k + 1;
    }
    pixels
}

} // verus!
