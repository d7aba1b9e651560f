//! The gradient: what each byte of a filled frame holds, and the fill itself.
use vstd::prelude::*;

verus! {

/// Blue byte of every pixel: half of full scale, truncated.
pub const BLUE: u8 = 127;

/// Alpha byte of every pixel: fully opaque.
pub const ALPHA: u8 = 255;

/// The 8-bit value of the channel `coord / height`: `floor(255 * coord / height)`,
/// saturated at 255 where `coord` exceeds `height`.
pub open spec fn channel(coord: int, height: int) -> int {
    if 255 * coord / height > 255 {
        255
    } else {
        255 * coord / height
    }
}

/// Byte `k` of a gradient frame `width` pixels wide and `height` pixels high.
/// Pixel `k / 4` sits at column `x` and row `y`; its bytes are red, green,
/// blue and alpha in that order. Both coordinates are scaled by the height.
pub open spec fn gradient_byte(k: int, width: int, height: int) -> u8 {
    let i = k / 4;
    let x = i % width;
    let y = i / width;
    if k % 4 == 0 {
        channel(x, height) as u8
    } else if k % 4 == 1 {
        channel(y, height) as u8
    } else if k % 4 == 2 {
        BLUE
    } else {
        ALPHA
    }
}

/// The bytes of a gradient frame: four for each of the `width * height` pixels.
pub open spec fn gradient(width: int, height: int) -> Seq<u8> {
    Seq::new((4 * width * height) as nat, |k: int| gradient_byte(k, width, height))
}

/// The red, green, blue and alpha bytes of pixel `i`.
pub open spec fn pixel_at(bytes: Seq<u8>, i: int) -> (u8, u8, u8, u8) {
    (bytes[4 * i], bytes[4 * i + 1], bytes[4 * i + 2], bytes[4 * i + 3])
}

/// The byte for the channel `coord / height`.
pub fn channel_byte(coord: u32, height: u32) -> (r: u8)
    requires
        height > 0,
    ensures
        r == channel(coord as int, height as int),
{
    let v: u64 = 255 * (coord as u64) / (height as u64);
    if v > 255 {
        255
    } else {
        v as u8
    }
}

proof fn lemma_pixel_in_frame(i: int, width: int, height: int)
    requires
        0 <= i < width * height,
        0 <= width,
        0 <= height,
    ensures
        width > 0,
        height > 0,
        0 <= i % width < width,
        0 <= i / width < height,
{
    assert(width > 0 && height > 0) by (nonlinear_arith)
        requires
            0 <= i < width * height,
            0 <= width,
            0 <= height,
    ;
    assert(0 <= i / width < height) by (nonlinear_arith)
        requires
            0 <= i < width * height,
            width > 0,
    ;
}

/// Overwrites every byte of `buf` with the gradient of a `width` by `height`
/// frame.
pub fn fill_gradient(buf: &mut Vec<u8>, width: u32, height: u32)
    requires
        old(buf).len() == 4 * width * height,
    ensures
        final(buf)@ == gradient(width as int, height as int),
{
    proof {
        assert(4 * width * height == 4 * (width * height)) by (nonlinear_arith);
    }
    let n: usize = buf.len() / 4;
    let w: usize = width as usize;
    let mut i: usize = 0;
    while i < n
        invariant
            n == width * height,
            buf.len() == 4 * n,
            w == width,
            i <= n,
            forall|k: int|
                0 <= k < 4 * i ==> #[trigger] buf@[k] == gradient_byte(k, width as int, height as int),
        decreases n - i,
    {
        proof {
            lemma_pixel_in_frame(i as int, width as int, height as int);
        }
        let x: u32 = (i % w) as u32;
        let y: u32 = (i / w) as u32;
        let red = channel_byte(x, height);
        let green = channel_byte(y, height);
        buf.set(4 * i, red);
        buf.set(4 * i + 1, green);
        buf.set(4 * i + 2, BLUE);
        buf.set(4 * i + 3, ALPHA);
        proof {
            assert forall|k: int| 0 <= k < 4 * (i + 1) implies #[trigger] buf@[k] == gradient_byte(
                k,
                width as int,
                height as int,
            ) by {
                if k >= 4 * i {
                    assert(k / 4 == i as int);
                }
            }
        }
        i = i + 1;
    }
    assert(buf@ =~= gradient(width as int, height as int));
}

proof fn lemma_pixel_bytes(width: int, height: int, i: int)
    requires
        width > 0,
        height > 0,
        0 <= i < width * height,
    ensures
        pixel_at(gradient(width, height), i) == (
            channel(i % width, height) as u8,
            channel(i / width, height) as u8,
            BLUE,
            ALPHA,
        ),
{
    assert(4 * width * height == 4 * (width * height)) by (nonlinear_arith);
    let g = gradient(width, height);
    assert((4 * i) / 4 == i && (4 * i) % 4 == 0);
    assert((4 * i + 1) / 4 == i && (4 * i + 1) % 4 == 1);
    assert((4 * i + 2) / 4 == i && (4 * i + 2) % 4 == 2);
    assert((4 * i + 3) / 4 == i && (4 * i + 3) % 4 == 3);
    assert(g[4 * i] == channel(i % width, height) as u8);
    assert(g[4 * i + 1] == channel(i / width, height) as u8);
    assert(g[4 * i + 2] == BLUE);
    assert(g[4 * i + 3] == ALPHA);
}

/// A filled frame of positive size holds four bytes for each pixel, and the
/// alpha byte of every pixel is 255.
pub proof fn lemma_filled_frame_is_opaque(width: int, height: int)
    requires
        width > 0,
        height > 0,
    ensures
        gradient(width, height).len() == 4 * width * height,
        forall|i: int|
            0 <= i < width * height ==> (#[trigger] pixel_at(gradient(width, height), i)).3 == 255,
{
    assert forall|i: int| 0 <= i < width * height implies (#[trigger] pixel_at(
        gradient(width, height),
        i,
    )).3 == 255 by {
        lemma_pixel_bytes(width, height, i);
    }
}

/// Where neither coordinate of pixel `i` exceeds the height, its red byte is
/// `floor(255 * x / height)`, its green byte `floor(255 * y / height)`, and its
/// blue byte 127, with `x = i % width` and `y = i / width`.
pub proof fn lemma_unsaturated_channels(width: int, height: int, i: int)
    requires
        width > 0,
        height > 0,
        0 <= i < width * height,
        i % width <= height,
        i / width <= height,
    ensures
        pixel_at(gradient(width, height), i).0 == 255 * (i % width) / height,
        pixel_at(gradient(width, height), i).1 == 255 * (i / width) / height,
        pixel_at(gradient(width, height), i).2 == 127,
{
    lemma_pixel_bytes(width, height, i);
    let x = i % width;
    let y = i / width;
    assert(0 <= x);
    assert(0 <= y) by (nonlinear_arith)
        requires
            0 <= i,
            width > 0,
            y == i / width,
    ;
    assert(0 <= 255 * x / height <= 255) by (nonlinear_arith)
        requires
            0 <= x <= height,
            height > 0,
    ;
    assert(0 <= 255 * y / height <= 255) by (nonlinear_arith)
        requires
            0 <= y <= height,
            height > 0,
    ;
}

} // verus!
