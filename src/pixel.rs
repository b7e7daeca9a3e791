use vstd::arithmetic::div_mod::lemma_fundamental_div_mod_converse;
use vstd::prelude::*;

use crate::error::DecodeWarning;

verus! {

/// The source index read for destination index `i` when a `width` x `height`
/// raster is turned 270 degrees into a `height` x `width` raster.
pub open spec fn rotate_270_source(i: int, width: int, height: int) -> int {
    (width - 1 - i / height) + (i % height) * width
}

/// The raster `s` (row-major, `width` x `height`) rotated 270 degrees: the
/// result is row-major, `height` wide and `width` tall.
pub open spec fn rotated_270(s: Seq<u32>, width: nat, height: nat) -> Seq<u32> {
    Seq::new(width * height, |i: int| s[rotate_270_source(i, width as int, height as int)])
}

/// Destination index `q * d + r` splits back into row `q` and column `r`.
proof fn lemma_split_index(x: int, d: int, q: int, r: int)
    requires
        d > 0,
        0 <= r < d,
        x == q * d + r,
    ensures
        x / d == q,
        x % d == r,
{
    lemma_fundamental_div_mod_converse(x, d, q, r);
}

/// Every destination index of a `width` x `height` rotation reads a source
/// index inside the raster.
proof fn lemma_source_in_bounds(i: int, width: int, height: int)
    requires
        width > 0,
        height > 0,
        0 <= i < width * height,
    ensures
        0 <= rotate_270_source(i, width, height) < width * height,
{
    let q = i / height;
    let r = i % height;
    vstd::arithmetic::div_mod::lemma_fundamental_div_mod(i, height);
    assert(0 <= q < width) by (nonlinear_arith)
        requires
            i == height * q + r,
            0 <= r < height,
            0 <= i < width * height,
            height > 0,
    ;
    assert(0 <= (width - 1 - q) + r * width < width * height) by (nonlinear_arith)
        requires
            0 <= q < width,
            0 <= r < height,
    ;
}

/// Two rotations, the second with width and height swapped, reverse the
/// raster: they amount to a half turn.
proof fn lemma_rotate_270_twice(s: Seq<u32>, width: nat, height: nat)
    requires
        s.len() == width * height,
    ensures
        rotated_270(rotated_270(s, width, height), height, width) =~= Seq::new(
            width * height,
            |i: int| s[width * height - 1 - i],
        ),
{
    let t = rotated_270(s, width, height);
    let u = rotated_270(t, height, width);
    assert(height * width == width * height) by (nonlinear_arith);
    assert forall|i: int| 0 <= i < width * height implies #[trigger] u[i] == s[width * height - 1 - i] by {
        let w = width as int;
        let h = height as int;
        assert(w > 0 && h > 0) by (nonlinear_arith)
            requires 0 <= i < w * h, w >= 0, h >= 0,
        ;
        let q = i / w;
        let r = i % w;
        vstd::arithmetic::div_mod::lemma_fundamental_div_mod(i, w);
        assert(0 <= q < h) by (nonlinear_arith)
            requires i == w * q + r, 0 <= r < w, 0 <= i < w * h, w > 0,
        ;
        let j = rotate_270_source(i, h, w);
        assert(j == r * h + (h - 1 - q));
        lemma_split_index(j, h, r, h - 1 - q);
        lemma_source_in_bounds(i, h, w);
        assert(h * w == w * h) by (nonlinear_arith);
        assert(rotate_270_source(j, w, h) == w * h - 1 - i) by (nonlinear_arith)
            requires
                rotate_270_source(j, w, h) == (w - 1 - r) + (h - 1 - q) * w,
                i == w * q + r,
        ;
    }
}

/// Four quarter turns, with width and height swapped at each step, give back
/// the raster they started from.
pub proof fn rotate_270_four_times_restores(s: Seq<u32>, width: nat, height: nat)
    requires
        s.len() == width * height,
    ensures
        rotated_270(
            rotated_270(rotated_270(rotated_270(s, width, height), height, width), width, height),
            height,
            width,
        ) == s,
{
    let half = rotated_270(rotated_270(s, width, height), height, width);
    lemma_rotate_270_twice(s, width, height);
    assert(half.len() == width * height);
    lemma_rotate_270_twice(half, width, height);
    let whole = rotated_270(rotated_270(half, width, height), height, width);
    assert(whole =~= s);
}

/// Turns a row-major `width` x `height` raster by 270 degrees. The source pixel
/// at column `x`, row `y` lands at index `y + (width - 1 - x) * height` of the
/// result, a row-major raster `height` wide and `width` tall.
pub fn rotate_270(buffer: &[u32], width: usize, height: usize) -> (r: Vec<u32>)
    requires
        buffer@.len() == width * height,
    ensures
        r@ == rotated_270(buffer@, width as nat, height as nat),
        forall|x: int, y: int|
            0 <= x < width && 0 <= y < height ==> #[trigger] r@[y + (width - 1 - x) * height]
                == buffer@[x + y * width],
{
    let mut rotated_buffer: Vec<u32> = Vec::with_capacity(buffer.len());
    let mut ry: usize = 0;
    while ry < width
        invariant
            buffer@.len() == width * height,
            width * height <= usize::MAX,
            ry <= width,
            rotated_buffer@.len() == ry * height,
            forall|k: int|
                0 <= k < rotated_buffer@.len() ==> #[trigger] rotated_buffer@[k] == buffer@[rotate_270_source(k, width as int, height as int)],
        decreases width - ry,
    {
        let mut rx: usize = 0;
        while rx < height
            invariant
                buffer@.len() == width * height,
                width * height <= usize::MAX,
            width * height <= usize::MAX,
                ry < width,
                rx <= height,
                rotated_buffer@.len() == ry * height + rx,
                forall|k: int|
                    0 <= k < rotated_buffer@.len() ==> #[trigger] rotated_buffer@[k] == buffer@[rotate_270_source(k, width as int, height as int)],
            decreases height - rx,
        {
            proof {
                let k = ry * height + rx;
                assert(ry * height + rx < width * height) by (nonlinear_arith)
                    requires ry < width, rx < height,
                ;
                assert(rx * width + width <= width * height) by (nonlinear_arith)
                    requires rx < height,
                ;
                lemma_split_index(k, height as int, ry as int, rx as int);
                lemma_source_in_bounds(k, width as int, height as int);
            }
            let src = (width - 1 - ry) + rx * width;
            rotated_buffer.push(buffer[src]);
            rx = rx + 1;
        }
        proof {
            assert((ry + 1) * height == ry * height + height) by (nonlinear_arith);
        }
        ry = ry + 1;
    }
    proof {
        assert(rotated_buffer@ =~= rotated_270(buffer@, width as nat, height as nat));
        assert forall|x: int, y: int| 0 <= x < width && 0 <= y < height implies #[trigger] rotated_buffer@[y + (width - 1 - x) * height]
                == buffer@[x + y * width] by {
            let k = y + (width - 1 - x) * height;
            assert(x + y * width < width * height) by (nonlinear_arith)
                requires 0 <= x < width, 0 <= y < height,
            ;
            lemma_split_index(k, height as int, width - 1 - x, y);
            assert(k < width * height) by (nonlinear_arith)
                requires k == y + (width - 1 - x) * height, 0 <= x < width, 0 <= y < height,
            ;
        }
    }
    rotated_buffer
}

/// A display pixel: full opacity in the top byte, then red, green and blue.
pub open spec fn packed_pixel(r: u8, g: u8, b: u8) -> u32 {
    (0xff00_0000 + r * 0x1_0000 + g * 0x100 + b) as u32
}

/// The pixels of a packed RGB24 run: one for each complete 3-byte group.
pub open spec fn pixels_of(bytes: Seq<u8>) -> Seq<u32> {
    Seq::new(bytes.len() / 3, |i: int| packed_pixel(bytes[3 * i], bytes[3 * i + 1], bytes[3 * i + 2]))
}

/// Packs one red, green, blue triple with full opacity.
pub fn pack_pixel(r: u8, g: u8, b: u8) -> (px: u32)
    ensures
        px == packed_pixel(r, g, b),
        px >> 24 == 0xff,
        (px >> 16) & 0xff == r,
        (px >> 8) & 0xff == g,
        px & 0xff == b,
{
    let alpha: u32 = 255;
    let (r32, g32, b32) = (r as u32, g as u32, b as u32);
    let px = (alpha << 24) | (r32 << 16) | (g32 << 8) | b32;
    assert(px == 0xff00_0000 + r32 * 0x1_0000 + g32 * 0x100 + b32
        && px >> 24 == 0xff && (px >> 16) & 0xff == r32 && (px >> 8) & 0xff == g32 && px & 0xff == b32)
        by (bit_vector)
        requires
            px == (alpha << 24) | (r32 << 16) | (g32 << 8) | b32,
            alpha == 255,
            r32 < 256,
            g32 < 256,
            b32 < 256,
    ;
    px
}

/// Converts an RGB24 byte run into display pixels, one per complete 3-byte
/// group. An incomplete trailing group is dropped and reported as a warning.
pub fn u8_to_u32(u8_buffer: &[u8]) -> (r: (Vec<u32>, Option<DecodeWarning>))
    ensures
        r.0@ == pixels_of(u8_buffer@),
        r.1 == (if u8_buffer@.len() % 3 == 0 {
            None
        } else {
            Some(DecodeWarning::IncompletePixel { dropped: (u8_buffer@.len() % 3) as usize })
        }),
{
    let n = u8_buffer.len();
    let count = n / 3;
    let mut u32_buffer: Vec<u32> = Vec::with_capacity(count);
    let mut i: usize = 0;
    while i < count
        invariant
            n == u8_buffer@.len(),
            count == n / 3,
            i <= count,
            u32_buffer@ =~= pixels_of(u8_buffer@).take(i as int),
        decreases count - i,
    {
        let px = pack_pixel(u8_buffer[3 * i], u8_buffer[3 * i + 1], u8_buffer[3 * i + 2]);
        u32_buffer.push(px);
        i = i + 1;
    }
    let warning = if n % 3 == 0 {
        None
    } else {
        Some(DecodeWarning::IncompletePixel { dropped: n % 3 })
    };
    (u32_buffer, warning)
}

} // verus!
