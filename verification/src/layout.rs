//! Row-alignment arithmetic for GPU buffer readback.
//!
//! A texture is read back into a staging buffer whose rows must start at
//! offsets that are multiples of a hardware alignment boundary (256 bytes),
//! while the image's natural row size is `4 * width` bytes (RGBA8). This
//! module computes the padded row stride and the staging-buffer size, and
//! strips the padding from a mapped buffer to recover the tightly packed
//! pixel bytes.

use vstd::arithmetic::div_mod::{
    lemma_fundamental_div_mod, lemma_fundamental_div_mod_converse,
};
use vstd::arithmetic::mul::lemma_mul_inequality;
use vstd::prelude::*;

verus! {

/// `x` rounded up to the next multiple of 256.
pub open spec fn spec_align_to_256(x: int) -> int {
    ((x + 255) / 256) * 256
}

/// Rounding up to a multiple of 256 yields a multiple of 256 that is at
/// least `x` and less than `x + 256`; applying it twice changes nothing.
pub proof fn lemma_align_to_256_properties(x: int)
    requires
        0 <= x,
    ensures
        spec_align_to_256(x) % 256 == 0,
        x <= spec_align_to_256(x),
        spec_align_to_256(x) - x < 256,
        spec_align_to_256(spec_align_to_256(x)) == spec_align_to_256(x),
{
    let q = (x + 255) / 256;
    let r = (x + 255) % 256;
    lemma_fundamental_div_mod(x + 255, 256);
    assert(x + 255 == 256 * q + r);
    lemma_fundamental_div_mod_converse(q * 256, 256, q, 0);
    assert(spec_align_to_256(x) % 256 == 0);
    lemma_fundamental_div_mod_converse(q * 256 + 255, 256, q, 255);
    assert(spec_align_to_256(spec_align_to_256(x)) == spec_align_to_256(x));
}

/// Round `x` up to the next multiple of 256 bytes.
pub fn align_to_256(x: u32) -> (r: u32)
    requires
        x + 255 <= u32::MAX,
    ensures
        r == spec_align_to_256(x as int),
        r % 256 == 0,
        x <= r < x + 256,
{
    proof {
        lemma_align_to_256_properties(x as int);
    }
    ((x + 255) / 256) * 256
}

/// The natural (unpadded) byte size of one RGBA8 row.
pub open spec fn spec_unpadded_row_bytes(width: u32) -> int {
    4 * width
}

/// The byte stride of one row in a readback staging buffer.
pub open spec fn spec_padded_row_bytes(width: u32) -> int {
    spec_align_to_256(4 * width)
}

/// Byte `k` of the packed pixels recovered from a row-padded buffer:
/// byte `k % (4 * width)` of padded row `k / (4 * width)`.
pub open spec fn spec_strip_byte(data: Seq<u8>, width: u32, k: int) -> u8
    recommends
        1 <= width,
{
    data[(k / spec_unpadded_row_bytes(width)) * spec_padded_row_bytes(width) + k
        % spec_unpadded_row_bytes(width)]
}

/// The tightly packed pixel bytes of the first `height` rows of a
/// row-padded buffer.
pub open spec fn spec_strip_rows(data: Seq<u8>, width: u32, height: int) -> Seq<u8>
    recommends
        1 <= width,
        0 <= height,
{
    Seq::new((4 * width * height) as nat, |k: int| spec_strip_byte(data, width, k))
}

/// A tightly packed pixel buffer laid out with row-aligned padding: each
/// row of `4 * width` pixel bytes is followed by zero bytes up to the
/// padded stride.
pub open spec fn spec_pad_rows(pixels: Seq<u8>, width: u32, height: u32) -> Seq<u8>
    recommends
        1 <= width,
{
    Seq::new(
        (spec_padded_row_bytes(width) * height) as nat,
        |j: int|
            if j % spec_padded_row_bytes(width) < spec_unpadded_row_bytes(width) {
                pixels[(j / spec_padded_row_bytes(width)) * spec_unpadded_row_bytes(width) + j
                    % spec_padded_row_bytes(width)]
            } else {
                0u8
            },
    )
}

/// Taking one more row appends exactly the unpadded prefix of that row.
proof fn lemma_strip_rows_step(data: Seq<u8>, width: u32, y: int)
    requires
        1 <= width,
        0 <= y,
        y * spec_padded_row_bytes(width) + spec_unpadded_row_bytes(width) <= data.len(),
    ensures
        spec_strip_rows(data, width, y + 1) == spec_strip_rows(data, width, y) + data.subrange(
            y * spec_padded_row_bytes(width),
            y * spec_padded_row_bytes(width) + spec_unpadded_row_bytes(width),
        ),
{
    let rl = spec_unpadded_row_bytes(width);
    let pd = spec_padded_row_bytes(width);
    let prev = spec_strip_rows(data, width, y);
    let row = data.subrange(y * pd, y * pd + rl);
    assert(4 * width * (y + 1) == y * rl + rl && 4 * width * y == y * rl && 0 <= y * rl)
        by (nonlinear_arith)
        requires
            rl == 4 * width,
            0 <= y,
            1 <= width,
    ;
    assert(spec_strip_rows(data, width, y + 1) =~= prev + row) by {
        assert forall|k: int| 0 <= k < 4 * width * (y + 1) implies spec_strip_byte(data, width, k)
            == (prev + row)[k] by {
            if k < 4 * width * y {
            } else {
                let ii = k - y * rl;
                lemma_fundamental_div_mod_converse(k, rl, y, ii);
            }
        };
    };
}

/// Compute the padded row stride for an RGBA8 row of `width` pixels.
pub fn padded_bytes_per_row(width: u32) -> (r: u32)
    requires
        4 * width + 255 <= u32::MAX,
    ensures
        r == spec_padded_row_bytes(width),
        4 * width <= r,
{
    align_to_256(4 * width)
}

/// The byte size of the staging buffer for a `width` x `height` readback.
pub fn staging_buffer_size(width: u32, height: u32) -> (r: u64)
    requires
        4 * width + 255 <= u32::MAX,
    ensures
        r == spec_padded_row_bytes(width) * height,
{
    let padded = padded_bytes_per_row(width);
    proof {
        lemma_mul_inequality(padded as int, u32::MAX as int, height as int);
        lemma_mul_inequality(height as int, u32::MAX as int, u32::MAX as int);
    }
    (padded as u64) * (height as u64)
}

/// Walk `height` rows of a mapped staging buffer, keeping only the first
/// `4 * width` bytes of each `padded`-byte row, and return the tightly
/// packed pixel bytes.
pub fn strip_row_padding(data: &Vec<u8>, width: u32, height: u32) -> (r: Vec<u8>)
    requires
        1 <= width,
        4 * width + 255 <= u32::MAX,
        data@.len() == spec_padded_row_bytes(width) * height,
        4 * width * height <= usize::MAX,
    ensures
        r@.len() == 4 * width * height,
        r@ == spec_strip_rows(data@, width, height as int),
{
    let row_len: usize = (4 * width) as usize;
    let padded: usize = padded_bytes_per_row(width) as usize;
    let dlen: usize = data.len();
    let ghost rl = spec_unpadded_row_bytes(width);
    let ghost pd = spec_padded_row_bytes(width);
    let mut out: Vec<u8> = Vec::new();
    let mut y: u32 = 0;
    while y < height
        invariant
            0 <= y <= height,
            1 <= width,
            rl == spec_unpadded_row_bytes(width),
            pd == spec_padded_row_bytes(width),
            row_len == rl,
            padded == pd,
            rl <= pd,
            dlen == data@.len(),
            data@.len() == pd * height,
            4 * width * height <= usize::MAX,
            out@ == spec_strip_rows(data@, width, y as int),
            out@.len() == 4 * width * y,
        decreases height - y,
    {
        proof {
            assert((y + 1) * pd <= height * pd && height * pd == pd * height) by (nonlinear_arith)
                requires
                    y < height,
                    0 <= pd,
            ;
            assert((y + 1) * pd == y * pd + pd) by (nonlinear_arith);
            assert((y + 1) * rl <= height * rl && height * rl == 4 * width * height)
                by (nonlinear_arith)
                requires
                    y < height,
                    0 <= rl,
                    rl == 4 * width,
            ;
            assert((y + 1) * rl == y * rl + rl) by (nonlinear_arith);
            assert(4 * width * y == y * rl) by (nonlinear_arith)
                requires
                    rl == 4 * width,
            ;
        }
        let row_start: usize = (y as usize) * padded;
        let mut i: usize = 0;
        while i < row_len
            invariant
                0 <= i <= row_len,
                0 <= y < height,
                1 <= width,
                rl == spec_unpadded_row_bytes(width),
                pd == spec_padded_row_bytes(width),
                row_len == rl,
                padded == pd,
                row_start == y * pd,
                rl <= pd,
                y * pd + pd <= data@.len(),
                dlen == data@.len(),
                4 * width * y + rl <= usize::MAX,
                out@ == spec_strip_rows(data@, width, y as int) + data@.subrange(
                    y * pd,
                    y * pd + i,
                ),
                out@.len() == 4 * width * y + i,
            decreases row_len - i,
        {
            out.push(data[row_start + i]);
            proof {
                assert(spec_strip_rows(data@, width, y as int) + data@.subrange(
                    y as int * pd,
                    y as int * pd + i + 1,
                ) =~= (spec_strip_rows(data@, width, y as int) + data@.subrange(
                    y as int * pd,
                    y as int * pd + i,
                )).push(data@[y as int * pd + i]));
            }
            i = i + 1;
        }
        proof {
            lemma_strip_rows_step(data@, width, y as int);
        }
        y = y + 1;
    }
    out
}

/// Stripping the row padding from a padded layout of a packed pixel buffer
/// recovers that buffer exactly: no row is shifted and no byte of padding
/// leaks into the output.
pub proof fn lemma_strip_of_padded_rows(pixels: Seq<u8>, width: u32, height: u32)
    requires
        1 <= width,
        pixels.len() == 4 * width * height,
    ensures
        spec_strip_rows(spec_pad_rows(pixels, width, height), width, height as int) == pixels,
{
    let rl = spec_unpadded_row_bytes(width);
    let pd = spec_padded_row_bytes(width);
    let padded = spec_pad_rows(pixels, width, height);
    lemma_align_to_256_properties(4 * width);
    assert(spec_strip_rows(padded, width, height as int) =~= pixels) by {
        assert forall|k: int| 0 <= k < pixels.len() implies spec_strip_byte(padded, width, k)
            == pixels[k] by {
            let yy = k / rl;
            let ii = k % rl;
            lemma_fundamental_div_mod(k, rl);
            vstd::arithmetic::div_mod::lemma_mod_bound(k, rl);
            vstd::arithmetic::div_mod::lemma_div_pos_is_pos(k, rl);
            assert(yy < height) by {
                if yy >= height {
                    assert(rl * yy + ii >= 4 * width * height) by (nonlinear_arith)
                        requires
                            yy >= height,
                            0 <= ii,
                            rl == 4 * width,
                            0 <= height,
                    ;
                }
            };
            let j = yy * pd + ii;
            assert(0 <= yy * pd + ii && yy * pd + ii < pd * height) by (nonlinear_arith)
                requires
                    0 <= yy < height,
                    0 <= ii < rl <= pd,
            ;
            lemma_fundamental_div_mod_converse(j, pd, yy, ii);
            assert(padded[j] == pixels[yy * rl + ii]);
            assert(yy * rl + ii == k) by (nonlinear_arith)
                requires
                    k == rl * yy + ii,
            ;
        };
    };
}

} // verus!
