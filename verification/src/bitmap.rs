//! Decoded raster images held in CPU memory.
//!
//! A `Bitmap` is an immutable, already-decoded image: a width, a height and
//! the pixel bytes in RGBA8 layout, four bytes per pixel. Decoders may hand
//! over three-channel data instead; `Bitmap::from_rgb` normalizes it to the
//! four-channel layout with an opaque alpha.

use vstd::prelude::*;

verus! {

/// The RGBA8 bytes obtained from tightly packed RGB8 bytes: every pixel
/// keeps its three channels and gains an alpha byte of 255.
pub open spec fn spec_rgba_of_rgb(rgb: Seq<u8>) -> Seq<u8>
    recommends
        rgb.len() % 3 == 0,
{
    Seq::new(
        rgb.len() / 3 * 4,
        |k: int|
            if k % 4 == 3 {
                255u8
            } else {
                rgb[k / 4 * 3 + k % 4]
            },
    )
}

/// A decoded, immutable raster image: `width * height` pixels in RGBA8
/// layout, four bytes per pixel, rows packed without padding.
pub struct Bitmap {
    pub width: u32,
    pub height: u32,
    pub pixels: Vec<u8>,
}

impl Bitmap {
    /// A bitmap is well-formed when it has at least one pixel, its byte
    /// buffer holds exactly four bytes per pixel, and its row stride
    /// `4 * width` fits the 32-bit stride field of a GPU copy layout with
    /// room for the alignment round-up.
    pub open spec fn wf(self) -> bool {
        &&& 1 <= self.width
        &&& 1 <= self.height
        &&& 4 * self.width + 255 <= u32::MAX
        &&& self.pixels@.len() == 4 * self.width * self.height
    }

    /// Wrap pixel bytes that are already in RGBA8 layout; rejects
    /// dimensions that do not match the buffer.
    pub fn from_rgba(width: u32, height: u32, pixels: Vec<u8>) -> (r: Option<Bitmap>)
        ensures
            r matches Some(b) ==> {
                &&& b.wf()
                &&& b.width == width
                &&& b.height == height
                &&& b.pixels@ == pixels@
            },
            r is None <==> (width == 0 || height == 0 || 4 * width + 255 > u32::MAX
                || pixels@.len() != 4 * width * height),
    {
        if width == 0 || height == 0 {
            return None;
        }
        if 4u64 * (width as u64) + 255 > u32::MAX as u64 {
            return None;
        }
        proof {
            assert(0 <= 4 * (width as int) * (height as int) <= 0x3_ffff_fff8_0000_0004 && 0 <= 3
                * (width as int) * (height as int) <= 0x2_ffff_fffa_0000_0003) by (nonlinear_arith)
                requires
                    width <= 0xffff_ffffu32,
                    height <= 0xffff_ffffu32,
            ;
        }
        let expected: u128 = 4u128 * (width as u128) * (height as u128);
        if (pixels.len() as u128) != expected {
            return None;
        }
        Some(Bitmap { width, height, pixels })
    }

    /// Normalize tightly packed RGB8 bytes to the RGBA8 layout, giving
    /// every pixel an alpha of 255; rejects dimensions that do not match
    /// the buffer or an RGBA byte count beyond the address space.
    pub fn from_rgb(width: u32, height: u32, rgb: Vec<u8>) -> (r: Option<Bitmap>)
        ensures
            r matches Some(b) ==> {
                &&& b.wf()
                &&& b.width == width
                &&& b.height == height
                &&& b.pixels@ == spec_rgba_of_rgb(rgb@)
            },
            r is None <==> (width == 0 || height == 0 || 4 * width + 255 > u32::MAX
                || rgb@.len() != 3 * width * height || 4 * width * height > usize::MAX),
    {
        if width == 0 || height == 0 {
            return None;
        }
        if 4u64 * (width as u64) + 255 > u32::MAX as u64 {
            return None;
        }
        proof {
            assert(0 <= 4 * (width as int) * (height as int) <= 0x3_ffff_fff8_0000_0004 && 0 <= 3
                * (width as int) * (height as int) <= 0x2_ffff_fffa_0000_0003) by (nonlinear_arith)
                requires
                    width <= 0xffff_ffffu32,
                    height <= 0xffff_ffffu32,
            ;
        }
        let expected: u128 = 3u128 * (width as u128) * (height as u128);
        if (rgb.len() as u128) != expected {
            return None;
        }
        if 4u128 * (width as u128) * (height as u128) > usize::MAX as u128 {
            return None;
        }
        let pixel_count: usize = rgb.len() / 3;
        proof {
            assert(rgb@.len() == 3 * width * height ==> rgb@.len() / 3 == width * height
                && rgb@.len() % 3 == 0) by (nonlinear_arith);
            assert(4 * (width * height) == 4 * width * height) by (nonlinear_arith);
        }
        let mut pixels: Vec<u8> = Vec::new();
        let mut p: usize = 0;
        while p < pixel_count
            invariant
                0 <= p <= pixel_count,
                pixel_count == rgb@.len() / 3,
                rgb@.len() % 3 == 0,
                rgb@.len() == 3 * pixel_count,
                4 * pixel_count <= usize::MAX,
                pixels@.len() == 4 * p,
                pixels@ == spec_rgba_of_rgb(rgb@).subrange(0, 4 * p),
            decreases pixel_count - p,
        {
            let base = 3 * p;
            pixels.push(rgb[base]);
            pixels.push(rgb[base + 1]);
            pixels.push(rgb[base + 2]);
            pixels.push(255);
            proof {
                let full = spec_rgba_of_rgb(rgb@);
                assert forall|k: int| 4 * p <= k < 4 * p + 4 implies full[k] == pixels@[k] by {
                    vstd::arithmetic::div_mod::lemma_fundamental_div_mod_converse(
                        k,
                        4,
                        p as int,
                        k - 4 * p,
                    );
                };
                assert(pixels@ =~= full.subrange(0, 4 * (p + 1)));
            }
            p = p + 1;
        }
        proof {
            assert(pixels@ =~= spec_rgba_of_rgb(rgb@));
        }
        Some(Bitmap { width, height, pixels })
    }

    /// The width and height of the image in pixels.
    pub fn dimensions(&self) -> (r: (u32, u32))
        ensures
            r == (self.width, self.height),
    {
        (self.width, self.height)
    }
}

} // verus!
