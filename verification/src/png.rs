//! PNG encoding of exported pixels.
//!
//! The export pipeline hands its tightly packed RGBA8 bytes to the `image`
//! crate's PNG encoder. What that encoder produces takes pages to state, but
//! it depends on the pixel bytes and the dimensions alone, so the library
//! names the result: `spec_png_of` stands for the encoder's output, and the
//! callers' contracts are exact in terms of that name.

use vstd::prelude::*;

verus! {

/// The error type of the `image` crate, carried through unread.
#[verifier::external_type_specification]
#[verifier::external_body]
pub struct ExImageError(image::ImageError);

/// The PNG encoding of a tightly packed `width` x `height` RGBA8 pixel
/// buffer, as the `image` crate's PNG encoder produces it with its default
/// settings.
pub uninterp spec fn spec_png_of(pixels: Seq<u8>, width: u32, height: u32) -> Seq<u8>;

/// Relies on image::codecs::png::PngEncoder::write_image (through the
/// ImageEncoder trait): encodes an RGBA8 buffer as PNG into the given
/// writer; with the default settings the bytes written depend only on the
/// pixel data and the dimensions. The encoder asserts that the buffer holds
/// exactly `4 * width * height` bytes, which the caller must guarantee.
/// The call always succeeds here: the writer is an in-memory `Vec`, whose
/// `Write` impl never fails, and the underlying `png` encoder's remaining
/// error paths — zero width or height, an invalid colour/bit-depth pair,
/// animation bookkeeping, a buffer whose size disagrees with the
/// dimensions — are all excluded by the eight-bit RGBA colour type and
/// this function's `requires`.
#[verifier::external_body]
pub(crate) fn encode_png_rgba(pixels: &Vec<u8>, width: u32, height: u32) -> (r: Result<
    Vec<u8>,
    image::ImageError,
>)
    requires
        pixels@.len() == 4 * width * height,
        1 <= width,
        1 <= height,
    ensures
        r is Ok,
        r matches Ok(b) ==> b@ == spec_png_of(pixels@, width, height),
{
    let mut out: Vec<u8> = Vec::new();
    let encoder = image::codecs::png::PngEncoder::new(&mut out);
    match image::ImageEncoder::write_image(
        encoder,
        pixels.as_slice(),
        width,
        height,
        image::ExtendedColorType::Rgba8,
    ) {
        Ok(()) => Ok(out),
        Err(e) => Err(e),
    }
}

} // verus!
