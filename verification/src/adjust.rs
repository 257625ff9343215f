//! The per-frame color adjustment and its GPU uniform block.
//!
//! The shader receives the hue/saturation/value triple as three 32-bit
//! IEEE-754 floats in a 16-byte uniform block (three floats plus four bytes
//! of padding, per the usual uniform-buffer alignment rules). The library
//! carries each float as its raw bit pattern, so the block's bytes are a
//! pure function of the triple; the zero triple is the identity transform,
//! and `0.0f32` has the all-zero bit pattern.

use vstd::prelude::*;

verus! {

/// The little-endian bytes of a 32-bit value.
pub open spec fn spec_le_bytes_of_u32(x: u32) -> Seq<u8> {
    seq![
        (x & 0xff) as u8,
        ((x >> 8) & 0xff) as u8,
        ((x >> 16) & 0xff) as u8,
        ((x >> 24) & 0xff) as u8,
    ]
}

/// A hue/saturation/value adjustment. Each field is the raw bit pattern of
/// the 32-bit float handed to the shader; the all-zero triple is the
/// identity transform.
#[derive(Clone, Copy, Debug, PartialEq, Eq, Structural)]
pub struct Adjustment {
    pub hue_bits: u32,
    pub saturation_bits: u32,
    pub value_bits: u32,
}

/// The 16-byte uniform block for one adjustment: the three floats'
/// little-endian bytes followed by four bytes of alignment padding.
pub open spec fn spec_uniform_block(a: Adjustment) -> Seq<u8> {
    spec_le_bytes_of_u32(a.hue_bits) + spec_le_bytes_of_u32(a.saturation_bits)
        + spec_le_bytes_of_u32(a.value_bits) + seq![0u8, 0u8, 0u8, 0u8]
}

impl Adjustment {
    /// The triple `{0, 0, 0}`: no hue rotation, no saturation shift, no
    /// value shift.
    pub open spec fn spec_is_identity(self) -> bool {
        self.hue_bits == 0 && self.saturation_bits == 0 && self.value_bits == 0
    }

    /// Build an adjustment from the three floats' raw bit patterns.
    pub fn new(hue_bits: u32, saturation_bits: u32, value_bits: u32) -> (r: Adjustment)
        ensures
            r == (Adjustment { hue_bits, saturation_bits, value_bits }),
    {
        Adjustment { hue_bits, saturation_bits, value_bits }
    }

    /// The identity adjustment.
    pub fn identity() -> (r: Adjustment)
        ensures
            r.spec_is_identity(),
    {
        Adjustment { hue_bits: 0, saturation_bits: 0, value_bits: 0 }
    }

    /// The bytes to write into the adjustment uniform buffer for this
    /// triple.
    pub fn uniform_bytes(&self) -> (r: Vec<u8>)
        ensures
            r@ == spec_uniform_block(*self),
            r@.len() == 16,
    {
        let mut out: Vec<u8> = Vec::new();
        push_le_bytes(&mut out, self.hue_bits);
        push_le_bytes(&mut out, self.saturation_bits);
        push_le_bytes(&mut out, self.value_bits);
        out.push(0);
        out.push(0);
        out.push(0);
        out.push(0);
        proof {
            assert(out@ =~= spec_uniform_block(*self));
        }
        out
    }
}

/// Append the little-endian bytes of `x`.
fn push_le_bytes(out: &mut Vec<u8>, x: u32)
    ensures
        final (out)@ == old(out)@ + spec_le_bytes_of_u32(x),
{
    proof {
        assert((x & 0xff) < 256 && ((x >> 8) & 0xff) < 256 && ((x >> 16) & 0xff) < 256 && ((x
            >> 24) & 0xff) < 256) by (bit_vector);
    }
    out.push((x & 0xff) as u8);
    out.push(((x >> 8) & 0xff) as u8);
    out.push(((x >> 16) & 0xff) as u8);
    out.push(((x >> 24) & 0xff) as u8);
    proof {
        assert(out@ =~= old(out)@ + spec_le_bytes_of_u32(x));
    }
}

/// The identity adjustment's uniform block is all zeroes, so the shader
/// receives the floats `{0.0, 0.0, 0.0}` and applies no transform.
pub proof fn lemma_identity_uniform_block(a: Adjustment)
    requires
        a.spec_is_identity(),
    ensures
        spec_uniform_block(a) =~= seq![0u8; 16],
{
    assert(0u32 & 0xff == 0 && (0u32 >> 8) & 0xff == 0 && (0u32 >> 16) & 0xff == 0 && (0u32 >> 24)
        & 0xff == 0) by (bit_vector);
}

} // verus!
