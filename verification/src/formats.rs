//! Surface pixel-format selection.
//!
//! Some adapters report a surprising default format first, so the context
//! prefers a small ordered list of safe formats over whatever the surface
//! reports, and falls back to the surface's own first (default) format when
//! none of the preferred ones is supported.

use vstd::prelude::*;

verus! {

/// A surface pixel format as far as this library distinguishes them: the
/// two preferred safe formats, and everything else.
#[derive(Clone, Copy, Debug, PartialEq, Eq, Structural)]
pub enum PixelFormat {
    Rgba8Unorm,
    Rgba8UnormSrgb,
    Other,
}

/// `i` is the position of the first occurrence of `f` in `s`.
pub open spec fn spec_is_first_index_of(s: Seq<PixelFormat>, f: PixelFormat, i: int) -> bool {
    &&& 0 <= i < s.len()
    &&& s[i] == f
    &&& forall|j: int| 0 <= j < i ==> s[j] != f
}

/// The position of the first occurrence of `f` in `supported`, if any.
fn find_first(supported: &Vec<PixelFormat>, f: PixelFormat) -> (r: Option<usize>)
    ensures
        r matches Some(i) ==> spec_is_first_index_of(supported@, f, i as int),
        r is None <==> !supported@.contains(f),
{
    let n = supported.len();
    let mut i: usize = 0;
    while i < n
        invariant
            0 <= i <= n,
            n == supported@.len(),
            forall|j: int| 0 <= j < i ==> supported@[j] != f,
        decreases n - i,
    {
        if supported[i] == f {
            return Some(i);
        }
        i = i + 1;
    }
    proof {
        assert(!supported@.contains(f));
    }
    None
}

/// Pick the index of the format to configure the surface with, out of the
/// formats the surface reports as supported: the first occurrence of
/// `Rgba8Unorm` if present, else the first occurrence of `Rgba8UnormSrgb`
/// if present, else index 0, the surface's reported default.
pub fn select_format_index(supported: &Vec<PixelFormat>) -> (idx: usize)
    requires
        supported@.len() > 0,
    ensures
        idx < supported@.len(),
        supported@.contains(PixelFormat::Rgba8Unorm) ==> spec_is_first_index_of(
            supported@,
            PixelFormat::Rgba8Unorm,
            idx as int,
        ),
        !supported@.contains(PixelFormat::Rgba8Unorm) && supported@.contains(
            PixelFormat::Rgba8UnormSrgb,
        ) ==> spec_is_first_index_of(supported@, PixelFormat::Rgba8UnormSrgb, idx as int),
        !supported@.contains(PixelFormat::Rgba8Unorm) && !supported@.contains(
            PixelFormat::Rgba8UnormSrgb,
        ) ==> idx == 0,
{
    match find_first(supported, PixelFormat::Rgba8Unorm) {
        Some(i) => i,
        None => match find_first(supported, PixelFormat::Rgba8UnormSrgb) {
            Some(i) => i,
            None => 0,
        },
    }
}

} // verus!
