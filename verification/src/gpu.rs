//! The one decision the GPU session makes that is not resource plumbing:
//! which of the surface's supported color formats to render into.

use vstd::prelude::*;

verus! {

/// Picks the swap-chain color format from the surface's capability list,
/// given for each supported format whether it is sRGB-encoded: the first
/// sRGB format wins, for display-correct blending; a surface with no sRGB
/// format falls back to its first format; a surface with no formats at all
/// yields nothing.
pub fn select_surface_format(srgb_flags: &Vec<bool>) -> (r: Option<usize>)
    ensures
        r is Some <==> srgb_flags@.len() > 0,
        r matches Some(p) ==> {
            &&& p < srgb_flags@.len()
            &&& if exists|i: int| 0 <= i < srgb_flags@.len() && srgb_flags@[i] {
                &&& srgb_flags@[p as int]
                &&& forall|j: int| 0 <= j < p ==> !srgb_flags@[j]
            } else {
                p == 0
            }
        },
{
    if srgb_flags.len() == 0 {
        return None;
    }
    let mut p: usize = 0;
    while p < srgb_flags.len()
        invariant
            p <= srgb_flags@.len(),
            forall|j: int| 0 <= j < p ==> !srgb_flags@[j],
        decreases srgb_flags@.len() - p,
    {
        if srgb_flags[p] {
            return Some(p);
        }
        p = p + 1;
    }
    Some(0)
}

} // verus!
