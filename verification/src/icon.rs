//! Choice of the application icon: among the entries of an icon file, the
//! one whose width is closest to the preferred size is used.  Reading and
//! decoding the icon file is the host shell's concern; this core only picks
//! the entry.

use vstd::prelude::*;

verus! {

/// Preferred icon edge length, in pixels.
pub const ICON_TARGET: u32 = 32;

/// How far a width is from the preferred icon size.
pub open spec fn icon_distance(w: u32) -> int {
    if w >= ICON_TARGET {
        w - ICON_TARGET
    } else {
        ICON_TARGET - w
    }
}

/// How far a width is from the preferred icon size.
fn icon_distance_of(w: u32) -> (r: u32)
    ensures
        r == icon_distance(w),
{
    if w >= ICON_TARGET {
        w - ICON_TARGET
    } else {
        ICON_TARGET - w
    }
}

/// The index of the icon entry whose width is closest to the preferred
/// size; the first one on ties; `None` only for an empty entry list.
pub fn closest_icon_index(widths: &Vec<u32>) -> (r: Option<usize>)
    ensures
        (r is Some) <==> widths@.len() > 0,
        r matches Some(i) ==> i < widths@.len() && (forall|j: int|
            0 <= j < widths@.len() ==> icon_distance(widths@[i as int]) <= icon_distance(
                #[trigger] widths@[j],
            )) && (forall|j: int|
            0 <= j < i ==> icon_distance(#[trigger] widths@[j]) > icon_distance(
                widths@[i as int],
            )),
{
    if widths.len() == 0 {
        return None;
    }
    let mut best: usize = 0;
    let mut k: usize = 1;
    while k < widths.len()
        invariant
            best < k <= widths@.len(),
            forall|j: int|
                0 <= j < k ==> icon_distance(widths@[best as int]) <= icon_distance(
                    #[trigger] widths@[j],
                ),
            forall|j: int|
                0 <= j < best ==> icon_distance(#[trigger] widths@[j]) > icon_distance(
                    widths@[best as int],
                ),
        decreases widths@.len() - k,
    {
        if icon_distance_of(widths[k]) < icon_distance_of(widths[best]) {
            best = k;
        }
        k = k + 1;
    }
    Some(best)
}

} // verus!
