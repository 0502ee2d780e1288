//! Presentation-side policy: how the swap chain is configured and when an
//! upload is acceptable.
//!
//! The presentation surface is configured for first-in-first-out delivery
//! with at most one queued frame, and for a pixel format without display-side
//! colour correction — decoded video is already perceptually encoded, so a
//! correcting swap chain would apply gamma twice.

use vstd::prelude::*;

verus! {

/// Whether some offered format applies no colour correction.
pub open spec fn spec_has_uncorrected(formats: Seq<bool>) -> bool {
    exists|i: int| 0 <= i < formats.len() && !formats[i]
}

/// The index the picker owes: the first format without colour correction,
/// or the first format offered when every one corrects.
pub open spec fn spec_picked_format(formats: Seq<bool>) -> int {
    if spec_has_uncorrected(formats) {
        choose|i: int|
            0 <= i < formats.len() && !formats[i] && (forall|j: int| 0 <= j < i ==> formats[j])
    } else {
        0
    }
}

/// Pick the swap-chain format from the offered list, given for each entry
/// whether it applies display-side colour correction.  The first uncorrected
/// entry wins; with none offered, the first entry is taken.
pub fn pick_surface_format(color_corrected: &Vec<bool>) -> (idx: usize)
    requires
        color_corrected@.len() > 0,
    ensures
        idx < color_corrected@.len(),
        spec_has_uncorrected(color_corrected@) ==> !color_corrected@[idx as int] && (forall|j: int|
            0 <= j < idx ==> color_corrected@[j]),
        !spec_has_uncorrected(color_corrected@) ==> idx == 0,
{
    let n: usize = color_corrected.len();
    let mut k: usize = 0;
    while k < n
        invariant
            k <= n,
            n == color_corrected@.len(),
            forall|j: int| 0 <= j < k ==> color_corrected@[j],
        decreases n - k,
    {
        if !color_corrected[k] {
            return k;
        }
        k = k + 1;
    }
    0
}

/// How the presentation surface is configured.
#[derive(Clone, Copy, Debug, PartialEq, Eq, Structural)]
pub struct SurfacePlan {
    /// Index of the chosen format in the offered list.
    pub format_index: usize,
    /// Frames present in submission order — no tearing.
    pub first_in_first_out: bool,
    /// At most one frame of queuing between render and display.
    pub max_queued_frames: u32,
}

/// Plan the surface configuration for the offered format list.
pub fn plan_surface(color_corrected: &Vec<bool>) -> (p: SurfacePlan)
    requires
        color_corrected@.len() > 0,
    ensures
        p.format_index < color_corrected@.len(),
        spec_has_uncorrected(color_corrected@) ==> !color_corrected@[p.format_index as int],
        p.first_in_first_out,
        p.max_queued_frames == 1,
{
    let format_index = pick_surface_format(color_corrected);
    SurfacePlan { format_index, first_in_first_out: true, max_queued_frames: 1 }
}

/// Whether a pixel buffer of `len` bytes is exactly one full frame at the
/// presenter's dimensions — the upload overwrites the whole persistent
/// texture, so nothing shorter or longer is acceptable.
pub fn frame_len_matches(len: usize, width: u32, height: u32) -> (r: bool)
    ensures
        r == (len == width * height * 4),
{
    proof {
        assert((width as u128) * (height as u128) * 4 < 0x1_0000_0000_0000_0000_0000u128)
            by (nonlinear_arith)
            requires
                width <= 0xffff_ffffu32,
                height <= 0xffff_ffffu32,
        ;
    }
    let need: u128 = (width as u128) * (height as u128) * 4;
    (len as u128) == need
}

} // verus!
