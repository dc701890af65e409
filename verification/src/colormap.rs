//! The scalar-to-RGBA colormap stage.
//!
//! A complex sample is reduced to one scalar (its real part, imaginary
//! part, magnitude or phase), scaled, clamped to an 8-bit level, and
//! written as the opaque grayscale pixel `[v, v, v, 255]` — a linear
//! clamp with no gamma or perceptual mapping, by design. The reduction
//! and clamping read the samples numerically and are performed by the
//! floating-point display layer outside this crate; the byte expansion
//! of the resulting levels is [`grayscale_rgba`], verified here.

use vstd::prelude::*;

use crate::rational::{Frac, Rat};

verus! {

/// The scalar extracted from each complex sample for display.
#[derive(Clone, Copy, Debug, PartialEq, Eq, Structural)]
pub enum ViewMode {
    Re,
    Im,
    Mag,
    Phase,
}

impl Default for ViewMode {
    /// The default display mode is the magnitude.
    fn default() -> (r: ViewMode)
        ensures
            r == ViewMode::Mag,
    {
        ViewMode::Mag
    }
}

/// Controls how extracted samples are rendered to display bytes: which
/// scalar is taken from each sample, and the exact factor it is
/// multiplied by before the clamp.
pub struct ScaleHandler {
    /// The scalar taken from each sample.
    pub view_mode: ViewMode,
    /// The factor each scalar is multiplied by before the clamp.
    pub scaling: Rat,
}

impl Default for ScaleHandler {
    /// The default rendering: magnitude, scaled by the full 8-bit range.
    fn default() -> (r: ScaleHandler)
        ensures
            r.view_mode == ViewMode::Mag,
            r.scaling@ == (Frac { n: 255, d: 1 }),
            r.scaling.wf(),
    {
        let scaling = match Rat::from_int(255) {
            Some(q) => q,
            None => {
                proof {
                    assert(false);
                }
                Rat::zero()
            },
        };
        ScaleHandler { view_mode: ViewMode::Mag, scaling }
    }
}

/// Expands clamped 8-bit levels to RGBA bytes: each level `v` becomes
/// the four bytes `[v, v, v, 255]`, in input order, so the output
/// length is always four times the input length.
pub fn grayscale_rgba(levels: &Vec<u8>) -> (r: Vec<u8>)
    ensures
        r@.len() == 4 * levels@.len(),
        forall|k: int|
            0 <= k < levels@.len() ==> r@[4 * k] == #[trigger] levels@[k] && r@[4 * k + 1]
                == levels@[k] && r@[4 * k + 2] == levels@[k] && r@[4 * k + 3] == 255,
{
    let mut r: Vec<u8> = Vec::new();
    let mut i: usize = 0;
    while i < levels.len()
        invariant
            i <= levels@.len(),
            r@.len() == 4 * i as int,
            forall|k: int|
                0 <= k < i as int ==> r@[4 * k] == #[trigger] levels@[k] && r@[4 * k + 1]
                    == levels@[k] && r@[4 * k + 2] == levels@[k] && r@[4 * k + 3] == 255,
        decreases levels@.len() - i,
    {
        let v = levels[i];
        r.push(v);
        r.push(v);
        r.push(v);
        r.push(255);
        i += 1;
    }
    r
}

} // verus!
