//! One plot axis: a named domain range and a display position.
//!
//! The domain is the ordered pair `[lo, hi]` of data values the axis
//! currently represents, independent of pixel size. A normalized
//! coordinate in `[0, 1]` names a fractional position along the axis;
//! [`value_at`] maps it into the domain. Zooming about an anchor keeps
//! the domain value under the anchor fixed and scales the width by the
//! zoom factor; panning shifts both bounds by the same fraction of the
//! width. Those laws are proved exactly at the end of this module.

use vstd::prelude::*;

use crate::errors::ViewError;
use crate::rational::{fadd, fsub, fmul, fhalf, fits, feq, freduce, fzero, fone, Frac, Rat};
use crate::rational::{
    lemma_pos_mul, lemma_feq_refl, lemma_feq_trans, lemma_fadd_congr,
    lemma_fsub_congr, lemma_fmul_congr, lemma_sub_add_cancel, lemma_sub_add_cancel_r,
    lemma_sub_sub_cancel, lemma_add_sub_cancel, lemma_add_sub_to_sub, lemma_sub_of_add_sub,
    lemma_distrib_r, lemma_mul_one, lemma_fmul_assoc, lemma_add_back_congr,
    lemma_add_zero_congr,
};

verus! {

/// The edge of the plot on which an axis is displayed.
#[derive(Clone, Copy, Debug, PartialEq, Eq, Structural)]
pub enum AxisPosition {
    Top,
    Bottom,
    Left,
    Right,
}

/// Specification-level view of an axis: its domain bounds and position.
pub struct AxisV {
    pub lo: Frac,
    pub hi: Frac,
    pub position: AxisPosition,
}

/// One plot axis: domain `[lo, hi]` plus a display position. The domain
/// is mutated by zoom, pan and reset; the transform math itself never
/// requires `lo <= hi`, and zoom and pan preserve the orientation.
///
/// The optional tick-label callback of the design is floating-point
/// text formatting over the display layer's widget types, so it lives
/// with that layer; the axis here carries only the domain and the
/// position it needs.
#[derive(Clone, Copy, Debug)]
pub struct Axis {
    lo: Rat,
    hi: Rat,
    position: AxisPosition,
}

impl View for Axis {
    type V = AxisV;

    closed spec fn view(&self) -> AxisV {
        AxisV { lo: self.lo@, hi: self.hi@, position: self.position }
    }
}

/// The domain value at normalized position `t`: `lo + t*(hi - lo)`.
pub open spec fn value_at(lo: Frac, hi: Frac, t: Frac) -> Frac {
    fadd(lo, fmul(t, fsub(hi, lo)))
}

/// The lower bound after zooming by `f` about the anchor at normalized
/// position `t`: `anchor - (anchor - lo)*f`.
pub open spec fn zoom_lo(lo: Frac, hi: Frac, f: Frac, t: Frac) -> Frac {
    fsub(value_at(lo, hi, t), fmul(fsub(value_at(lo, hi, t), lo), f))
}

/// The upper bound after zooming by `f` about the anchor at normalized
/// position `t`: `anchor + (hi - anchor)*f`.
pub open spec fn zoom_hi(lo: Frac, hi: Frac, f: Frac, t: Frac) -> Frac {
    fadd(value_at(lo, hi, t), fmul(fsub(hi, value_at(lo, hi, t)), f))
}

/// The shift a pan by normalized delta `delta` applies to both bounds:
/// `delta*(hi - lo)`.
pub open spec fn pan_shift(lo: Frac, hi: Frac, delta: Frac) -> Frac {
    fmul(delta, fsub(hi, lo))
}

/// The lower bound after panning by `delta`.
pub open spec fn pan_lo(lo: Frac, hi: Frac, delta: Frac) -> Frac {
    fadd(lo, pan_shift(lo, hi, delta))
}

/// The upper bound after panning by `delta`.
pub open spec fn pan_hi(lo: Frac, hi: Frac, delta: Frac) -> Frac {
    fadd(hi, pan_shift(lo, hi, delta))
}

/// The view of an axis after panning by `delta`; the stored bounds are
/// kept in lowest terms.
pub open spec fn spec_pan_axis(a: AxisV, delta: Frac) -> AxisV {
    AxisV {
        lo: freduce(pan_lo(a.lo, a.hi, delta)),
        hi: freduce(pan_hi(a.lo, a.hi, delta)),
        position: a.position,
    }
}

/// The view of an axis after zooming by `f` about the anchor at `t`;
/// the stored bounds are kept in lowest terms.
pub open spec fn spec_zoom_axis(a: AxisV, f: Frac, t: Frac) -> AxisV {
    AxisV {
        lo: freduce(zoom_lo(a.lo, a.hi, f, t)),
        hi: freduce(zoom_hi(a.lo, a.hi, f, t)),
        position: a.position,
    }
}

/// The effective anchor of a zoom: the given normalized position, or the
/// midpoint when none was given.
pub open spec fn anchor_of(anchor_norm: Option<Rat>) -> Frac {
    match anchor_norm {
        Some(t) => t@,
        None => fhalf(),
    }
}

/// Whether every intermediate representative of a zoom stays in bounds,
/// in the order the computation forms them.
pub open spec fn zoom_fits(lo: Frac, hi: Frac, f: Frac, t: Frac) -> bool {
    let w = fsub(hi, lo);
    let tw = fmul(t, w);
    let anchor = fadd(lo, tw);
    let al = fsub(anchor, lo);
    let alf = fmul(al, f);
    let nlo = fsub(anchor, alf);
    let ha = fsub(hi, anchor);
    let haf = fmul(ha, f);
    let nhi = fadd(anchor, haf);
    fits(w) && fits(tw) && fits(anchor) && fits(al) && fits(alf) && fits(nlo) && fits(ha)
        && fits(haf) && fits(nhi)
}

/// Whether every intermediate representative of a pan stays in bounds.
pub open spec fn pan_fits(lo: Frac, hi: Frac, delta: Frac) -> bool {
    let w = fsub(hi, lo);
    let dw = fmul(delta, w);
    fits(w) && fits(dw) && fits(fadd(lo, dw)) && fits(fadd(hi, dw))
}

/// Whether every intermediate representative of a value lookup stays in
/// bounds.
pub open spec fn value_fits(lo: Frac, hi: Frac, t: Frac) -> bool {
    let w = fsub(hi, lo);
    fits(w) && fits(fmul(t, w)) && fits(fadd(lo, fmul(t, w)))
}

impl Axis {
    /// Well-formedness: both domain bounds are in-bounds representatives.
    pub open spec fn wf(self) -> bool {
        fits(self@.lo) && fits(self@.hi)
    }

    /// A new axis with the given domain and display position.
    pub fn new(lo: Rat, hi: Rat, position: AxisPosition) -> (r: Axis)
        requires
            lo.wf(),
            hi.wf(),
        ensures
            r@.lo == lo@,
            r@.hi == hi@,
            r@.position == position,
            r.wf(),
    {
        Axis { lo, hi, position }
    }

    /// The lower domain bound.
    pub fn lo(&self) -> (r: Rat)
        ensures
            r@ == self@.lo,
    {
        self.lo
    }

    /// The upper domain bound.
    pub fn hi(&self) -> (r: Rat)
        ensures
            r@ == self@.hi,
    {
        self.hi
    }

    /// The display position.
    pub fn position(&self) -> (r: AxisPosition)
        ensures
            r == self@.position,
    {
        self.position
    }

    /// Replaces the domain outright; used to reset to data-derived
    /// bounds.
    pub fn set_domain(&mut self, lo: Rat, hi: Rat)
        requires
            lo.wf(),
            hi.wf(),
        ensures
            final(self)@.lo == lo@,
            final(self)@.hi == hi@,
            final(self)@.position == old(self)@.position,
            final(self).wf(),
    {
        self.lo = lo;
        self.hi = hi;
    }

    /// The domain value at normalized position `t`, or `None` when an
    /// intermediate representative leaves the bounds.
    pub fn value_at_norm(&self, t: Rat) -> (r: Option<Rat>)
        requires
            self.wf(),
            t.wf(),
        ensures
            r matches Some(q) ==> q@ == value_at(self@.lo, self@.hi, t@) && q.wf(),
            r is Some <==> value_fits(self@.lo, self@.hi, t@),
    {
        let w = match self.hi.checked_sub(self.lo) {
            Some(v) => v,
            None => {
                return None;
            },
        };
        let tw = match t.checked_mul(w) {
            Some(v) => v,
            None => {
                return None;
            },
        };
        self.lo.checked_add(tw)
    }

    /// Zooms about the anchor at `anchor_norm` (the midpoint when
    /// `None`): the new domain is `[anchor - (anchor - lo)*f, anchor +
    /// (hi - anchor)*f]`. A factor below one shrinks the range (zooms
    /// in); a factor above one widens it. On overflow the domain is left
    /// unchanged.
    pub fn zoom(&mut self, factor: Rat, anchor_norm: Option<Rat>) -> (r: Result<(), ViewError>)
        requires
            old(self).wf(),
            factor.wf(),
            anchor_norm matches Some(t) ==> t.wf(),
        ensures
            final(self)@.position == old(self)@.position,
            r is Ok <==> zoom_fits(old(self)@.lo, old(self)@.hi, factor@, anchor_of(anchor_norm)),
            r is Ok ==> final(self)@ == spec_zoom_axis(
                old(self)@,
                factor@,
                anchor_of(anchor_norm),
            ) && feq(final(self)@.lo, zoom_lo(
                old(self)@.lo,
                old(self)@.hi,
                factor@,
                anchor_of(anchor_norm),
            )) && feq(final(self)@.hi, zoom_hi(
                old(self)@.lo,
                old(self)@.hi,
                factor@,
                anchor_of(anchor_norm),
            )) && final(self).wf(),
            r matches Err(e) ==> e == ViewError::Overflow && *final(self) == *old(self),
    {
        let t = match anchor_norm {
            Some(t) => t,
            None => Rat::half(),
        };
        let w = match self.hi.checked_sub(self.lo) {
            Some(v) => v,
            None => {
                return Err(ViewError::Overflow);
            },
        };
        let tw = match t.checked_mul(w) {
            Some(v) => v,
            None => {
                return Err(ViewError::Overflow);
            },
        };
        let anchor = match self.lo.checked_add(tw) {
            Some(v) => v,
            None => {
                return Err(ViewError::Overflow);
            },
        };
        let al = match anchor.checked_sub(self.lo) {
            Some(v) => v,
            None => {
                return Err(ViewError::Overflow);
            },
        };
        let alf = match al.checked_mul(factor) {
            Some(v) => v,
            None => {
                return Err(ViewError::Overflow);
            },
        };
        let nlo = match anchor.checked_sub(alf) {
            Some(v) => v,
            None => {
                return Err(ViewError::Overflow);
            },
        };
        let ha = match self.hi.checked_sub(anchor) {
            Some(v) => v,
            None => {
                return Err(ViewError::Overflow);
            },
        };
        let haf = match ha.checked_mul(factor) {
            Some(v) => v,
            None => {
                return Err(ViewError::Overflow);
            },
        };
        let nhi = match anchor.checked_add(haf) {
            Some(v) => v,
            None => {
                return Err(ViewError::Overflow);
            },
        };
        self.lo = nlo.reduced();
        self.hi = nhi.reduced();
        Ok(())
    }

    /// Pans by the normalized delta `delta`: both bounds shift by
    /// `delta*(hi - lo)`. On overflow the domain is left unchanged.
    pub fn pan(&mut self, delta: Rat) -> (r: Result<(), ViewError>)
        requires
            old(self).wf(),
            delta.wf(),
        ensures
            final(self)@.position == old(self)@.position,
            r is Ok <==> pan_fits(old(self)@.lo, old(self)@.hi, delta@),
            r is Ok ==> final(self)@ == spec_pan_axis(old(self)@, delta@) && feq(
                final(self)@.lo,
                pan_lo(old(self)@.lo, old(self)@.hi, delta@),
            ) && feq(final(self)@.hi, pan_hi(old(self)@.lo, old(self)@.hi, delta@))
                && final(self).wf(),
            r matches Err(e) ==> e == ViewError::Overflow && *final(self) == *old(self),
    {
        let w = match self.hi.checked_sub(self.lo) {
            Some(v) => v,
            None => {
                return Err(ViewError::Overflow);
            },
        };
        let dw = match delta.checked_mul(w) {
            Some(v) => v,
            None => {
                return Err(ViewError::Overflow);
            },
        };
        let nlo = match self.lo.checked_add(dw) {
            Some(v) => v,
            None => {
                return Err(ViewError::Overflow);
            },
        };
        let nhi = match self.hi.checked_add(dw) {
            Some(v) => v,
            None => {
                return Err(ViewError::Overflow);
            },
        };
        self.lo = nlo.reduced();
        self.hi = nhi.reduced();
        Ok(())
    }
}

/// An anchored zoom keeps the domain value at the anchor fixed, and
/// scales the domain width by the zoom factor, exactly: for any domain
/// `[lo, hi]`, any factor `f` and any anchor position `t`, the value at
/// `t` in the zoomed domain stands for the value at `t` in the original
/// domain, and the zoomed width stands for `(hi - lo)*f`.
pub proof fn lemma_zoom_keeps_anchor(lo: Frac, hi: Frac, f: Frac, t: Frac)
    requires
        lo.d > 0,
        hi.d > 0,
        f.d > 0,
        t.d > 0,
    ensures
        feq(value_at(zoom_lo(lo, hi, f, t), zoom_hi(lo, hi, f, t), t), value_at(lo, hi, t)),
        feq(fsub(zoom_hi(lo, hi, f, t), zoom_lo(lo, hi, f, t)), fmul(fsub(hi, lo), f)),
{
    let w = fsub(hi, lo);
    let tw = fmul(t, w);
    let a = fadd(lo, tw);
    let y = fmul(fsub(a, lo), f);
    let x = fmul(fsub(hi, a), f);
    let lo2 = fsub(a, y);
    let hi2 = fadd(a, x);

    lemma_pos_mul(hi.d, lo.d);
    lemma_pos_mul(t.d, w.d);
    lemma_pos_mul(lo.d, tw.d);
    lemma_pos_mul(a.d, lo.d);
    lemma_pos_mul(fsub(a, lo).d, f.d);
    lemma_pos_mul(hi.d, a.d);
    lemma_pos_mul(fsub(hi, a).d, f.d);
    lemma_pos_mul(a.d, y.d);
    lemma_pos_mul(a.d, x.d);
    lemma_pos_mul(x.d, y.d);
    lemma_pos_mul(fsub(hi, a).d, fsub(a, lo).d);
    lemma_pos_mul(fadd(fsub(hi, a), fsub(a, lo)).d, f.d);
    lemma_pos_mul(w.d, f.d);
    lemma_pos_mul(tw.d, f.d);
    lemma_pos_mul(t.d, fmul(w, f).d);

    lemma_sub_of_add_sub(a, x, y);
    lemma_distrib_r(fsub(hi, a), fsub(a, lo), f);
    lemma_add_sub_to_sub(hi, a, lo);
    lemma_feq_refl(f);
    lemma_fmul_congr(fadd(fsub(hi, a), fsub(a, lo)), w, f, f);
    lemma_feq_trans(fadd(x, y), fmul(fadd(fsub(hi, a), fsub(a, lo)), f), fmul(w, f));
    lemma_feq_trans(fsub(hi2, lo2), fadd(x, y), fmul(w, f));

    lemma_feq_refl(t);
    lemma_fmul_congr(t, t, fsub(hi2, lo2), fmul(w, f));
    lemma_sub_add_cancel(lo, tw);
    lemma_fmul_congr(fsub(a, lo), tw, f, f);
    lemma_fmul_assoc(t, w, f);
    lemma_feq_trans(fmul(t, fsub(hi2, lo2)), fmul(t, fmul(w, f)), y);
    lemma_add_back_congr(a, y, fmul(t, fsub(hi2, lo2)));
}

/// A pan by a delta that stands for zero is the identity on the domain:
/// both resulting bounds stand for the originals.
pub proof fn lemma_pan_zero_identity(lo: Frac, hi: Frac, z: Frac)
    requires
        lo.d > 0,
        hi.d > 0,
        z.d > 0,
        feq(z, fzero()),
    ensures
        feq(pan_lo(lo, hi, z), lo),
        feq(pan_hi(lo, hi, z), hi),
{
    let w = fsub(hi, lo);
    let zw = fmul(z, w);
    lemma_pos_mul(hi.d, lo.d);
    lemma_pos_mul(z.d, w.d);
    assert(z.n * w.n == 0) by (nonlinear_arith)
        requires
            z.n == 0,
    ;
    lemma_add_zero_congr(lo, zw);
    lemma_add_zero_congr(hi, zw);
}

/// Zooming by `f` and then by a reciprocal factor `g` (any `g` such
/// that `f*g` stands for one) about the same anchor restores the
/// original domain exactly: both resulting bounds stand for the
/// originals.
pub proof fn lemma_zoom_reciprocal(lo: Frac, hi: Frac, f: Frac, g: Frac, t: Frac)
    requires
        lo.d > 0,
        hi.d > 0,
        f.d > 0,
        g.d > 0,
        t.d > 0,
        feq(fmul(f, g), fone()),
    ensures
        feq(zoom_lo(zoom_lo(lo, hi, f, t), zoom_hi(lo, hi, f, t), g, t), lo),
        feq(zoom_hi(zoom_lo(lo, hi, f, t), zoom_hi(lo, hi, f, t), g, t), hi),
{
    let w = fsub(hi, lo);
    let tw = fmul(t, w);
    let a = fadd(lo, tw);
    let y = fmul(fsub(a, lo), f);
    let x = fmul(fsub(hi, a), f);
    let lo2 = fsub(a, y);
    let hi2 = fadd(a, x);
    let a2 = value_at(lo2, hi2, t);

    lemma_pos_mul(hi.d, lo.d);
    lemma_pos_mul(t.d, w.d);
    lemma_pos_mul(lo.d, tw.d);
    lemma_pos_mul(a.d, lo.d);
    lemma_pos_mul(fsub(a, lo).d, f.d);
    lemma_pos_mul(hi.d, a.d);
    lemma_pos_mul(fsub(hi, a).d, f.d);
    lemma_pos_mul(a.d, y.d);
    lemma_pos_mul(a.d, x.d);
    lemma_pos_mul(hi2.d, lo2.d);
    lemma_pos_mul(t.d, fsub(hi2, lo2).d);
    lemma_pos_mul(lo2.d, fmul(t, fsub(hi2, lo2)).d);
    lemma_pos_mul(a.d, lo2.d);
    lemma_pos_mul(a.d, tw.d);
    lemma_pos_mul(tw.d, f.d);
    lemma_pos_mul(fmul(tw, f).d, g.d);
    lemma_pos_mul(f.d, g.d);
    lemma_pos_mul(hi2.d, a.d);
    lemma_pos_mul(x.d, g.d);
    lemma_pos_mul(a.d, fsub(hi, a).d);

    lemma_zoom_keeps_anchor(lo, hi, f, t);

    lemma_feq_refl(lo2);
    lemma_fsub_congr(a2, a, lo2, lo2);
    lemma_sub_sub_cancel(a, y);
    lemma_feq_trans(fsub(a2, lo2), fsub(a, lo2), y);
    lemma_sub_add_cancel(lo, tw);
    lemma_feq_refl(f);
    lemma_fmul_congr(fsub(a, lo), tw, f, f);
    lemma_feq_trans(fsub(a2, lo2), y, fmul(tw, f));
    lemma_feq_refl(g);
    lemma_fmul_congr(fsub(a2, lo2), fmul(tw, f), g, g);
    lemma_fmul_assoc(tw, f, g);
    lemma_feq_refl(tw);
    lemma_fmul_congr(tw, tw, fmul(f, g), fone());
    lemma_mul_one(tw);
    lemma_feq_trans(
        fmul(fsub(a2, lo2), g),
        fmul(fmul(tw, f), g),
        fmul(tw, fone()),
    );
    lemma_fsub_congr(a2, a, fmul(fsub(a2, lo2), g), tw);
    lemma_sub_add_cancel_r(lo, tw);
    lemma_feq_trans(fsub(a2, fmul(fsub(a2, lo2), g)), fsub(a, tw), lo);

    lemma_feq_refl(hi2);
    lemma_fsub_congr(hi2, hi2, a2, a);
    lemma_sub_add_cancel(a, x);
    lemma_feq_trans(fsub(hi2, a2), fsub(hi2, a), x);
    lemma_fmul_congr(fsub(hi2, a2), x, g, g);
    lemma_fmul_assoc(fsub(hi, a), f, g);
    lemma_feq_refl(fsub(hi, a));
    lemma_fmul_congr(fsub(hi, a), fsub(hi, a), fmul(f, g), fone());
    lemma_mul_one(fsub(hi, a));
    lemma_feq_trans(fmul(fsub(hi2, a2), g), fmul(x, g), fsub(hi, a));
    lemma_fadd_congr(a2, a, fmul(fsub(hi2, a2), g), fsub(hi, a));
    lemma_add_sub_cancel(a, hi);
    lemma_feq_trans(fadd(a2, fmul(fsub(hi2, a2), g)), fadd(a, fsub(hi, a)), hi);
}

} // verus!
