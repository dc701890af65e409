//! The chart state: one axis per role.
//!
//! Axes are keyed by a small closed set of roles, giving checked access
//! instead of a runtime lookup that can miss. Linked pan applies one
//! raw normalized delta pair to an x-axis and a y-axis in one step:
//! each axis converts the shared delta into its own domain units using
//! its own width, so one drag feels uniform across panes whose domains
//! differ in scale.

use vstd::prelude::*;

use crate::axis::{
    anchor_of, pan_fits, spec_pan_axis, spec_zoom_axis, zoom_fits, Axis, AxisPosition, AxisV,
};
use crate::errors::ViewError;
use crate::rational::{fone, fzero, Rat};

verus! {

/// The closed set of axis roles the viewer registers: the shared time
/// axis, the gradient-amplitude axis, and the RF-amplitude axis.
#[derive(Clone, Copy, Debug, PartialEq, Eq, Structural)]
pub enum AxisRole {
    Time,
    Gradient,
    Rf,
}

/// One axis per role; keys are unique by construction and iteration
/// order is irrelevant.
#[derive(Clone, Copy, Debug)]
pub struct ChartState {
    /// The axis bound to the time role.
    pub time: Axis,
    /// The axis bound to the gradient-amplitude role.
    pub grad: Axis,
    /// The axis bound to the RF-amplitude role.
    pub rf: Axis,
}

impl ChartState {
    /// The axis bound to `role`.
    pub open spec fn spec_axis(self, role: AxisRole) -> Axis {
        match role {
            AxisRole::Time => self.time,
            AxisRole::Gradient => self.grad,
            AxisRole::Rf => self.rf,
        }
    }

    /// Well-formedness: every axis is well formed.
    pub open spec fn wf(self) -> bool {
        &&& self.time.wf()
        &&& self.grad.wf()
        &&& self.rf.wf()
    }

    /// A fresh chart: every axis over the unit domain, the time axis on
    /// the bottom edge, gradient on the left, RF on the right.
    pub fn new() -> (r: ChartState)
        ensures
            r.wf(),
            r.time@.lo == fzero() && r.time@.hi == fone() && r.time@.position
                == AxisPosition::Bottom,
            r.grad@.lo == fzero() && r.grad@.hi == fone() && r.grad@.position
                == AxisPosition::Left,
            r.rf@.lo == fzero() && r.rf@.hi == fone() && r.rf@.position == AxisPosition::Right,
    {
        ChartState {
            time: Axis::new(Rat::zero(), Rat::one(), AxisPosition::Bottom),
            grad: Axis::new(Rat::zero(), Rat::one(), AxisPosition::Left),
            rf: Axis::new(Rat::zero(), Rat::one(), AxisPosition::Right),
        }
    }

    /// Binds `axis` to `role`, replacing whatever was bound before.
    pub fn set_axis(&mut self, role: AxisRole, axis: Axis)
        ensures
            final(self).spec_axis(role) == axis,
            forall|ro: AxisRole|
                ro != role ==> #[trigger] final(self).spec_axis(ro) == old(self).spec_axis(ro),
    {
        match role {
            AxisRole::Time => {
                self.time = axis;
            },
            AxisRole::Gradient => {
                self.grad = axis;
            },
            AxisRole::Rf => {
                self.rf = axis;
            },
        }
    }

    /// The axis bound to `role`.
    pub fn axis(&self, role: AxisRole) -> (r: &Axis)
        ensures
            *r == self.spec_axis(role),
    {
        match role {
            AxisRole::Time => &self.time,
            AxisRole::Gradient => &self.grad,
            AxisRole::Rf => &self.rf,
        }
    }

    /// Replaces the domain of the axis bound to `role`; used to reset
    /// to data-derived bounds.
    pub fn set_domain(&mut self, role: AxisRole, lo: Rat, hi: Rat)
        requires
            lo.wf(),
            hi.wf(),
        ensures
            final(self).spec_axis(role)@.lo == lo@,
            final(self).spec_axis(role)@.hi == hi@,
            final(self).spec_axis(role)@.position == old(self).spec_axis(role)@.position,
            final(self).spec_axis(role).wf(),
            forall|ro: AxisRole|
                ro != role ==> #[trigger] final(self).spec_axis(ro) == old(self).spec_axis(ro),
    {
        match role {
            AxisRole::Time => self.time.set_domain(lo, hi),
            AxisRole::Gradient => self.grad.set_domain(lo, hi),
            AxisRole::Rf => self.rf.set_domain(lo, hi),
        }
    }

    /// Zooms the axis bound to `role` about the given anchor. On
    /// overflow the chart is left unchanged.
    pub fn zoom_axis(&mut self, role: AxisRole, factor: Rat, anchor_norm: Option<Rat>) -> (r:
        Result<(), ViewError>)
        requires
            old(self).spec_axis(role).wf(),
            factor.wf(),
            anchor_norm matches Some(t) ==> t.wf(),
        ensures
            r is Ok <==> zoom_fits(
                old(self).spec_axis(role)@.lo,
                old(self).spec_axis(role)@.hi,
                factor@,
                anchor_of(anchor_norm),
            ),
            r is Ok ==> final(self).spec_axis(role)@ == spec_zoom_axis(
                old(self).spec_axis(role)@,
                factor@,
                anchor_of(anchor_norm),
            ) && final(self).spec_axis(role).wf(),
            r matches Err(e) ==> e == ViewError::Overflow && *final(self) == *old(self),
            forall|ro: AxisRole|
                ro != role ==> #[trigger] final(self).spec_axis(ro) == old(self).spec_axis(ro),
    {
        let r = match role {
            AxisRole::Time => self.time.zoom(factor, anchor_norm),
            AxisRole::Gradient => self.grad.zoom(factor, anchor_norm),
            AxisRole::Rf => self.rf.zoom(factor, anchor_norm),
        };
        r
    }

    /// Pans the axis bound to `role` by the normalized delta `delta`.
    /// On overflow the chart is left unchanged.
    pub fn pan_axis(&mut self, role: AxisRole, delta: Rat) -> (r: Result<(), ViewError>)
        requires
            old(self).spec_axis(role).wf(),
            delta.wf(),
        ensures
            r is Ok <==> pan_fits(
                old(self).spec_axis(role)@.lo,
                old(self).spec_axis(role)@.hi,
                delta@,
            ),
            r is Ok ==> final(self).spec_axis(role)@ == spec_pan_axis(
                old(self).spec_axis(role)@,
                delta@,
            ) && final(self).spec_axis(role).wf(),
            r matches Err(e) ==> e == ViewError::Overflow && *final(self) == *old(self),
            forall|ro: AxisRole|
                ro != role ==> #[trigger] final(self).spec_axis(ro) == old(self).spec_axis(ro),
    {
        let r = match role {
            AxisRole::Time => self.time.pan(delta),
            AxisRole::Gradient => self.grad.pan(delta),
            AxisRole::Rf => self.rf.pan(delta),
        };
        r
    }

    /// Pans the axis bound to `x_role` by `dx` and the axis bound to
    /// `y_role` by `dy`, in that order, as one step: on overflow
    /// neither axis changes. When both roles name the same axis the two
    /// pans compose.
    pub fn pan_axes(&mut self, x_role: AxisRole, y_role: AxisRole, dx: Rat, dy: Rat) -> (r:
        Result<(), ViewError>)
        requires
            old(self).spec_axis(x_role).wf(),
            old(self).spec_axis(y_role).wf(),
            dx.wf(),
            dy.wf(),
        ensures
            ({
                let ax0 = old(self).spec_axis(x_role)@;
                let mid = spec_pan_axis(ax0, dx@);
                let ay0 = if x_role == y_role {
                    mid
                } else {
                    old(self).spec_axis(y_role)@
                };
                &&& (r is Ok <==> pan_fits(ax0.lo, ax0.hi, dx@) && pan_fits(
                    ay0.lo,
                    ay0.hi,
                    dy@,
                ))
                &&& r is Ok && x_role == y_role ==> final(self).spec_axis(x_role)@
                    == spec_pan_axis(mid, dy@) && final(self).spec_axis(x_role).wf()
                &&& r is Ok && x_role != y_role ==> final(self).spec_axis(x_role)@ == mid
                    && final(self).spec_axis(y_role)@ == spec_pan_axis(ay0, dy@)
                    && final(self).spec_axis(x_role).wf() && final(self).spec_axis(y_role).wf()
                &&& r matches Err(e) ==> e == ViewError::Overflow && *final(self) == *old(self)
                &&& forall|ro: AxisRole|
                    ro != x_role && ro != y_role ==> #[trigger] final(self).spec_axis(ro)
                        == old(self).spec_axis(ro)
            }),
    {
        let mut ax = *self.axis(x_role);
        match ax.pan(dx) {
            Ok(()) => {},
            Err(_) => {
                return Err(ViewError::Overflow);
            },
        }
        let mut staged = *self;
        staged.set_axis(x_role, ax);
        let mut ay = *staged.axis(y_role);
        match ay.pan(dy) {
            Ok(()) => {},
            Err(_) => {
                return Err(ViewError::Overflow);
            },
        }
        staged.set_axis(y_role, ay);
        *self = staged;
        Ok(())
    }
}

} // verus!
