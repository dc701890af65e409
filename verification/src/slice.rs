//! Orthogonal 2D slice extraction from a complex volume.
//!
//! The handler names three logical dimensions of the volume as the view
//! roles "x", "y" and "z" (`view_slices`), and holds one fixed
//! coordinate per role (`slice_indices`). Each of its three output
//! buffers is one orthogonal projection: the two free roles of the pair
//! are swept in the output buffer's own row-major order while the third
//! role is held at its fixed coordinate and every other dimension of the
//! volume is held at zero. Re-running an update after a volume reload
//! resizes the output and its shape before filling it.

use vstd::prelude::*;

use crate::dims::{
    addr_of, all_pos, index_in_bounds, lemma_pair_prod_le, prefix_prod, shape_ok, ArrayDim,
};
use crate::errors::ViewError;
use crate::volume::{CflBuffer, Complex};

verus! {

/// The index vector a projection reads: every dimension at zero, except
/// the held role at its fixed coordinate, then the outer free role at
/// `c_outer`, then the inner free role at `c_inner`; a later role wins
/// when positions coincide.
pub open spec fn idx3(
    ndim: nat,
    p_held: int,
    i_held: int,
    p_outer: int,
    c_outer: int,
    p_inner: int,
    c_inner: int,
) -> Seq<int> {
    Seq::new(
        ndim,
        |d: int|
            if d == p_inner {
                c_inner
            } else if d == p_outer {
                c_outer
            } else if d == p_held {
                i_held
            } else {
                0
            },
    )
}

/// The volume sample a projection writes at output coordinates
/// (`c_inner`, `c_outer`).
pub open spec fn projected_sample(
    vol_shape: Seq<int>,
    vol_data: Seq<Complex>,
    p_held: int,
    i_held: int,
    p_outer: int,
    c_outer: int,
    p_inner: int,
    c_inner: int,
) -> Complex {
    vol_data[addr_of(
        vol_shape,
        idx3(vol_shape.len(), p_held, i_held, p_outer, c_outer, p_inner, c_inner),
        vol_shape.len() as int,
    )]
}

/// A vector of `n` zero samples.
fn zero_samples(n: usize) -> (r: Vec<Complex>)
    ensures
        r@.len() == n as int,
        forall|k: int| 0 <= k < n as int ==> #[trigger] r@[k] == (Complex { re_bits: 0, im_bits: 0 }),
{
    let mut v: Vec<Complex> = Vec::new();
    let mut i: usize = 0;
    while i < n
        invariant
            i <= n,
            v@.len() == i as int,
            forall|k: int|
                0 <= k < i as int ==> #[trigger] v@[k] == (Complex { re_bits: 0, im_bits: 0 }),
        decreases n - i,
    {
        v.push(Complex { re_bits: 0, im_bits: 0 });
        i += 1;
    }
    v
}

/// The index vector of [`idx3`], as an executable vector.
fn make_idx3(
    ndim: usize,
    p_held: usize,
    i_held: usize,
    p_outer: usize,
    c_outer: usize,
    p_inner: usize,
    c_inner: usize,
) -> (r: Vec<usize>)
    ensures
        r@.len() == ndim as int,
        r@.map_values(|v: usize| v as int) == idx3(
            ndim as nat,
            p_held as int,
            i_held as int,
            p_outer as int,
            c_outer as int,
            p_inner as int,
            c_inner as int,
        ),
{
    let mut v: Vec<usize> = Vec::new();
    let mut d: usize = 0;
    while d < ndim
        invariant
            d <= ndim,
            v@.len() == d as int,
            forall|k: int|
                0 <= k < d as int ==> (#[trigger] v@[k]) as int == idx3(
                    ndim as nat,
                    p_held as int,
                    i_held as int,
                    p_outer as int,
                    c_outer as int,
                    p_inner as int,
                    c_inner as int,
                )[k],
        decreases ndim - d,
    {
        let val: usize = if d == p_inner {
            c_inner
        } else if d == p_outer {
            c_outer
        } else if d == p_held {
            i_held
        } else {
            0
        };
        v.push(val);
        d += 1;
    }
    proof {
        assert(v@.map_values(|x: usize| x as int) =~= idx3(
            ndim as nat,
            p_held as int,
            i_held as int,
            p_outer as int,
            c_outer as int,
            p_inner as int,
            c_inner as int,
        ));
    }
    v
}

/// Whether one projection of `vol` with the given roles can be
/// extracted: the three positions name dimensions of the volume, the
/// held coordinate is in bounds, and the two free roles are distinct.
pub open spec fn plane_ok(
    vol_shape: Seq<int>,
    p_held: int,
    i_held: int,
    p_outer: int,
    p_inner: int,
) -> bool {
    &&& 0 <= p_held < vol_shape.len()
    &&& 0 <= p_outer < vol_shape.len()
    &&& 0 <= p_inner < vol_shape.len()
    &&& 0 <= i_held < vol_shape[p_held]
    &&& p_inner != p_outer
}

/// Extracts one projection: sweeps the outer role over the rows and the
/// inner role over the columns of a fresh output buffer shaped
/// `[shape[p_inner], shape[p_outer]]`, reading the volume at the held
/// coordinate.
fn extract_plane(vol: &CflBuffer, p_held: usize, i_held: usize, p_outer: usize, p_inner: usize) -> (r:
    Result<(Vec<Complex>, ArrayDim), ViewError>)
    requires
        vol.wf(),
    ensures
        r is Ok <==> plane_ok(
            vol.dims@,
            p_held as int,
            i_held as int,
            p_outer as int,
            p_inner as int,
        ),
        r matches Err(e) ==> e == ViewError::IndexError,
        r matches Ok(p) ==> {
            let dx = vol.dims@[p_inner as int];
            let dy = vol.dims@[p_outer as int];
            &&& p.1@ == seq![dx, dy]
            &&& p.1.wf()
            &&& p.0@.len() == dx * dy
            &&& forall|o: int, i: int|
                0 <= o < dy && 0 <= i < dx ==> p.0@[o * dx + i] == #[trigger] projected_sample(
                    vol.dims@,
                    vol.data@,
                    p_held as int,
                    i_held as int,
                    p_outer as int,
                    o,
                    p_inner as int,
                    i,
                )
        },
{
    let ndim = vol.dims.ndim();
    proof {
        vol.dims.lemma_wf_shape();
    }
    if p_held >= ndim || p_outer >= ndim || p_inner >= ndim {
        return Err(ViewError::IndexError);
    }
    if p_inner == p_outer {
        return Err(ViewError::IndexError);
    }
    let shape = vol.dims.shape();
    if i_held >= shape[p_held] {
        return Err(ViewError::IndexError);
    }
    let dx = shape[p_inner];
    let dy = shape[p_outer];
    let ghost vs = vol.dims@;
    proof {
        lemma_pair_prod_le(vs, p_inner as int, p_outer as int);
        assert(prefix_prod(seq![dx as int, dy as int], 0) == 1);
        assert(prefix_prod(seq![dx as int, dy as int], 1) == dx as int);
        assert(prefix_prod(seq![dx as int, dy as int], 2) == (dx as int) * (dy as int));
    }
    let pshape: Vec<usize> = vec![dx, dy];
    proof {
        assert(pshape@.map_values(|v: usize| v as int) =~= seq![dx as int, dy as int]);
    }
    let pdims = match ArrayDim::from_shape(&pshape) {
        Ok(d) => d,
        Err(_) => {
            proof {
                assert(false);
            }
            return Err(ViewError::IndexError);
        },
    };
    let mut out: Vec<Complex> = Vec::new();
    let mut o: usize = 0;
    while o < dy
        invariant
            vol.wf(),
            all_pos(vol.dims@),
            (p_held as int) < vol.dims@.len(),
            (p_outer as int) < vol.dims@.len(),
            (p_inner as int) < vol.dims@.len(),
            (i_held as int) < vol.dims@[p_held as int],
            dx as int == vol.dims@[p_inner as int],
            dy as int == vol.dims@[p_outer as int],
            o <= dy,
            out@.len() == (o as int) * (dx as int),
            forall|oo: int, ii: int|
                0 <= oo < o as int && 0 <= ii < dx as int ==> out@[oo * (dx as int) + ii]
                    == #[trigger] projected_sample(
                    vol.dims@,
                    vol.data@,
                    p_held as int,
                    i_held as int,
                    p_outer as int,
                    oo,
                    p_inner as int,
                    ii,
                ),
        decreases dy - o,
    {
        let mut i: usize = 0;
        while i < dx
            invariant
                vol.wf(),
                all_pos(vol.dims@),
                (p_held as int) < vol.dims@.len(),
                (p_outer as int) < vol.dims@.len(),
                (p_inner as int) < vol.dims@.len(),
                (i_held as int) < vol.dims@[p_held as int],
                dx as int == vol.dims@[p_inner as int],
                dy as int == vol.dims@[p_outer as int],
                o < dy,
                i <= dx,
                out@.len() == (o as int) * (dx as int) + i as int,
                forall|oo: int, ii: int|
                    0 <= oo < o as int && 0 <= ii < dx as int ==> out@[oo * (dx as int) + ii]
                        == #[trigger] projected_sample(
                        vol.dims@,
                        vol.data@,
                        p_held as int,
                        i_held as int,
                        p_outer as int,
                        oo,
                        p_inner as int,
                        ii,
                    ),
                forall|ii: int|
                    0 <= ii < i as int ==> out@[(o as int) * (dx as int) + ii]
                        == #[trigger] projected_sample(
                        vol.dims@,
                        vol.data@,
                        p_held as int,
                        i_held as int,
                        p_outer as int,
                        o as int,
                        p_inner as int,
                        ii,
                    ),
            decreases dx - i,
        {
            let idx = make_idx3(vol.dims.ndim(), p_held, i_held, p_outer, o, p_inner, i);
            let ghost idxs = idx3(
                vol.dims@.len() as nat,
                p_held as int,
                i_held as int,
                p_outer as int,
                o as int,
                p_inner as int,
                i as int,
            );
            proof {
                assert forall|d: int| 0 <= d < vol.dims@.len() implies 0 <= #[trigger] idxs[d]
                    < vol.dims@[d] by {
                    assert(all_pos(vol.dims@));
                    assert(vol.dims@[d] > 0);
                }
                assert(index_in_bounds(vol.dims@, idx@.map_values(|v: usize| v as int)));
            }
            let addr = match vol.dims.calc_addr(&idx) {
                Ok(a) => a,
                Err(_) => {
                    proof {
                        assert(false);
                    }
                    return Err(ViewError::IndexError);
                },
            };
            out.push(vol.data[addr]);
            proof {
                assert forall|oo: int, ii: int|
                    0 <= oo < o as int && 0 <= ii < dx as int implies out@[oo * (dx as int) + ii]
                        == #[trigger] projected_sample(
                        vol.dims@,
                        vol.data@,
                        p_held as int,
                        i_held as int,
                        p_outer as int,
                        oo,
                        p_inner as int,
                        ii,
                    ) by {
                    assert(oo * (dx as int) + ii < (o as int) * (dx as int)) by (nonlinear_arith)
                        requires
                            0 <= oo,
                            oo < o as int,
                            0 <= ii,
                            ii < dx as int,
                    ;
                }
            }
            i += 1;
        }
        proof {
            let oi: int = o as int;
            let dxi: int = dx as int;
            assert((oi + 1) * dxi == oi * dxi + dxi) by (nonlinear_arith);
            assert forall|oo: int, ii: int|
                0 <= oo < oi + 1 && 0 <= ii < dxi implies out@[oo * dxi + ii]
                    == #[trigger] projected_sample(
                    vol.dims@,
                    vol.data@,
                    p_held as int,
                    i_held as int,
                    p_outer as int,
                    oo,
                    p_inner as int,
                    ii,
                ) by {
                if oo == oi {
                    assert(out@[oi * dxi + ii] == projected_sample(
                        vol.dims@,
                        vol.data@,
                        p_held as int,
                        i_held as int,
                        p_outer as int,
                        oi,
                        p_inner as int,
                        ii,
                    ));
                }
            }
        }
        o += 1;
    }
    proof {
        let dxi: int = dx as int;
        let dyi: int = dy as int;
        assert(dyi * dxi == dxi * dyi) by (nonlinear_arith);
    }
    Ok((out, pdims))
}

/// Selects which volume slices are displayed, and holds the three
/// extracted projections.
pub struct SliceHandler {
    /// The volume dimensions playing the view roles "x", "y", "z".
    pub view_slices: [usize; 3],
    /// The fixed coordinate of each role when its role is held.
    pub slice_indices: [usize; 3],
    /// The x-y projection, rows indexed by the "y" role.
    pub slice_view_1: Vec<Complex>,
    /// The y-z projection, rows indexed by the "z" role.
    pub slice_view_2: Vec<Complex>,
    /// The z-x projection, rows indexed by the "x" role.
    pub slice_view_3: Vec<Complex>,
    /// The shape of the x-y projection.
    pub dims_1: ArrayDim,
    /// The shape of the y-z projection.
    pub dims_2: ArrayDim,
    /// The shape of the z-x projection.
    pub dims_3: ArrayDim,
}

/// Whether a handler is exactly as (re)initialization for `axes` over a
/// volume of shape `s` leaves it: roles set, each fixed coordinate
/// centered at half its role's size, the three projected shapes set,
/// and every output buffer zeroed at its projected size.
pub open spec fn freshly_built(sh: SliceHandler, axes: Seq<usize>, s: Seq<int>) -> bool {
    let d0 = s[axes[0] as int];
    let d1 = s[axes[1] as int];
    let d2 = s[axes[2] as int];
    &&& sh.view_slices@ == axes
    &&& sh.slice_indices@[0] as int == d0 / 2
    &&& sh.slice_indices@[1] as int == d1 / 2
    &&& sh.slice_indices@[2] as int == d2 / 2
    &&& sh.dims_1@ == seq![d0, d1]
    &&& sh.dims_2@ == seq![d1, d2]
    &&& sh.dims_3@ == seq![d2, d0]
    &&& sh.slice_view_1@.len() == d0 * d1
    &&& sh.slice_view_2@.len() == d1 * d2
    &&& sh.slice_view_3@.len() == d2 * d0
    &&& forall|k: int|
        0 <= k < sh.slice_view_1@.len() ==> #[trigger] sh.slice_view_1@[k] == (Complex {
            re_bits: 0,
            im_bits: 0,
        })
    &&& forall|k: int|
        0 <= k < sh.slice_view_2@.len() ==> #[trigger] sh.slice_view_2@[k] == (Complex {
            re_bits: 0,
            im_bits: 0,
        })
    &&& forall|k: int|
        0 <= k < sh.slice_view_3@.len() ==> #[trigger] sh.slice_view_3@[k] == (Complex {
            re_bits: 0,
            im_bits: 0,
        })
}

impl SliceHandler {
    /// Well-formedness: the three roles name pairwise distinct
    /// dimensions and every output buffer length equals its own shape's
    /// element count.
    pub open spec fn wf(self) -> bool {
        &&& self.view_slices@[0] != self.view_slices@[1]
        &&& self.view_slices@[1] != self.view_slices@[2]
        &&& self.view_slices@[0] != self.view_slices@[2]
        &&& self.dims_1.wf()
        &&& self.dims_2.wf()
        &&& self.dims_3.wf()
        &&& self.dims_1@.len() == 2
        &&& self.dims_2@.len() == 2
        &&& self.dims_3@.len() == 2
        &&& self.slice_view_1@.len() == prefix_prod(self.dims_1@, 2)
        &&& self.slice_view_2@.len() == prefix_prod(self.dims_2@, 2)
        &&& self.slice_view_3@.len() == prefix_prod(self.dims_3@, 2)
    }

    /// Builds a handler for the given roles over a volume of shape
    /// `dims`: centers every fixed coordinate and allocates the three
    /// zeroed projections.
    fn build(axes: [usize; 3], dims: &ArrayDim) -> (r: Result<SliceHandler, ViewError>)
        requires
            dims.wf(),
        ensures
            r is Ok <==> {
                &&& (axes@[0] as int) < dims@.len()
                &&& (axes@[1] as int) < dims@.len()
                &&& (axes@[2] as int) < dims@.len()
                &&& axes@[0] != axes@[1]
                &&& axes@[1] != axes@[2]
                &&& axes@[0] != axes@[2]
            },
            r matches Err(e) ==> e == ViewError::IndexError,
            r matches Ok(sh) ==> freshly_built(sh, axes@, dims@) && sh.wf(),
    {
        let nd = dims.ndim();
        proof {
            dims.lemma_wf_shape();
        }
        if axes[0] >= nd || axes[1] >= nd || axes[2] >= nd {
            return Err(ViewError::IndexError);
        }
        if axes[0] == axes[1] || axes[1] == axes[2] || axes[0] == axes[2] {
            return Err(ViewError::IndexError);
        }
        let shape = dims.shape();
        let d0 = shape[axes[0]];
        let d1 = shape[axes[1]];
        let d2 = shape[axes[2]];
        proof {
            lemma_pair_prod_le(dims@, axes@[0] as int, axes@[1] as int);
            lemma_pair_prod_le(dims@, axes@[1] as int, axes@[2] as int);
            lemma_pair_prod_le(dims@, axes@[2] as int, axes@[0] as int);
        }
        let dims_1 = Self::plane_dims(d0, d1);
        let dims_2 = Self::plane_dims(d1, d2);
        let dims_3 = Self::plane_dims(d2, d0);
        let n1 = dims_1.numel();
        let n2 = dims_2.numel();
        let n3 = dims_3.numel();
        let slice_indices: [usize; 3] = [d0 / 2, d1 / 2, d2 / 2];
        proof {
            assert(slice_indices@ =~= seq![d0 / 2, d1 / 2, d2 / 2]);
        }
        Ok(
            SliceHandler {
                view_slices: axes,
                slice_indices,
                slice_view_1: zero_samples(n1),
                slice_view_2: zero_samples(n2),
                slice_view_3: zero_samples(n3),
                dims_1,
                dims_2,
                dims_3,
            },
        )
    }

    /// The shape of one projection: `a` columns by `b` rows, for sizes
    /// whose product is addressable.
    fn plane_dims(a: usize, b: usize) -> (r: ArrayDim)
        requires
            a > 0,
            b > 0,
            (a as int) * (b as int) <= usize::MAX as int,
        ensures
            r@ == seq![a as int, b as int],
            r.wf(),
            prefix_prod(r@, 2) == (a as int) * (b as int),
    {
        let pshape: Vec<usize> = vec![a, b];
        proof {
            assert(pshape@.map_values(|v: usize| v as int) =~= seq![a as int, b as int]);
            assert(prefix_prod(seq![a as int, b as int], 0) == 1);
            assert(prefix_prod(seq![a as int, b as int], 1) == a as int);
            assert(prefix_prod(seq![a as int, b as int], 2) == (a as int) * (b as int));
        }
        match ArrayDim::from_shape(&pshape) {
            Ok(d) => d,
            Err(_) => {
                proof {
                    assert(false);
                }
                ArrayDim::from_shape(&pshape).unwrap()
            },
        }
    }

    /// Initializes a handler over `dims`: the first three dimensions
    /// play the roles "x", "y", "z", each fixed coordinate is centered,
    /// and the three projections are allocated zeroed. Fails with
    /// `DimensionError` when the volume has fewer than three
    /// dimensions.
    pub fn from_dims(dims: &ArrayDim) -> (r: Result<SliceHandler, ViewError>)
        requires
            dims.wf(),
        ensures
            r is Ok <==> dims@.len() >= 3,
            r matches Err(e) ==> e == ViewError::DimensionError,
            r matches Ok(sh) ==> freshly_built(sh, seq![0usize, 1usize, 2usize], dims@)
                && sh.wf(),
    {
        let axes: [usize; 3] = [0, 1, 2];
        proof {
            assert(axes@ =~= seq![0usize, 1usize, 2usize]);
        }
        match Self::build(axes, dims) {
            Ok(sh) => Ok(sh),
            Err(_) => Err(ViewError::DimensionError),
        }
    }

    /// Re-assigns which volume dimensions play the view roles:
    /// re-centers every fixed coordinate and reallocates the three
    /// projections for the new roles. The volume itself need not be
    /// reloaded. Fails with `IndexError` when a role names a dimension
    /// the volume does not have, or the roles are not distinct.
    pub fn set_view_axes(&mut self, axes: [usize; 3], dims: &ArrayDim) -> (r: Result<
        (),
        ViewError,
    >)
        requires
            old(self).wf(),
            dims.wf(),
        ensures
            r is Ok <==> {
                &&& (axes@[0] as int) < dims@.len()
                &&& (axes@[1] as int) < dims@.len()
                &&& (axes@[2] as int) < dims@.len()
                &&& axes@[0] != axes@[1]
                &&& axes@[1] != axes@[2]
                &&& axes@[0] != axes@[2]
            },
            r matches Err(e) ==> e == ViewError::IndexError && *final(self) == *old(self),
            r is Ok ==> freshly_built(*final(self), axes@, dims@) && final(self).wf(),
    {
        match Self::build(axes, dims) {
            Ok(sh) => {
                *self = sh;
                Ok(())
            },
            Err(e) => Err(e),
        }
    }

    /// Refills the x-y projection: sweeps the "y" role over the rows
    /// and the "x" role over the columns while the "z" role is held at
    /// its fixed coordinate, resizing the output and its shape to the
    /// volume first. Fails with `IndexError`, leaving the handler
    /// unchanged, when a role or the held coordinate is out of bounds
    /// for this volume.
    pub fn update_slice_1(&mut self, cfl_buffer: &CflBuffer) -> (r: Result<(), ViewError>)
        requires
            old(self).wf(),
            cfl_buffer.wf(),
        ensures
            r is Ok <==> plane_ok(
                cfl_buffer.dims@,
                old(self).view_slices@[2] as int,
                old(self).slice_indices@[2] as int,
                old(self).view_slices@[1] as int,
                old(self).view_slices@[0] as int,
            ),
            r matches Err(e) ==> e == ViewError::IndexError && *final(self) == *old(self),
            r is Ok ==> {
                let s = cfl_buffer.dims@;
                let vs0 = old(self).view_slices@[0] as int;
                let vs1 = old(self).view_slices@[1] as int;
                let vs2 = old(self).view_slices@[2] as int;
                let si2 = old(self).slice_indices@[2] as int;
                let dx = s[vs0];
                let dy = s[vs1];
                &&& final(self).dims_1@ == seq![dx, dy]
                &&& final(self).slice_view_1@.len() == dx * dy
                &&& forall|o: int, i: int|
                    0 <= o < dy && 0 <= i < dx ==> final(self).slice_view_1@[o * dx + i]
                        == #[trigger] projected_sample(s, cfl_buffer.data@, vs2, si2, vs1, o, vs0, i)
                &&& final(self).view_slices == old(self).view_slices
                &&& final(self).slice_indices == old(self).slice_indices
                &&& final(self).slice_view_2 == old(self).slice_view_2
                &&& final(self).slice_view_3 == old(self).slice_view_3
                &&& final(self).dims_2 == old(self).dims_2
                &&& final(self).dims_3 == old(self).dims_3
                &&& final(self).wf()
            },
    {
        let (v, d) = match extract_plane(
            cfl_buffer,
            self.view_slices[2],
            self.slice_indices[2],
            self.view_slices[1],
            self.view_slices[0],
        ) {
            Ok(p) => p,
            Err(e) => {
                return Err(e);
            },
        };
        proof {
            let dx = cfl_buffer.dims@[old(self).view_slices@[0] as int];
            let dy = cfl_buffer.dims@[old(self).view_slices@[1] as int];
            assert(prefix_prod(seq![dx, dy], 0) == 1);
            assert(prefix_prod(seq![dx, dy], 1) == dx);
            assert(prefix_prod(seq![dx, dy], 2) == dx * dy);
        }
        self.slice_view_1 = v;
        self.dims_1 = d;
        Ok(())
    }

    /// Refills the y-z projection: sweeps the "z" role over the rows
    /// and the "y" role over the columns while the "x" role is held at
    /// its fixed coordinate, resizing the output and its shape to the
    /// volume first. Fails with `IndexError`, leaving the handler
    /// unchanged, when a role or the held coordinate is out of bounds
    /// for this volume.
    pub fn update_slice_2(&mut self, cfl_buffer: &CflBuffer) -> (r: Result<(), ViewError>)
        requires
            old(self).wf(),
            cfl_buffer.wf(),
        ensures
            r is Ok <==> plane_ok(
                cfl_buffer.dims@,
                old(self).view_slices@[0] as int,
                old(self).slice_indices@[0] as int,
                old(self).view_slices@[2] as int,
                old(self).view_slices@[1] as int,
            ),
            r matches Err(e) ==> e == ViewError::IndexError && *final(self) == *old(self),
            r is Ok ==> {
                let s = cfl_buffer.dims@;
                let vs0 = old(self).view_slices@[0] as int;
                let vs1 = old(self).view_slices@[1] as int;
                let vs2 = old(self).view_slices@[2] as int;
                let si0 = old(self).slice_indices@[0] as int;
                let dy = s[vs1];
                let dz = s[vs2];
                &&& final(self).dims_2@ == seq![dy, dz]
                &&& final(self).slice_view_2@.len() == dy * dz
                &&& forall|o: int, i: int|
                    0 <= o < dz && 0 <= i < dy ==> final(self).slice_view_2@[o * dy + i]
                        == #[trigger] projected_sample(s, cfl_buffer.data@, vs0, si0, vs2, o, vs1, i)
                &&& final(self).view_slices == old(self).view_slices
                &&& final(self).slice_indices == old(self).slice_indices
                &&& final(self).slice_view_1 == old(self).slice_view_1
                &&& final(self).slice_view_3 == old(self).slice_view_3
                &&& final(self).dims_1 == old(self).dims_1
                &&& final(self).dims_3 == old(self).dims_3
                &&& final(self).wf()
            },
    {
        let (v, d) = match extract_plane(
            cfl_buffer,
            self.view_slices[0],
            self.slice_indices[0],
            self.view_slices[2],
            self.view_slices[1],
        ) {
            Ok(p) => p,
            Err(e) => {
                return Err(e);
            },
        };
        proof {
            let dy = cfl_buffer.dims@[old(self).view_slices@[1] as int];
            let dz = cfl_buffer.dims@[old(self).view_slices@[2] as int];
            assert(prefix_prod(seq![dy, dz], 0) == 1);
            assert(prefix_prod(seq![dy, dz], 1) == dy);
            assert(prefix_prod(seq![dy, dz], 2) == dy * dz);
        }
        self.slice_view_2 = v;
        self.dims_2 = d;
        Ok(())
    }

    /// Refills the z-x projection: sweeps the "x" role over the rows
    /// and the "z" role over the columns while the "y" role is held at
    /// its fixed coordinate, resizing the output and its shape to the
    /// volume first. Fails with `IndexError`, leaving the handler
    /// unchanged, when a role or the held coordinate is out of bounds
    /// for this volume.
    pub fn update_slice_3(&mut self, cfl_buffer: &CflBuffer) -> (r: Result<(), ViewError>)
        requires
            old(self).wf(),
            cfl_buffer.wf(),
        ensures
            r is Ok <==> plane_ok(
                cfl_buffer.dims@,
                old(self).view_slices@[1] as int,
                old(self).slice_indices@[1] as int,
                old(self).view_slices@[0] as int,
                old(self).view_slices@[2] as int,
            ),
            r matches Err(e) ==> e == ViewError::IndexError && *final(self) == *old(self),
            r is Ok ==> {
                let s = cfl_buffer.dims@;
                let vs0 = old(self).view_slices@[0] as int;
                let vs1 = old(self).view_slices@[1] as int;
                let vs2 = old(self).view_slices@[2] as int;
                let si1 = old(self).slice_indices@[1] as int;
                let dz = s[vs2];
                let dx = s[vs0];
                &&& final(self).dims_3@ == seq![dz, dx]
                &&& final(self).slice_view_3@.len() == dz * dx
                &&& forall|o: int, i: int|
                    0 <= o < dx && 0 <= i < dz ==> final(self).slice_view_3@[o * dz + i]
                        == #[trigger] projected_sample(s, cfl_buffer.data@, vs1, si1, vs0, o, vs2, i)
                &&& final(self).view_slices == old(self).view_slices
                &&& final(self).slice_indices == old(self).slice_indices
                &&& final(self).slice_view_1 == old(self).slice_view_1
                &&& final(self).slice_view_2 == old(self).slice_view_2
                &&& final(self).dims_1 == old(self).dims_1
                &&& final(self).dims_2 == old(self).dims_2
                &&& final(self).wf()
            },
    {
        let (v, d) = match extract_plane(
            cfl_buffer,
            self.view_slices[1],
            self.slice_indices[1],
            self.view_slices[0],
            self.view_slices[2],
        ) {
            Ok(p) => p,
            Err(e) => {
                return Err(e);
            },
        };
        proof {
            let dz = cfl_buffer.dims@[old(self).view_slices@[2] as int];
            let dx = cfl_buffer.dims@[old(self).view_slices@[0] as int];
            assert(prefix_prod(seq![dz, dx], 0) == 1);
            assert(prefix_prod(seq![dz, dx], 1) == dz);
            assert(prefix_prod(seq![dz, dx], 2) == dz * dx);
        }
        self.slice_view_3 = v;
        self.dims_3 = d;
        Ok(())
    }
}

impl Default for SliceHandler {
    /// The default handler: roles on the first three dimensions, fixed
    /// coordinates at zero, and three blank 128 by 128 projections.
    fn default() -> (r: SliceHandler)
        ensures
            r.wf(),
            r.view_slices@ == seq![0usize, 1usize, 2usize],
            r.slice_indices@ == seq![0usize, 0usize, 0usize],
            r.dims_1@ == seq![128int, 128int],
            r.dims_2@ == seq![128int, 128int],
            r.dims_3@ == seq![128int, 128int],
            r.slice_view_1@.len() == 16384,
            r.slice_view_2@.len() == 16384,
            r.slice_view_3@.len() == 16384,
            forall|k: int|
                0 <= k < r.slice_view_1@.len() ==> #[trigger] r.slice_view_1@[k] == (Complex {
                    re_bits: 0,
                    im_bits: 0,
                }),
            forall|k: int|
                0 <= k < r.slice_view_2@.len() ==> #[trigger] r.slice_view_2@[k] == (Complex {
                    re_bits: 0,
                    im_bits: 0,
                }),
            forall|k: int|
                0 <= k < r.slice_view_3@.len() ==> #[trigger] r.slice_view_3@[k] == (Complex {
                    re_bits: 0,
                    im_bits: 0,
                }),
    {
        let view_slices: [usize; 3] = [0, 1, 2];
        let slice_indices: [usize; 3] = [0, 0, 0];
        proof {
            assert(view_slices@ =~= seq![0usize, 1usize, 2usize]);
            assert(slice_indices@ =~= seq![0usize, 0usize, 0usize]);
        }
        let dims_1 = Self::plane_dims(128, 128);
        let dims_2 = Self::plane_dims(128, 128);
        let dims_3 = Self::plane_dims(128, 128);
        SliceHandler {
            view_slices,
            slice_indices,
            slice_view_1: zero_samples(16384),
            slice_view_2: zero_samples(16384),
            slice_view_3: zero_samples(16384),
            dims_1,
            dims_2,
            dims_3,
        }
    }
}

} // verus!
