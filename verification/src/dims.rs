//! N-dimensional shape and stride calculator.
//!
//! A shape is an ordered sequence of dimension sizes, fastest-varying
//! dimension first. The stride of dimension `d` is the product of all
//! faster dimensions' sizes (so the stride of dimension 0 is 1), and the
//! element count is the product of all sizes. The flat address of an
//! index vector is the stride-weighted sum of its coordinates; for
//! in-bounds coordinates it is proved smaller than the element count, so
//! addressing never aliases into adjacent memory.

use vstd::prelude::*;

use crate::errors::ViewError;

verus! {

/// Largest number of dimensions a shape may have.
pub const MAX_DIMS: usize = 16;

/// The product of the sizes of the first `k` dimensions; the stride of
/// dimension `k`, and for `k == shape.len()` the element count.
pub open spec fn prefix_prod(shape: Seq<int>, k: int) -> int
    decreases k,
{
    if k <= 0 {
        1
    } else {
        prefix_prod(shape, k - 1) * shape[k - 1]
    }
}

/// The stride-weighted sum of the first `k` coordinates of `index`.
pub open spec fn addr_of(shape: Seq<int>, index: Seq<int>, k: int) -> int
    decreases k,
{
    if k <= 0 {
        0
    } else {
        addr_of(shape, index, k - 1) + index[k - 1] * prefix_prod(shape, k - 1)
    }
}

/// Whether every size of `shape` is positive.
pub open spec fn all_pos(shape: Seq<int>) -> bool {
    forall|d: int| 0 <= d < shape.len() ==> shape[d] > 0
}

/// Whether a shape can be carried by an [`ArrayDim`]: at most
/// [`MAX_DIMS`] sizes, all positive, with an addressable element count.
pub open spec fn shape_ok(shape: Seq<int>) -> bool {
    &&& shape.len() <= MAX_DIMS as int
    &&& all_pos(shape)
    &&& prefix_prod(shape, shape.len() as int) <= usize::MAX as int
}

/// Whether the first `len` coordinates of `index` are in bounds for
/// `shape`.
pub open spec fn index_in_bounds(shape: Seq<int>, index: Seq<int>) -> bool {
    &&& index.len() >= shape.len()
    &&& forall|d: int| 0 <= d < shape.len() ==> 0 <= #[trigger] index[d] < shape[d]
}

/// With positive sizes, every prefix product is at least one.
pub proof fn lemma_prefix_prod_pos(shape: Seq<int>, k: int)
    requires
        forall|d: int| 0 <= d < k ==> shape[d] > 0,
        k <= shape.len(),
    ensures
        prefix_prod(shape, k) >= 1,
    decreases k,
{
    if k > 0 {
        lemma_prefix_prod_pos(shape, k - 1);
        let p: int = prefix_prod(shape, k - 1);
        let s: int = shape[k - 1];
        assert(p * s >= 1) by (nonlinear_arith)
            requires
                p >= 1,
                s >= 1,
        ;
    }
}

/// With positive sizes, prefix products grow with the prefix length.
pub proof fn lemma_prefix_prod_mono(shape: Seq<int>, j: int, k: int)
    requires
        0 <= j <= k <= shape.len(),
        forall|d: int| 0 <= d < k ==> shape[d] > 0,
    ensures
        prefix_prod(shape, j) <= prefix_prod(shape, k),
    decreases k - j,
{
    if j < k {
        lemma_prefix_prod_mono(shape, j, k - 1);
        lemma_prefix_prod_pos(shape, k - 1);
        let p: int = prefix_prod(shape, k - 1);
        let s: int = shape[k - 1];
        assert(p <= p * s) by (nonlinear_arith)
            requires
                p >= 1,
                s >= 1,
        ;
    }
}

/// The flat address of in-bounds coordinates is below the element count
/// of the addressed prefix.
pub proof fn lemma_addr_lt(shape: Seq<int>, index: Seq<int>, k: int)
    requires
        0 <= k <= shape.len(),
        forall|d: int| 0 <= d < k ==> shape[d] > 0,
        forall|d: int| 0 <= d < k ==> 0 <= #[trigger] index[d] < shape[d],
    ensures
        0 <= addr_of(shape, index, k) < prefix_prod(shape, k),
    decreases k,
{
    if k > 0 {
        lemma_addr_lt(shape, index, k - 1);
        lemma_prefix_prod_pos(shape, k - 1);
        let a: int = addr_of(shape, index, k - 1);
        let p: int = prefix_prod(shape, k - 1);
        let s: int = shape[k - 1];
        let i: int = index[k - 1];
        assert(0 <= a + i * p && a + i * p < p * s) by (nonlinear_arith)
            requires
                0 <= a < p,
                0 <= i < s,
                p >= 1,
        ;
    }
}

/// With positive sizes and `i < j`, the product of sizes `i` and `j` is
/// bounded by the total element count.
proof fn lemma_pair_prod_le_ordered(s: Seq<int>, i: int, j: int)
    requires
        all_pos(s),
        0 <= i < j < s.len(),
    ensures
        s[i] * s[j] <= prefix_prod(s, s.len() as int),
{
    lemma_prefix_prod_pos(s, i);
    let pi: int = prefix_prod(s, i);
    let pi1: int = prefix_prod(s, i + 1);
    assert(pi1 >= s[i]) by (nonlinear_arith)
        requires
            pi1 == pi * s[i],
            pi >= 1,
            s[i] > 0,
    ;
    lemma_prefix_prod_mono(s, i + 1, j);
    let pj: int = prefix_prod(s, j);
    let pj1: int = prefix_prod(s, j + 1);
    assert(s[i] * s[j] <= pj1) by (nonlinear_arith)
        requires
            pj1 == pj * s[j],
            pj >= s[i],
            s[j] > 0,
            s[i] > 0,
    ;
    lemma_prefix_prod_mono(s, j + 1, s.len() as int);
}

/// With positive sizes, the product of two distinct sizes is bounded by
/// the total element count.
pub proof fn lemma_pair_prod_le(s: Seq<int>, i: int, j: int)
    requires
        all_pos(s),
        0 <= i < s.len(),
        0 <= j < s.len(),
        i != j,
    ensures
        s[i] * s[j] <= prefix_prod(s, s.len() as int),
{
    if i < j {
        lemma_pair_prod_le_ordered(s, i, j);
    } else {
        lemma_pair_prod_le_ordered(s, j, i);
        assert(s[i] * s[j] == s[j] * s[i]) by (nonlinear_arith);
    }
}

/// An ordered sequence of dimension sizes with its derived strides and
/// element count.
#[derive(Clone, Debug)]
pub struct ArrayDim {
    shape: Vec<usize>,
    strides: Vec<usize>,
    numel: usize,
}

impl View for ArrayDim {
    type V = Seq<int>;

    closed spec fn view(&self) -> Seq<int> {
        self.shape@.map_values(|v: usize| v as int)
    }
}

impl ArrayDim {
    /// Well-formedness: at most [`MAX_DIMS`] positive sizes, strides
    /// equal to the prefix products, and the element count equal to the
    /// total product.
    pub closed spec fn wf(self) -> bool {
        &&& self@.len() <= MAX_DIMS as int
        &&& all_pos(self@)
        &&& self.strides@.len() == self@.len()
        &&& forall|d: int|
            0 <= d < self@.len() ==> (self.strides@[d] as int) == prefix_prod(self@, d)
        &&& self.numel as int == prefix_prod(self@, self@.len() as int)
    }

    /// A well-formed shape has only positive sizes, a bounded dimension
    /// count, and an addressable element count.
    pub proof fn lemma_wf_shape(self)
        requires
            self.wf(),
        ensures
            shape_ok(self@),
            all_pos(self@),
            self@.len() <= MAX_DIMS as int,
            prefix_prod(self@, self@.len() as int) <= usize::MAX as int,
    {
    }

    /// The number of dimensions.
    pub fn ndim(&self) -> (r: usize)
        ensures
            r as int == self@.len(),
    {
        self.shape.len()
    }

    /// The dimension sizes.
    pub fn shape(&self) -> (r: &Vec<usize>)
        ensures
            r@.len() == self@.len(),
            forall|d: int| 0 <= d < self@.len() ==> (r@[d] as int) == self@[d],
    {
        &self.shape
    }

    /// The strides: the stride of dimension `d` is the product of the
    /// sizes of dimensions `0..d`.
    pub fn strides(&self) -> (r: &Vec<usize>)
        requires
            self.wf(),
        ensures
            r@.len() == self@.len(),
            forall|d: int| 0 <= d < self@.len() ==> (r@[d] as int) == prefix_prod(self@, d),
    {
        &self.strides
    }

    /// The element count: the product of all sizes.
    pub fn numel(&self) -> (r: usize)
        requires
            self.wf(),
        ensures
            r as int == prefix_prod(self@, self@.len() as int),
            r >= 1,
    {
        proof {
            lemma_prefix_prod_pos(self@, self@.len() as int);
        }
        self.numel
    }

    /// Computes strides and the element count for `shape`. Fails with
    /// `DimensionError` when a size is zero, the dimension count exceeds
    /// [`MAX_DIMS`], or the element count cannot be addressed.
    pub fn from_shape(shape: &Vec<usize>) -> (r: Result<ArrayDim, ViewError>)
        ensures
            r is Ok <==> shape_ok(shape@.map_values(|v: usize| v as int)),
            r matches Ok(ad) ==> ad@ == shape@.map_values(|v: usize| v as int) && ad.wf(),
            r matches Err(e) ==> e == ViewError::DimensionError,
    {
        let ghost s = shape@.map_values(|v: usize| v as int);
        if shape.len() > MAX_DIMS {
            return Err(ViewError::DimensionError);
        }
        let mut strides: Vec<usize> = Vec::new();
        let mut acc: usize = 1;
        let mut i: usize = 0;
        while i < shape.len()
            invariant
                i <= shape.len(),
                shape.len() <= MAX_DIMS,
                s == shape@.map_values(|v: usize| v as int),
                s.len() == shape@.len(),
                forall|d: int| 0 <= d < i ==> s[d] > 0,
                strides@.len() == i as int,
                forall|d: int| 0 <= d < i ==> (strides@[d] as int) == prefix_prod(s, d),
                acc as int == prefix_prod(s, i as int),
            decreases shape.len() - i,
        {
            let sz = shape[i];
            if sz == 0 {
                proof {
                    assert(s[i as int] == 0);
                }
                return Err(ViewError::DimensionError);
            }
            strides.push(acc);
            let next = match acc.checked_mul(sz) {
                Some(v) => v,
                None => {
                    proof {
                        if all_pos(s) && prefix_prod(s, s.len() as int) <= usize::MAX as int {
                            lemma_prefix_prod_mono(s, i as int + 1, s.len() as int);
                        }
                    }
                    return Err(ViewError::DimensionError);
                },
            };
            acc = next;
            i += 1;
        }
        Ok(ArrayDim { shape: shape.clone(), strides, numel: acc })
    }

    /// The flat address `sum(index[d] * strides[d])` of the coordinate
    /// vector `index`, which must cover every dimension and stay within
    /// the shape; otherwise fails with `IndexError`. A returned address
    /// is always below the element count.
    pub fn calc_addr(&self, index: &Vec<usize>) -> (r: Result<usize, ViewError>)
        requires
            self.wf(),
        ensures
            r is Ok <==> index_in_bounds(self@, index@.map_values(|v: usize| v as int)),
            r matches Ok(a) ==> {
                let idx = index@.map_values(|v: usize| v as int);
                &&& a as int == addr_of(self@, idx, self@.len() as int)
                &&& (a as int) < prefix_prod(self@, self@.len() as int)
            },
            r matches Err(e) ==> e == ViewError::IndexError,
    {
        let ghost idx = index@.map_values(|v: usize| v as int);
        if index.len() < self.shape.len() {
            return Err(ViewError::IndexError);
        }
        let mut addr: usize = 0;
        let mut d: usize = 0;
        while d < self.shape.len()
            invariant
                self.wf(),
                d <= self@.len(),
                idx == index@.map_values(|v: usize| v as int),
                idx.len() >= self@.len(),
                forall|k: int| 0 <= k < d ==> 0 <= #[trigger] idx[k] < self@[k],
                addr as int == addr_of(self@, idx, d as int),
                (addr as int) < prefix_prod(self@, d as int),
            decreases self@.len() - d,
        {
            proof {
                lemma_addr_lt(self@, idx, d as int);
            }
            if index[d] >= self.shape[d] {
                return Err(ViewError::IndexError);
            }
            proof {
                lemma_addr_lt(self@, idx, d as int + 1);
                lemma_prefix_prod_mono(self@, d as int + 1, self@.len() as int);
            }
            addr = addr + index[d] * self.strides[d];
            d += 1;
        }
        Ok(addr)
    }
}

} // verus!
