//! The volumetric complex buffer.
//!
//! A volume file carries a header shape and a flat sequence of complex
//! samples, each sample a 4-byte little-endian real component followed
//! by a 4-byte little-endian imaginary component. The core copies and
//! rearranges samples but never interprets them numerically, so a
//! sample is carried as the raw 32-bit encodings of its two components;
//! the external display layer reads them as single-precision values.

use vstd::prelude::*;

use crate::dims::{prefix_prod, shape_ok, ArrayDim};
use crate::errors::ViewError;

verus! {

/// One complex sample: the raw 32-bit encodings of its real and
/// imaginary components, opaque to the core.
#[derive(Clone, Copy, Debug, PartialEq, Eq, Structural)]
pub struct Complex {
    pub re_bits: u32,
    pub im_bits: u32,
}

impl Complex {
    /// The sample with both components encoded as zero.
    pub fn zero() -> (r: Complex)
        ensures
            r == (Complex { re_bits: 0, im_bits: 0 }),
    {
        Complex { re_bits: 0, im_bits: 0 }
    }
}

/// The little-endian 32-bit word starting at byte offset `off`.
pub open spec fn le32_at(b: Seq<u8>, off: int) -> int {
    b[off] + 256 * b[off + 1] + 65536 * b[off + 2] + 16777216 * b[off + 3]
}

/// The complex sample encoded at sample index `i`: eight bytes, real
/// component first.
pub open spec fn spec_sample(b: Seq<u8>, i: int) -> Complex {
    Complex { re_bits: le32_at(b, 8 * i) as u32, im_bits: le32_at(b, 8 * i + 4) as u32 }
}

/// A flat ordered sequence of complex samples paired with its shape.
/// Immutable once loaded; replaced wholesale when a new file is loaded.
#[derive(Clone, Debug)]
pub struct CflBuffer {
    /// The samples, in row-major order, fastest-varying dimension first.
    pub data: Vec<Complex>,
    /// The shape of the volume.
    pub dims: ArrayDim,
}

impl CflBuffer {
    /// Well-formedness: the sample count equals the shape's element
    /// count.
    pub open spec fn wf(self) -> bool {
        &&& self.dims.wf()
        &&& self.data@.len() == prefix_prod(self.dims@, self.dims@.len() as int)
    }

    /// Pairs an already-decoded sample vector with its shape. Fails
    /// with `FormatError` when the lengths disagree.
    pub fn from_parts(data: Vec<Complex>, dims: ArrayDim) -> (r: Result<CflBuffer, ViewError>)
        requires
            dims.wf(),
        ensures
            r is Ok <==> data@.len() == prefix_prod(dims@, dims@.len() as int),
            r matches Ok(cb) ==> cb.data == data && cb.dims == dims && cb.wf(),
            r matches Err(e) ==> e == ViewError::FormatError,
    {
        let n = dims.numel();
        if data.len() != n {
            return Err(ViewError::FormatError);
        }
        Ok(CflBuffer { data, dims })
    }

    /// Decodes a volume from its header shape and its raw bytes: eight
    /// bytes per sample, real component first, little-endian. Fails
    /// with `DimensionError` when the shape cannot be carried and with
    /// `FormatError` when the byte length is not exactly eight times
    /// the element count.
    pub fn from_bytes(shape: &Vec<usize>, bytes: &Vec<u8>) -> (r: Result<CflBuffer, ViewError>)
        ensures
            ({
                let s = shape@.map_values(|v: usize| v as int);
                &&& (r is Ok <==> shape_ok(s) && bytes@.len() == 8 * prefix_prod(
                    s,
                    s.len() as int,
                ))
                &&& !shape_ok(s) ==> r == Err::<CflBuffer, ViewError>(ViewError::DimensionError)
                &&& (shape_ok(s) && bytes@.len() != 8 * prefix_prod(s, s.len() as int)) ==> r
                    == Err::<CflBuffer, ViewError>(ViewError::FormatError)
                &&& r matches Ok(cb) ==> {
                    &&& cb.wf()
                    &&& cb.dims@ == s
                    &&& cb.data@.len() == prefix_prod(s, s.len() as int)
                    &&& forall|i: int|
                        0 <= i < cb.data@.len() ==> #[trigger] cb.data@[i] == spec_sample(
                            bytes@,
                            i,
                        )
                }
            }),
    {
        let dims = match ArrayDim::from_shape(shape) {
            Ok(d) => d,
            Err(e) => {
                return Err(e);
            },
        };
        let n = dims.numel();
        if bytes.len() % 8 != 0 {
            return Err(ViewError::FormatError);
        }
        if bytes.len() / 8 != n {
            return Err(ViewError::FormatError);
        }
        let mut data: Vec<Complex> = Vec::new();
        let mut i: usize = 0;
        while i < n
            invariant
                i <= n,
                bytes@.len() == 8 * n,
                bytes@.len() <= usize::MAX as int,
                data@.len() == i as int,
                forall|k: int| 0 <= k < i ==> #[trigger] data@[k] == spec_sample(bytes@, k),
            decreases n - i,
        {
            let off = 8 * i;
            let re = (bytes[off] as u32) + 256 * (bytes[off + 1] as u32) + 65536 * (bytes[off
                + 2] as u32) + 16777216 * (bytes[off + 3] as u32);
            let im = (bytes[off + 4] as u32) + 256 * (bytes[off + 5] as u32) + 65536
                * (bytes[off + 6] as u32) + 16777216 * (bytes[off + 7] as u32);
            data.push(Complex { re_bits: re, im_bits: im });
            i += 1;
        }
        Ok(CflBuffer { data, dims })
    }
}

impl Default for CflBuffer {
    /// The default buffer: a blank 128 by 128 image, every sample zero.
    fn default() -> (r: CflBuffer)
        ensures
            r.wf(),
            r.dims@ == seq![128int, 128int],
            r.data@.len() == 16384,
            forall|i: int|
                0 <= i < r.data@.len() ==> #[trigger] r.data@[i] == (Complex {
                    re_bits: 0,
                    im_bits: 0,
                }),
    {
        let shape: Vec<usize> = vec![128, 128];
        let ghost s = shape@.map_values(|v: usize| v as int);
        proof {
            assert(s =~= seq![128int, 128int]);
            assert(prefix_prod(s, 0) == 1);
            assert(prefix_prod(s, 1) == 128);
            assert(prefix_prod(s, 2) == 16384);
        }
        let dims = match ArrayDim::from_shape(&shape) {
            Ok(d) => d,
            Err(_) => {
                proof {
                    assert(false);
                }
                ArrayDim::from_shape(&shape).unwrap()
            },
        };
        let mut data: Vec<Complex> = Vec::new();
        let mut i: usize = 0;
        while i < 16384
            invariant
                i <= 16384,
                data@.len() == i as int,
                forall|k: int|
                    0 <= k < i ==> #[trigger] data@[k] == (Complex { re_bits: 0, im_bits: 0 }),
            decreases 16384 - i,
        {
            data.push(Complex { re_bits: 0, im_bits: 0 });
            i += 1;
        }
        CflBuffer { data, dims }
    }
}

} // verus!
