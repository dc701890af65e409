//! Series built from flat waveform sample buffers.
//!
//! A waveform file is a flat sequence of 8-byte little-endian values
//! grouped into fixed-length records; a series picks one record field
//! as its x-coordinate and another as its y-coordinate. The core never
//! interprets the values numerically — each is carried as its raw
//! 64-bit encoding — except to order them, which it does through the
//! IEEE-754 total-order key [`f64_key`]; on finite values that order
//! coincides with numeric order.

use vstd::prelude::*;

use crate::errors::ViewError;

verus! {

/// The little-endian 64-bit word starting at byte offset `off`.
pub open spec fn le64_at(b: Seq<u8>, off: int) -> int {
    b[off] + 0x100 * b[off + 1] + 0x1_0000 * b[off + 2] + 0x100_0000 * b[off + 3] + 0x1_0000_0000
        * b[off + 4] + 0x100_0000_0000 * b[off + 5] + 0x1_0000_0000_0000 * b[off + 6]
        + 0x100_0000_0000_0000 * b[off + 7]
}

/// Decodes a flat sequence of 8-byte little-endian sample encodings.
/// Fails with `FormatError` when the byte length is not a multiple of
/// eight.
pub fn samples_from_bytes(bytes: &Vec<u8>) -> (r: Result<Vec<u64>, ViewError>)
    ensures
        r is Ok <==> bytes@.len() % 8 == 0,
        r matches Err(e) ==> e == ViewError::FormatError,
        r matches Ok(v) ==> {
            &&& v@.len() == bytes@.len() / 8
            &&& forall|k: int| 0 <= k < v@.len() ==> (#[trigger] v@[k]) as int == le64_at(bytes@, 8 * k)
        },
{
    if bytes.len() % 8 != 0 {
        return Err(ViewError::FormatError);
    }
    let n = bytes.len() / 8;
    let mut v: Vec<u64> = Vec::new();
    let mut i: usize = 0;
    while i < n
        invariant
            i <= n,
            n as int == bytes@.len() / 8,
            bytes@.len() % 8 == 0,
            bytes@.len() <= usize::MAX as int,
            v@.len() == i as int,
            forall|k: int| 0 <= k < i as int ==> (#[trigger] v@[k]) as int == le64_at(bytes@, 8 * k),
        decreases n - i,
    {
        let off = 8 * i;
        let w = (bytes[off] as u64) + 0x100 * (bytes[off + 1] as u64) + 0x1_0000 * (bytes[off
            + 2] as u64) + 0x100_0000 * (bytes[off + 3] as u64) + 0x1_0000_0000 * (bytes[off
            + 4] as u64) + 0x100_0000_0000 * (bytes[off + 5] as u64) + 0x1_0000_0000_0000
            * (bytes[off + 6] as u64) + 0x100_0000_0000_0000 * (bytes[off + 7] as u64);
        v.push(w);
        i += 1;
    }
    Ok(v)
}

/// The IEEE-754 total-order key of a 64-bit sample encoding: encodings
/// with the sign bit set order below the rest and among themselves in
/// reverse magnitude order. On finite values this order coincides with
/// numeric order, and the two zero encodings share the key zero.
pub open spec fn f64_key(bits: u64) -> int {
    if bits >= 0x8000_0000_0000_0000 {
        -((bits as int) - 0x8000_0000_0000_0000)
    } else {
        bits as int
    }
}

/// Whether `a` orders at or below `b` under the total-order key.
pub fn key_le(a: u64, b: u64) -> (r: bool)
    ensures
        r == (f64_key(a) <= f64_key(b)),
{
    let sign_a = a >= 0x8000_0000_0000_0000;
    let sign_b = b >= 0x8000_0000_0000_0000;
    if sign_a && sign_b {
        a >= b
    } else if !sign_a && !sign_b {
        a <= b
    } else if sign_a {
        true
    } else {
        a == 0 && b == 0x8000_0000_0000_0000
    }
}

/// One 2D point in domain space; the coordinates are raw 64-bit sample
/// encodings, opaque to the core.
#[derive(Clone, Copy, Debug, PartialEq, Eq, Structural)]
pub struct PlotPoint {
    pub x_bits: u64,
    pub y_bits: u64,
}

/// A fixed display color: four 8-bit channels.
#[derive(Clone, Copy, Debug, PartialEq, Eq, Structural)]
pub struct Color {
    pub red: u8,
    pub green: u8,
    pub blue: u8,
    pub alpha: u8,
}

impl Color {
    /// Opaque black.
    pub fn black() -> (r: Color)
        ensures
            r == (Color { red: 0, green: 0, blue: 0, alpha: 255 }),
    {
        Color { red: 0, green: 0, blue: 0, alpha: 255 }
    }
}

/// The point gathered from record `k` of a buffer of `stride`-length
/// records, picking fields `x_offset` and `y_offset`.
pub open spec fn gathered(
    buffer: Seq<u64>,
    stride: int,
    x_offset: int,
    y_offset: int,
    k: int,
) -> PlotPoint {
    PlotPoint { x_bits: buffer[k * stride + x_offset], y_bits: buffer[k * stride + y_offset] }
}

/// An ordered sequence of domain-space points with a visibility flag
/// and a fixed display color. The order is the rendering order:
/// adjacent points are connected. The point sequence is rebuilt
/// wholesale when the source buffer changes; visibility is the only
/// field mutated afterward.
#[derive(Clone, Debug)]
pub struct LineSeries {
    /// Whether the series is drawn.
    pub visible: bool,
    /// The points, in rendering order.
    pub points: Vec<PlotPoint>,
    /// The stroke color.
    pub color: Color,
}

impl LineSeries {
    /// An empty, visible, black series.
    pub fn new() -> (r: LineSeries)
        ensures
            r.visible,
            r.points@.len() == 0,
            r.color == (Color { red: 0, green: 0, blue: 0, alpha: 255 }),
    {
        LineSeries { visible: true, points: Vec::new(), color: Color::black() }
    }

    /// Gathers points from a flat buffer of consecutive `stride`-length
    /// records, emitting `(record[x_offset], record[y_offset])` per
    /// record in record order; a trailing partial record is dropped.
    /// Fails with `FormatError` when the stride is zero or an offset
    /// does not lie within the record.
    pub fn from_buffer(
        buffer: &Vec<u64>,
        stride: usize,
        x_offset: usize,
        y_offset: usize,
        color: Color,
    ) -> (r: Result<LineSeries, ViewError>)
        ensures
            r is Ok <==> stride > 0 && x_offset < stride && y_offset < stride,
            r matches Err(e) ==> e == ViewError::FormatError,
            r matches Ok(ls) ==> {
                &&& ls.visible
                &&& ls.color == color
                &&& ls.points@.len() == buffer@.len() as int / stride as int
                &&& forall|k: int|
                    0 <= k < ls.points@.len() ==> #[trigger] ls.points@[k] == gathered(
                        buffer@,
                        stride as int,
                        x_offset as int,
                        y_offset as int,
                        k,
                    )
            },
    {
        if stride == 0 || x_offset >= stride || y_offset >= stride {
            return Err(ViewError::FormatError);
        }
        let n = buffer.len() / stride;
        proof {
            vstd::arithmetic::div_mod::lemma_fundamental_div_mod(
                buffer@.len() as int,
                stride as int,
            );
            let q: int = buffer@.len() as int / stride as int;
            assert(q * (stride as int) == (stride as int) * q) by (nonlinear_arith);
        }
        let mut points: Vec<PlotPoint> = Vec::new();
        let mut k: usize = 0;
        while k < n
            invariant
                k <= n,
                stride > 0,
                x_offset < stride,
                y_offset < stride,
                n as int == buffer@.len() as int / stride as int,
                (n as int) * (stride as int) <= buffer@.len(),
                buffer@.len() <= usize::MAX as int,
                points@.len() == k as int,
                forall|kk: int|
                    0 <= kk < k as int ==> #[trigger] points@[kk] == gathered(
                        buffer@,
                        stride as int,
                        x_offset as int,
                        y_offset as int,
                        kk,
                    ),
            decreases n - k,
        {
            proof {
                let ki: int = k as int;
                let si: int = stride as int;
                let ni: int = n as int;
                assert((ki + 1) * si <= ni * si) by (nonlinear_arith)
                    requires
                        ki + 1 <= ni,
                        si > 0,
                ;
                assert(ki * si + si == (ki + 1) * si) by (nonlinear_arith);
            }
            let base = k * stride;
            let p = PlotPoint { x_bits: buffer[base + x_offset], y_bits: buffer[base + y_offset] };
            points.push(p);
            k += 1;
        }
        Ok(LineSeries { visible: true, points, color })
    }

    /// Shows or hides the series. The points and the color are left
    /// untouched, so hiding and re-showing a series leaves its points
    /// exactly as they were.
    pub fn set_visibility(&mut self, visible: bool)
        ensures
            final(self).visible == visible,
            final(self).points == old(self).points,
            final(self).color == old(self).color,
    {
        self.visible = visible;
    }

    /// The drawable geometry of the series: one segment per adjacent
    /// pair of points, in order; a hidden series draws nothing.
    pub fn segments(&self) -> (r: Vec<(PlotPoint, PlotPoint)>)
        ensures
            !self.visible ==> r@.len() == 0,
            self.visible && self.points@.len() > 0 ==> r@.len() == self.points@.len() - 1,
            self.visible && self.points@.len() == 0 ==> r@.len() == 0,
            forall|k: int|
                0 <= k < r@.len() ==> #[trigger] r@[k] == (self.points@[k], self.points@[k + 1]),
    {
        let mut r: Vec<(PlotPoint, PlotPoint)> = Vec::new();
        if !self.visible || self.points.len() == 0 {
            return r;
        }
        let mut k: usize = 0;
        while k + 1 < self.points.len()
            invariant
                self.points@.len() > 0,
                self.points@.len() <= usize::MAX as int,
                k as int <= self.points@.len() - 1,
                r@.len() == k as int,
                forall|kk: int|
                    0 <= kk < k as int ==> #[trigger] r@[kk] == (
                        self.points@[kk],
                        self.points@[kk + 1],
                    ),
            decreases self.points@.len() - k,
        {
            r.push((self.points[k], self.points[k + 1]));
            k += 1;
        }
        r
    }

    /// The least and greatest y-coordinate encodings over the points,
    /// under the total-order key. Fails with `EmptyDataError` when the
    /// series has no points.
    pub fn y_min_max(&self) -> (r: Result<(u64, u64), ViewError>)
        ensures
            r is Ok <==> self.points@.len() > 0,
            r matches Err(e) ==> e == ViewError::EmptyDataError,
            r matches Ok(p) ==> {
                &&& exists|k: int|
                    0 <= k < self.points@.len() && (#[trigger] self.points@[k]).y_bits == p.0
                &&& exists|k: int|
                    0 <= k < self.points@.len() && (#[trigger] self.points@[k]).y_bits == p.1
                &&& forall|k: int|
                    0 <= k < self.points@.len() ==> f64_key(p.0) <= f64_key(
                        (#[trigger] self.points@[k]).y_bits,
                    ) && f64_key(self.points@[k].y_bits) <= f64_key(p.1)
            },
    {
        if self.points.len() == 0 {
            return Err(ViewError::EmptyDataError);
        }
        let mut mn = self.points[0].y_bits;
        let mut mx = self.points[0].y_bits;
        let mut k: usize = 1;
        while k < self.points.len()
            invariant
                1 <= k <= self.points@.len(),
                exists|j: int| 0 <= j < k as int && (#[trigger] self.points@[j]).y_bits == mn,
                exists|j: int| 0 <= j < k as int && (#[trigger] self.points@[j]).y_bits == mx,
                forall|j: int|
                    0 <= j < k as int ==> f64_key(mn) <= f64_key(
                        (#[trigger] self.points@[j]).y_bits,
                    ) && f64_key(self.points@[j].y_bits) <= f64_key(mx),
            decreases self.points@.len() - k,
        {
            let y = self.points[k].y_bits;
            if !key_le(mn, y) {
                mn = y;
            }
            if !key_le(y, mx) {
                mx = y;
            }
            k += 1;
        }
        Ok((mn, mx))
    }

    /// The least and greatest x-coordinate encodings over the points,
    /// under the total-order key. Fails with `EmptyDataError` when the
    /// series has no points.
    pub fn x_min_max(&self) -> (r: Result<(u64, u64), ViewError>)
        ensures
            r is Ok <==> self.points@.len() > 0,
            r matches Err(e) ==> e == ViewError::EmptyDataError,
            r matches Ok(p) ==> {
                &&& exists|k: int|
                    0 <= k < self.points@.len() && (#[trigger] self.points@[k]).x_bits == p.0
                &&& exists|k: int|
                    0 <= k < self.points@.len() && (#[trigger] self.points@[k]).x_bits == p.1
                &&& forall|k: int|
                    0 <= k < self.points@.len() ==> f64_key(p.0) <= f64_key(
                        (#[trigger] self.points@[k]).x_bits,
                    ) && f64_key(self.points@[k].x_bits) <= f64_key(p.1)
            },
    {
        if self.points.len() == 0 {
            return Err(ViewError::EmptyDataError);
        }
        let mut mn = self.points[0].x_bits;
        let mut mx = self.points[0].x_bits;
        let mut k: usize = 1;
        while k < self.points.len()
            invariant
                1 <= k <= self.points@.len(),
                exists|j: int| 0 <= j < k as int && (#[trigger] self.points@[j]).x_bits == mn,
                exists|j: int| 0 <= j < k as int && (#[trigger] self.points@[j]).x_bits == mx,
                forall|j: int|
                    0 <= j < k as int ==> f64_key(mn) <= f64_key(
                        (#[trigger] self.points@[j]).x_bits,
                    ) && f64_key(self.points@[j].x_bits) <= f64_key(mx),
            decreases self.points@.len() - k,
        {
            let x = self.points[k].x_bits;
            if !key_le(mn, x) {
                mn = x;
            }
            if !key_le(x, mx) {
                mx = x;
            }
            k += 1;
        }
        Ok((mn, mx))
    }
}

impl Default for LineSeries {
    /// The default series: empty, visible, black.
    fn default() -> (r: LineSeries)
        ensures
            r.visible,
            r.points@.len() == 0,
            r.color == (Color { red: 0, green: 0, blue: 0, alpha: 255 }),
    {
        LineSeries::new()
    }
}

} // verus!
