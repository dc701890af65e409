//! Exact rational values for axis domains.
//!
//! Axis domains, zoom factors, pan deltas and normalized cursor positions
//! are carried as exact rationals. The domain-transform laws (an anchored
//! zoom keeps the anchor value, a zero pan is the identity, reciprocal
//! zooms undo each other) then hold exactly rather than within a floating
//! tolerance, and are proved here and in the axis module.
//!
//! [`Frac`] is the specification-level model: an unbounded integer
//! numerator over an unbounded integer denominator. [`Rat`] is the
//! executable value: components bounded by [`RAT_BOUND`] so that every
//! product of two in-range components fits in an `i128`. Each checked
//! operation returns the exact representative of the model-level
//! operation, or `None` when that representative leaves the bounds.

use vstd::prelude::*;

verus! {

/// Greatest magnitude of a numerator and greatest value of a denominator
/// of an executable rational: 2^62.
pub const RAT_BOUND: i64 = 0x4000_0000_0000_0000;

/// Specification-level rational number: a numerator over a denominator.
/// Two values stand for the same rational when [`feq`] holds of them.
pub struct Frac {
    pub n: int,
    pub d: int,
}

/// The sum of `a` and `b`, as the usual cross-multiplied representative.
pub open spec fn fadd(a: Frac, b: Frac) -> Frac {
    Frac { n: a.n * b.d + b.n * a.d, d: a.d * b.d }
}

/// The difference `a - b`, as the usual cross-multiplied representative.
pub open spec fn fsub(a: Frac, b: Frac) -> Frac {
    Frac { n: a.n * b.d - b.n * a.d, d: a.d * b.d }
}

/// The product of `a` and `b`, componentwise.
pub open spec fn fmul(a: Frac, b: Frac) -> Frac {
    Frac { n: a.n * b.n, d: a.d * b.d }
}

/// Whether `a` and `b` stand for the same rational: equality of the cross
/// products. An equivalence relation on values with nonzero denominators.
pub open spec fn feq(a: Frac, b: Frac) -> bool {
    a.n * b.d == b.n * a.d
}

/// The rational zero.
pub open spec fn fzero() -> Frac {
    Frac { n: 0, d: 1 }
}

/// The rational one.
pub open spec fn fone() -> Frac {
    Frac { n: 1, d: 1 }
}

/// The rational one half, used for the midpoint anchor.
pub open spec fn fhalf() -> Frac {
    Frac { n: 1, d: 2 }
}

/// Whether `a` is the exact representative of an in-bounds executable
/// rational.
pub open spec fn fits(a: Frac) -> bool {
    &&& -(RAT_BOUND as int) <= a.n <= RAT_BOUND as int
    &&& 0 < a.d <= RAT_BOUND as int
}

/// The magnitude of an integer.
pub open spec fn abs_int(a: int) -> int {
    if a < 0 {
        -a
    } else {
        a
    }
}

/// The greatest common divisor, by Euclid's recurrence.
pub open spec fn gcd_nat(a: nat, b: nat) -> nat
    decreases b,
{
    if b == 0 {
        a
    } else {
        gcd_nat(b, a % b)
    }
}

/// The lowest-terms representative of a value with positive
/// denominator; other values are left as they are.
pub open spec fn freduce(a: Frac) -> Frac {
    if a.d > 0 {
        let g = gcd_nat(abs_int(a.n) as nat, a.d as nat) as int;
        Frac { n: a.n / g, d: a.d / g }
    } else {
        a
    }
}

/// The divisor Euclid's recurrence computes is positive and no larger
/// than its second argument.
proof fn lemma_gcd_pos(a: nat, b: nat)
    requires
        b >= 1,
    ensures
        1 <= gcd_nat(a, b) <= b,
    decreases b,
{
    assert(gcd_nat(a, b) == gcd_nat(b, a % b));
    if a % b != 0 {
        lemma_gcd_pos(b, a % b);
    } else {
        assert(gcd_nat(b, 0nat) == b);
    }
}

/// The divisor Euclid's recurrence computes divides both arguments.
proof fn lemma_gcd_divides(a: nat, b: nat)
    requires
        b >= 1,
    ensures
        ({
            let g = gcd_nat(a, b) as int;
            &&& g >= 1
            &&& a as int % g == 0
            &&& b as int % g == 0
        }),
    decreases b,
{
    lemma_gcd_pos(a, b);
    let g = gcd_nat(a, b) as int;
    if a % b == 0 {
        assert(gcd_nat(a, b) == gcd_nat(b, a % b));
        assert(gcd_nat(b, 0nat) == b);
    } else {
        lemma_gcd_divides(b, a % b);
        vstd::arithmetic::div_mod::lemma_fundamental_div_mod(a as int, b as int);
        vstd::arithmetic::div_mod::lemma_fundamental_div_mod(b as int, g);
        vstd::arithmetic::div_mod::lemma_fundamental_div_mod((a % b) as int, g);
        let q: int = a as int / b as int;
        let kb: int = b as int / g;
        let kr: int = (a % b) as int / g;
        assert(a as int == g * (kb * q + kr)) by (nonlinear_arith)
            requires
                a as int == b as int * q + (a % b) as int,
                b as int == g * kb,
                (a % b) as int == g * kr,
        ;
        vstd::arithmetic::div_mod::lemma_mod_multiples_vanish(kb * q + kr, 0, g);
    }
}

/// Euclid's algorithm; returns exactly the divisor of the
/// specification-level recurrence.
fn gcd64(a: i64, b: i64) -> (g: i64)
    requires
        a >= 0,
        b >= 1,
    ensures
        g as int == gcd_nat(a as nat, b as nat) as int,
        1 <= g <= b,
{
    proof {
        lemma_gcd_pos(a as nat, b as nat);
    }
    let mut x = a;
    let mut y = b;
    while y != 0
        invariant
            x >= 0,
            y >= 0,
            y == 0 ==> x >= 1,
            gcd_nat(x as nat, y as nat) == gcd_nat(a as nat, b as nat),
        decreases y,
    {
        let t = x % y;
        x = y;
        y = t;
    }
    x
}

/// Executable exact rational: numerator and positive denominator, both
/// bounded by [`RAT_BOUND`]. Not always kept in lowest terms; equality
/// of the represented rationals is [`Rat::equiv`], not `==`.
#[derive(Clone, Copy, Debug, PartialEq, Eq, Structural)]
pub struct Rat {
    n: i64,
    d: i64,
}

impl View for Rat {
    type V = Frac;

    closed spec fn view(&self) -> Frac {
        Frac { n: self.n as int, d: self.d as int }
    }
}

impl Rat {
    /// Well-formedness: the components lie within [`RAT_BOUND`] and the
    /// denominator is positive.
    pub open spec fn wf(self) -> bool {
        fits(self@)
    }

    /// The rational `n / d`, if its components are in bounds and `d` is
    /// positive.
    pub fn new(n: i64, d: i64) -> (r: Option<Rat>)
        ensures
            r matches Some(q) ==> q@ == (Frac { n: n as int, d: d as int }) && q.wf(),
            r is Some <==> fits(Frac { n: n as int, d: d as int }),
    {
        if 0 < d && d <= RAT_BOUND && -RAT_BOUND <= n && n <= RAT_BOUND {
            Some(Rat { n, d })
        } else {
            None
        }
    }

    /// The rational with integer value `v`.
    pub fn from_int(v: i64) -> (r: Option<Rat>)
        ensures
            r matches Some(q) ==> q@ == (Frac { n: v as int, d: 1 }) && q.wf(),
            r is Some <==> -(RAT_BOUND as int) <= v as int <= RAT_BOUND as int,
    {
        Rat::new(v, 1)
    }

    /// The rational zero.
    pub fn zero() -> (r: Rat)
        ensures
            r@ == fzero(),
            r.wf(),
    {
        Rat { n: 0, d: 1 }
    }

    /// The rational one.
    pub fn one() -> (r: Rat)
        ensures
            r@ == fone(),
            r.wf(),
    {
        Rat { n: 1, d: 1 }
    }

    /// The rational `n / d`, for components already known to lie in
    /// bounds.
    pub fn exact(n: i64, d: i64) -> (r: Rat)
        requires
            0 < d <= RAT_BOUND,
            -RAT_BOUND <= n <= RAT_BOUND,
        ensures
            r@ == (Frac { n: n as int, d: d as int }),
            r.wf(),
    {
        Rat { n, d }
    }

    /// The rational one half.
    pub fn half() -> (r: Rat)
        ensures
            r@ == fhalf(),
            r.wf(),
    {
        Rat { n: 1, d: 2 }
    }

    /// The numerator.
    pub fn num(&self) -> (r: i64)
        ensures
            r as int == self@.n,
    {
        self.n
    }

    /// The denominator.
    pub fn den(&self) -> (r: i64)
        ensures
            r as int == self@.d,
    {
        self.d
    }

    /// The exact sum, or `None` when its representative leaves the bounds.
    pub fn checked_add(self, other: Rat) -> (r: Option<Rat>)
        requires
            self.wf(),
            other.wf(),
        ensures
            r matches Some(q) ==> q@ == fadd(self@, other@) && q.wf(),
            r is Some <==> fits(fadd(self@, other@)),
    {
        proof {
            lemma_mul_in_bounds(self.n as int, other.d as int);
            lemma_mul_in_bounds(other.n as int, self.d as int);
            lemma_mul_in_bounds(self.d as int, other.d as int);
            lemma_pos_mul(self.d as int, other.d as int);
        }
        let n1: i128 = (self.n as i128) * (other.d as i128);
        let n2: i128 = (other.n as i128) * (self.d as i128);
        let nn: i128 = n1 + n2;
        let dd: i128 = (self.d as i128) * (other.d as i128);
        let bound: i128 = RAT_BOUND as i128;
        if -bound <= nn && nn <= bound && dd <= bound {
            Some(Rat { n: nn as i64, d: dd as i64 })
        } else {
            None
        }
    }

    /// The exact difference, or `None` when its representative leaves the
    /// bounds.
    pub fn checked_sub(self, other: Rat) -> (r: Option<Rat>)
        requires
            self.wf(),
            other.wf(),
        ensures
            r matches Some(q) ==> q@ == fsub(self@, other@) && q.wf(),
            r is Some <==> fits(fsub(self@, other@)),
    {
        proof {
            lemma_mul_in_bounds(self.n as int, other.d as int);
            lemma_mul_in_bounds(other.n as int, self.d as int);
            lemma_mul_in_bounds(self.d as int, other.d as int);
            lemma_pos_mul(self.d as int, other.d as int);
        }
        let n1: i128 = (self.n as i128) * (other.d as i128);
        let n2: i128 = (other.n as i128) * (self.d as i128);
        let nn: i128 = n1 - n2;
        let dd: i128 = (self.d as i128) * (other.d as i128);
        let bound: i128 = RAT_BOUND as i128;
        if -bound <= nn && nn <= bound && dd <= bound {
            Some(Rat { n: nn as i64, d: dd as i64 })
        } else {
            None
        }
    }

    /// The exact product, or `None` when its representative leaves the
    /// bounds.
    pub fn checked_mul(self, other: Rat) -> (r: Option<Rat>)
        requires
            self.wf(),
            other.wf(),
        ensures
            r matches Some(q) ==> q@ == fmul(self@, other@) && q.wf(),
            r is Some <==> fits(fmul(self@, other@)),
    {
        proof {
            lemma_mul_in_bounds(self.n as int, other.n as int);
            lemma_mul_in_bounds(self.d as int, other.d as int);
            lemma_pos_mul(self.d as int, other.d as int);
        }
        let nn: i128 = (self.n as i128) * (other.n as i128);
        let dd: i128 = (self.d as i128) * (other.d as i128);
        let bound: i128 = RAT_BOUND as i128;
        if -bound <= nn && nn <= bound && dd <= bound {
            Some(Rat { n: nn as i64, d: dd as i64 })
        } else {
            None
        }
    }

    /// The same rational in lowest terms: the exact representative of
    /// [`freduce`].
    pub fn reduced(self) -> (r: Rat)
        requires
            self.wf(),
        ensures
            r@ == freduce(self@),
            r.wf(),
            feq(r@, self@),
    {
        let a: i64 = if self.n < 0 {
            -self.n
        } else {
            self.n
        };
        let g = gcd64(a, self.d);
        let qa = a / g;
        let dd = self.d / g;
        let nn = if self.n < 0 {
            -qa
        } else {
            qa
        };
        proof {
            lemma_gcd_divides(a as nat, self.d as nat);
            let gi: int = g as int;
            let ai: int = a as int;
            let di: int = self.d as int;
            let ni: int = self.n as int;
            vstd::arithmetic::div_mod::lemma_fundamental_div_mod(ai, gi);
            vstd::arithmetic::div_mod::lemma_fundamental_div_mod(di, gi);
            let qai: int = ai / gi;
            let kdi: int = di / gi;
            assert(0 <= qai && qai <= ai) by (nonlinear_arith)
                requires
                    ai == gi * qai,
                    gi >= 1,
                    ai >= 0,
            ;
            assert(1 <= kdi && kdi <= di) by (nonlinear_arith)
                requires
                    di == gi * kdi,
                    gi >= 1,
                    di >= 1,
            ;
            if self.n < 0 {
                assert((-qai) * gi + 0 == ni) by (nonlinear_arith)
                    requires
                        ai == gi * qai,
                        ni == -ai,
                ;
                vstd::arithmetic::div_mod::lemma_fundamental_div_mod_converse(ni, gi, -qai, 0);
                assert((-qai) * di == ni * kdi) by (nonlinear_arith)
                    requires
                        ni == -(gi * qai),
                        di == gi * kdi,
                ;
            } else {
                assert(qai * di == ni * kdi) by (nonlinear_arith)
                    requires
                        ni == gi * qai,
                        di == gi * kdi,
                ;
            }
        }
        Rat { n: nn, d: dd }
    }

    /// Whether `self` and `other` stand for the same rational.
    pub fn equiv(&self, other: &Rat) -> (r: bool)
        requires
            self.wf(),
            other.wf(),
        ensures
            r == feq(self@, other@),
    {
        proof {
            lemma_mul_in_bounds(self.n as int, other.d as int);
            lemma_mul_in_bounds(other.n as int, self.d as int);
        }
        (self.n as i128) * (other.d as i128) == (other.n as i128) * (self.d as i128)
    }

    /// Whether `self` stands for zero.
    pub fn is_zero(&self) -> (r: bool)
        requires
            self.wf(),
        ensures
            r == feq(self@, fzero()),
    {
        self.n == 0
    }

    /// Whether `self` stands for a value greater than zero.
    pub fn is_pos(&self) -> (r: bool)
        requires
            self.wf(),
        ensures
            r == (self@.n > 0),
    {
        self.n > 0
    }
}

/// A product of positives is positive.
pub proof fn lemma_pos_mul(x: int, y: int)
    by (nonlinear_arith)
    requires
        x > 0,
        y > 0,
    ensures
        x * y > 0,
{
}

/// A product of components bounded by [`RAT_BOUND`] in magnitude fits
/// comfortably inside the `i128` range.
pub proof fn lemma_mul_in_bounds(x: int, y: int)
    by (nonlinear_arith)
    requires
        -(RAT_BOUND as int) <= x <= RAT_BOUND as int,
        -(RAT_BOUND as int) <= y <= RAT_BOUND as int,
    ensures
        -(RAT_BOUND as int) * (RAT_BOUND as int) <= x * y <= (RAT_BOUND as int) * (RAT_BOUND
            as int),
        x * y < 0x8000_0000_0000_0000_0000_0000_0000_0000,
        -0x8000_0000_0000_0000_0000_0000_0000_0000 < x * y,
{
}

/// Reorderings of a product of four factors.
proof fn lemma_mul4(p: int, q: int, r: int, s: int)
    by (nonlinear_arith)
    ensures
        (p * q) * (r * s) == (p * r) * (q * s),
        (p * q) * (r * s) == (p * s) * (q * r),
        (p * q) * (r * s) == (p * s) * (r * q),
        (p * q) * (r * s) == (q * r) * (p * s),
{
}

/// Distributing a product over a sum or difference.
proof fn lemma_distr3(x: int, y: int, z: int)
    by (nonlinear_arith)
    ensures
        (x + y) * z == x * z + y * z,
        (x - y) * z == x * z - y * z,
{
}

/// Commuting a product of two factors.
proof fn lemma_comm2(x: int, y: int)
    by (nonlinear_arith)
    ensures
        x * y == y * x,
{
}

/// Reassociating a product of three factors.
proof fn lemma_assoc3(x: int, y: int, z: int)
    by (nonlinear_arith)
    ensures
        (x * y) * z == x * (y * z),
        x * (y * z) == y * (x * z),
{
}

/// `feq` is reflexive.
pub proof fn lemma_feq_refl(a: Frac)
    ensures
        feq(a, a),
{
}

/// `feq` is transitive across a middle value with nonzero denominator.
pub proof fn lemma_feq_trans(a: Frac, b: Frac, c: Frac)
    requires
        feq(a, b),
        feq(b, c),
        b.d != 0,
    ensures
        feq(a, c),
{
    let (an, ad, bn, bd, cn, cd) = (a.n, a.d, b.n, b.d, c.n, c.d);
    assert(an * cd == cn * ad) by (nonlinear_arith)
        requires
            an * bd == bn * ad,
            bn * cd == cn * bd,
            bd != 0,
    ;
}

/// Addition respects `feq` in both arguments.
pub proof fn lemma_fadd_congr(a: Frac, a2: Frac, b: Frac, b2: Frac)
    requires
        feq(a, a2),
        feq(b, b2),
    ensures
        feq(fadd(a, b), fadd(a2, b2)),
{
    let an: int = a.n;
    let ad: int = a.d;
    let bn: int = b.n;
    let bd: int = b.d;
    let xn: int = a2.n;
    let xd: int = a2.d;
    let yn: int = b2.n;
    let yd: int = b2.d;
    lemma_distr3(an * bd, bn * ad, xd * yd);
    lemma_distr3(xn * yd, yn * xd, ad * bd);
    lemma_mul4(an, bd, xd, yd);
    assert((an * xd) * (bd * yd) == (xn * ad) * (bd * yd));
    lemma_mul4(xn, ad, bd, yd);
    lemma_mul4(bn, ad, xd, yd);
    assert((bn * yd) * (ad * xd) == (yn * bd) * (ad * xd));
    lemma_mul4(yn, bd, ad, xd);
}

/// Subtraction respects `feq` in both arguments.
pub proof fn lemma_fsub_congr(a: Frac, a2: Frac, b: Frac, b2: Frac)
    requires
        feq(a, a2),
        feq(b, b2),
    ensures
        feq(fsub(a, b), fsub(a2, b2)),
{
    let an: int = a.n;
    let ad: int = a.d;
    let bn: int = b.n;
    let bd: int = b.d;
    let xn: int = a2.n;
    let xd: int = a2.d;
    let yn: int = b2.n;
    let yd: int = b2.d;
    lemma_distr3(an * bd, bn * ad, xd * yd);
    lemma_distr3(xn * yd, yn * xd, ad * bd);
    lemma_mul4(an, bd, xd, yd);
    assert((an * xd) * (bd * yd) == (xn * ad) * (bd * yd));
    lemma_mul4(xn, ad, bd, yd);
    lemma_mul4(bn, ad, xd, yd);
    assert((bn * yd) * (ad * xd) == (yn * bd) * (ad * xd));
    lemma_mul4(yn, bd, ad, xd);
}

/// Multiplication respects `feq` in both arguments.
pub proof fn lemma_fmul_congr(a: Frac, a2: Frac, b: Frac, b2: Frac)
    requires
        feq(a, a2),
        feq(b, b2),
    ensures
        feq(fmul(a, b), fmul(a2, b2)),
{
    let an: int = a.n;
    let ad: int = a.d;
    let bn: int = b.n;
    let bd: int = b.d;
    let xn: int = a2.n;
    let xd: int = a2.d;
    let yn: int = b2.n;
    let yd: int = b2.d;
    lemma_mul4(an, bn, xd, yd);
    assert((an * xd) * (bn * yd) == (xn * ad) * (yn * bd));
    lemma_mul4(xn, ad, yn, bd);
}

/// `(u + v) - u` stands for `v`.
pub proof fn lemma_sub_add_cancel(u: Frac, v: Frac)
    ensures
        feq(fsub(fadd(u, v), u), v),
{
    let (un, ud, vn, vd) = (u.n, u.d, v.n, v.d);
    assert(((un * vd + vn * ud) * ud - un * (ud * vd)) * vd == vn * ((ud * vd) * ud))
        by (nonlinear_arith);
}

/// `(u + v) - v` stands for `u`.
pub proof fn lemma_sub_add_cancel_r(u: Frac, v: Frac)
    ensures
        feq(fsub(fadd(u, v), v), u),
{
    let (un, ud, vn, vd) = (u.n, u.d, v.n, v.d);
    assert(((un * vd + vn * ud) * vd - vn * (ud * vd)) * ud == un * ((ud * vd) * vd))
        by (nonlinear_arith);
}

/// `u - (u - v)` stands for `v`.
pub proof fn lemma_sub_sub_cancel(u: Frac, v: Frac)
    ensures
        feq(fsub(u, fsub(u, v)), v),
{
    let (un, ud, vn, vd) = (u.n, u.d, v.n, v.d);
    assert((un * (ud * vd) - (un * vd - vn * ud) * ud) * vd == vn * (ud * (ud * vd)))
        by (nonlinear_arith);
}

/// `u + (v - u)` stands for `v`.
pub proof fn lemma_add_sub_cancel(u: Frac, v: Frac)
    ensures
        feq(fadd(u, fsub(v, u)), v),
{
    let (un, ud, vn, vd) = (u.n, u.d, v.n, v.d);
    assert((un * (vd * ud) + (vn * ud - un * vd) * ud) * vd == vn * (ud * (vd * ud)))
        by (nonlinear_arith);
}

/// `(u - v) + (v - w)` stands for `u - w`.
pub proof fn lemma_add_sub_to_sub(u: Frac, v: Frac, w: Frac)
    ensures
        feq(fadd(fsub(u, v), fsub(v, w)), fsub(u, w)),
{
    let un: int = u.n;
    let ud: int = u.d;
    let vn: int = v.n;
    let vd: int = v.d;
    let wn: int = w.n;
    let wd: int = w.d;
    lemma_distr3(un * vd, vn * ud, vd * wd);
    lemma_distr3(vn * wd, wn * vd, ud * vd);
    lemma_mul4(un, vd, vd, wd);
    lemma_mul4(vn, ud, vd, wd);
    lemma_mul4(vn, wd, ud, vd);
    lemma_mul4(wn, vd, ud, vd);
    lemma_distr3(un * wd, wn * ud, vd * vd);
    lemma_mul4(ud, vd, vd, wd);
    lemma_assoc3(un * wd - wn * ud, vd * vd, ud * wd);
    lemma_comm2(vd * vd, ud * wd);
}

/// `(u + x) - (u - y)` stands for `x + y`.
pub proof fn lemma_sub_of_add_sub(u: Frac, x: Frac, y: Frac)
    ensures
        feq(fsub(fadd(u, x), fsub(u, y)), fadd(x, y)),
{
    let un: int = u.n;
    let ud: int = u.d;
    let xn: int = x.n;
    let xd: int = x.d;
    let yn: int = y.n;
    let yd: int = y.d;
    lemma_distr3(un * xd, xn * ud, ud * yd);
    lemma_distr3(un * yd, yn * ud, ud * xd);
    lemma_mul4(un, xd, ud, yd);
    lemma_mul4(xn, ud, ud, yd);
    lemma_mul4(yn, ud, ud, xd);
    lemma_distr3(xn * yd, yn * xd, ud * ud);
    lemma_mul4(ud, xd, ud, yd);
    lemma_assoc3(xn * yd + yn * xd, ud * ud, xd * yd);
    lemma_comm2(ud * ud, xd * yd);
}

/// `p*f + q*f` stands for `(p + q)*f`.
pub proof fn lemma_distrib_r(p: Frac, q: Frac, f: Frac)
    ensures
        feq(fadd(fmul(p, f), fmul(q, f)), fmul(fadd(p, q), f)),
{
    let pn: int = p.n;
    let pd: int = p.d;
    let qn: int = q.n;
    let qd: int = q.d;
    let fa: int = f.n;
    let fb: int = f.d;
    lemma_distr3((pn * fa) * (qd * fb), (qn * fa) * (pd * fb), (pd * qd) * fb);
    lemma_distr3(pn * qd, qn * pd, fa);
    lemma_mul4(pn, fa, qd, fb);
    lemma_mul4(qn, fa, pd, fb);
    lemma_distr3(pn * qd, qn * pd, fa * fb);
    let s: int = pn * qd + qn * pd;
    lemma_assoc3(s, fa * fb, (pd * qd) * fb);
    lemma_assoc3(s, fa, (pd * fb) * (qd * fb));
    lemma_mul4(pd, fb, qd, fb);
    lemma_mul4(fa, fb, pd * qd, fb);
    lemma_assoc3(fa, pd * qd, fb * fb);
}

/// Multiplying by one is the identity on representatives.
pub proof fn lemma_mul_one(u: Frac)
    ensures
        fmul(u, fone()) == u,
        fmul(fone(), u) == u,
{
}

/// Multiplication of representatives is associative.
pub proof fn lemma_fmul_assoc(a: Frac, b: Frac, c: Frac)
    ensures
        fmul(a, fmul(b, c)) == fmul(fmul(a, b), c),
{
    let (an, ad, bn, bd, cn, cd) = (a.n, a.d, b.n, b.d, c.n, c.d);
    assert(an * (bn * cn) == (an * bn) * cn) by (nonlinear_arith);
    assert(ad * (bd * cd) == (ad * bd) * cd) by (nonlinear_arith);
}

/// `(u - v) + v2` stands for `u` whenever `v2` stands for `v`.
pub proof fn lemma_add_back_congr(u: Frac, v: Frac, v2: Frac)
    requires
        feq(v, v2),
    ensures
        feq(fadd(fsub(u, v), v2), u),
{
    let un: int = u.n;
    let ud: int = u.d;
    let vn: int = v.n;
    let vd: int = v.d;
    let xn: int = v2.n;
    let xd: int = v2.d;
    lemma_distr3(un * vd, vn * ud, xd);
    lemma_distr3((un * vd) * xd - (vn * ud) * xd, xn * (ud * vd), ud);
    lemma_distr3((un * vd) * xd, (vn * ud) * xd, ud);
    lemma_assoc3(vn * ud, xd, ud);
    lemma_mul4(vn, ud, xd, ud);
    assert((vn * xd) * (ud * ud) == (xn * vd) * (ud * ud));
    lemma_assoc3(xn, ud, vd);
    lemma_assoc3(xn * ud, vd, ud);
    lemma_mul4(xn, ud, vd, ud);
    lemma_assoc3(un * vd, xd, ud);
    lemma_comm2(xd, ud);
    lemma_mul4(un, ud, vd, xd);
    lemma_assoc3(un, ud, vd);
    lemma_assoc3(un * ud, vd, xd);
    lemma_assoc3(un, ud * vd, xd);
}

/// Adding a value that stands for zero is the identity.
pub proof fn lemma_add_zero_congr(u: Frac, z: Frac)
    requires
        feq(z, fzero()),
    ensures
        feq(fadd(u, z), u),
{
    let (un, ud, zn, zd) = (u.n, u.d, z.n, z.d);
    assert((un * zd + zn * ud) * ud == un * (ud * zd)) by (nonlinear_arith)
        requires
            zn == 0,
    ;
}

} // verus!
