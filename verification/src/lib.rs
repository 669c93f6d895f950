//! Complex numbers whose real and imaginary parts are vectors of IEEE-754
//! floating-point lanes, with an arithmetic suite built around fused
//! multiply-add, a lane-wise conditional select, scalar-vector
//! interoperation, and a complex exponential. This module holds the binary64
//! instantiation; [`width32`] holds the binary32 one.
//!
//! Each lane is carried as its bit pattern; every operation's contract pins
//! each result lane to an exact composition of the named scalar IEEE-754
//! operations of [`lanes`], so all lane-structure — which scalar operation
//! runs on which lanes, in which order of rounding — is verified, while the
//! scalar operations themselves are supplied by outside software
//! floating-point code.

use vstd::prelude::*;

pub mod lanes;
pub mod simd_cmath;
pub mod width32;

pub use lanes::SimdF64;

use lanes::add_bits;
use lanes::fma_bits;
use lanes::mul_bits;
use lanes::neg_bits;
use lanes::recip_bits;
use lanes::sqrt_bits;
use lanes::sub_bits;

verus! {

/// The real lane of the complex product `s * r`:
/// `fma(s.im, -r.im, s.re * r.re)`, two roundings in place of the naive
/// three.
pub open spec fn cmul_re_bits(sr: u64, si: u64, rr: u64, ri: u64) -> u64 {
    fma_bits(si, neg_bits(ri), mul_bits(sr, rr))
}

/// The imaginary lane of the complex product `s * r`:
/// `fma(s.im, r.re, s.re * r.im)`.
pub open spec fn cmul_im_bits(sr: u64, si: u64, rr: u64, ri: u64) -> u64 {
    fma_bits(si, rr, mul_bits(sr, ri))
}

/// The squared magnitude of a lane pair: `fma(im, im, re * re)`.
pub open spec fn cabssqr_bits(re: u64, im: u64) -> u64 {
    fma_bits(im, im, mul_bits(re, re))
}

/// The reciprocal of the squared magnitude of a lane pair, the one factor
/// that both components of a division are scaled by.
pub open spec fn cdenom_bits(re: u64, im: u64) -> u64 {
    recip_bits(cabssqr_bits(re, im))
}

/// The real lane of the complex quotient `s / r`:
/// `fma(s.im, r.im, s.re * r.re) * (1 / abssqr(r))`.
pub open spec fn cdiv_re_bits(sr: u64, si: u64, rr: u64, ri: u64) -> u64 {
    mul_bits(fma_bits(si, ri, mul_bits(sr, rr)), cdenom_bits(rr, ri))
}

/// The imaginary lane of the complex quotient `s / r`:
/// `fma(s.re, -r.im, s.im * r.re) * (1 / abssqr(r))`.
pub open spec fn cdiv_im_bits(sr: u64, si: u64, rr: u64, ri: u64) -> u64 {
    mul_bits(fma_bits(sr, neg_bits(ri), mul_bits(si, rr)), cdenom_bits(rr, ri))
}

/// The real lane of the fused complex multiply-add `s * a + b`:
/// `fma(s.im, -a.im, fma(s.re, a.re, b.re))`, one rounding per scalar step.
pub open spec fn cmuladd_re_bits(sr: u64, si: u64, ar: u64, ai: u64, br: u64) -> u64 {
    fma_bits(si, neg_bits(ai), fma_bits(sr, ar, br))
}

/// The imaginary lane of the fused complex multiply-add `s * a + b`:
/// `fma(s.re, a.im, fma(s.im, a.re, b.im))`.
pub open spec fn cmuladd_im_bits(sr: u64, si: u64, ar: u64, ai: u64, bi: u64) -> u64 {
    fma_bits(sr, ai, fma_bits(si, ar, bi))
}

/// The real lane of `scalar - complex`, the non-commuting reverse
/// subtraction.
pub open spec fn rsub_re_bits(s: u64, cr: u64) -> u64 {
    sub_bits(s, cr)
}

/// The imaginary lane of `scalar - complex`: the negated imaginary lane of
/// the complex operand.
pub open spec fn rsub_im_bits(ci: u64) -> u64 {
    neg_bits(ci)
}

/// The real lane of `scalar / complex`:
/// `(s * c.re) * (1 / abssqr(c))`.
pub open spec fn rdiv_re_bits(s: u64, cr: u64, ci: u64) -> u64 {
    mul_bits(mul_bits(s, cr), cdenom_bits(cr, ci))
}

/// The imaginary lane of `scalar / complex`:
/// `(-s * c.im) * (1 / abssqr(c))`.
pub open spec fn rdiv_im_bits(s: u64, cr: u64, ci: u64) -> u64 {
    mul_bits(mul_bits(neg_bits(s), ci), cdenom_bits(cr, ci))
}

/// A complex number per lane: two equally long vectors of binary64 lanes,
/// the real parts and the imaginary parts.
pub struct SimdComplex {
    pub re: SimdF64,
    pub im: SimdF64,
}

/// A vector of per-lane truth values, and the capability it carries: the
/// lane-wise choice between two complex vectors.
pub trait SimdComplexSelect {
    /// The truth value of each lane of the mask.
    spec fn mask_lanes(&self) -> Seq<bool>;

    /// Per lane, both components of `trues` where the mask lane is true,
    /// both components of `falses` where it is false; the lanes are chosen
    /// independently of one another.
    fn cselect(&self, trues: &SimdComplex, falses: &SimdComplex) -> (r: SimdComplex)
        requires
            trues.wf(),
            falses.wf(),
            trues.lane_count() == self.mask_lanes().len(),
            falses.lane_count() == self.mask_lanes().len(),
        ensures
            r.wf(),
            r.lane_count() == self.mask_lanes().len(),
            forall|i: int|
                0 <= i < self.mask_lanes().len() ==> r.re@[i] == (if self.mask_lanes()[i] {
                    trues.re@[i]
                } else {
                    falses.re@[i]
                }),
            forall|i: int|
                0 <= i < self.mask_lanes().len() ==> r.im@[i] == (if self.mask_lanes()[i] {
                    trues.im@[i]
                } else {
                    falses.im@[i]
                }),
    ;
}

/// A boolean lane mask of the same lane count as the complex vectors it
/// selects between.
pub struct SimdMask {
    pub lanes: Vec<bool>,
}

impl View for SimdMask {
    type V = Seq<bool>;

    open spec fn view(&self) -> Seq<bool> {
        self.lanes@
    }
}

impl SimdComplexSelect for SimdMask {
    open spec fn mask_lanes(&self) -> Seq<bool> {
        self.lanes@
    }

    fn cselect(&self, trues: &SimdComplex, falses: &SimdComplex) -> (r: SimdComplex) {
        let n = self.lanes.len();
        let mut re: Vec<u64> = Vec::new();
        let mut im: Vec<u64> = Vec::new();
        let mut k: usize = 0;
        while k < n
            invariant
                n == self@.len(),
                trues.wf(),
                falses.wf(),
                trues.lane_count() == n,
                falses.lane_count() == n,
                k == re@.len(),
                k == im@.len(),
                k <= n,
                forall|i: int|
                    0 <= i < k ==> re@[i] == (if self@[i] {
                        trues.re@[i]
                    } else {
                        falses.re@[i]
                    }),
                forall|i: int|
                    0 <= i < k ==> im@[i] == (if self@[i] {
                        trues.im@[i]
                    } else {
                        falses.im@[i]
                    }),
            decreases n - k,
        {
            if self.lanes[k] {
                re.push(trues.re.lanes[k]);
                im.push(trues.im.lanes[k]);
            } else {
                re.push(falses.re.lanes[k]);
                im.push(falses.im.lanes[k]);
            }
            k += 1;
        }
        SimdComplex { re: SimdF64 { lanes: re }, im: SimdF64 { lanes: im } }
    }
}

impl Clone for SimdComplex {
    fn clone(&self) -> (r: Self)
        ensures
            r.re@ == self.re@,
            r.im@ == self.im@,
    {
        SimdComplex { re: self.re.clone(), im: self.im.clone() }
    }
}

impl SimdComplex {
    /// The two component vectors carry the same number of lanes.
    pub open spec fn wf(&self) -> bool {
        self.re@.len() == self.im@.len()
    }

    /// How many lanes the value has.
    pub open spec fn lane_count(&self) -> nat {
        self.re@.len()
    }

    /// Broadcasts one scalar complex pair to every lane of an `n`-lane
    /// vector.
    pub fn splat(re: u64, im: u64, n: usize) -> (r: SimdComplex)
        ensures
            r.wf(),
            r.lane_count() == n,
            forall|i: int| 0 <= i < n ==> r.re@[i] == re,
            forall|i: int| 0 <= i < n ==> r.im@[i] == im,
    {
        SimdComplex { re: SimdF64::splat(re, n), im: SimdF64::splat(im, n) }
    }

    /// Fused complex multiply-add `self * a + b`: four scalar fused
    /// multiply-adds, one rounding per scalar step.
    pub fn mul_add(&self, a: &SimdComplex, b: &SimdComplex) -> (r: SimdComplex)
        requires
            self.wf(),
            a.wf(),
            b.wf(),
            self.lane_count() == a.lane_count(),
            self.lane_count() == b.lane_count(),
        ensures
            r.wf(),
            r.lane_count() == self.lane_count(),
            forall|i: int|
                0 <= i < self.lane_count() ==> r.re@[i] == cmuladd_re_bits(
                    self.re@[i],
                    self.im@[i],
                    a.re@[i],
                    a.im@[i],
                    b.re@[i],
                ),
            forall|i: int|
                0 <= i < self.lane_count() ==> r.im@[i] == cmuladd_im_bits(
                    self.re@[i],
                    self.im@[i],
                    a.re@[i],
                    a.im@[i],
                    b.im@[i],
                ),
    {
        SimdComplex {
            re: self.im.mul_add(&a.im.neg(), &self.re.mul_add(&a.re, &b.re)),
            im: self.re.mul_add(&a.im, &self.im.mul_add(&a.re, &b.im)),
        }
    }

    /// Squared magnitude of each lane: `fma(im, im, re * re)`.
    pub fn abssqr(&self) -> (r: SimdF64)
        requires
            self.wf(),
        ensures
            r@.len() == self.lane_count(),
            forall|i: int|
                0 <= i < self.lane_count() ==> r@[i] == cabssqr_bits(self.re@[i], self.im@[i]),
    {
        self.im.mul_add(&self.im, &self.re.mul(&self.re))
    }

    /// Magnitude of each lane: the square root of the squared magnitude.
    pub fn abs(&self) -> (r: SimdF64)
        requires
            self.wf(),
        ensures
            r@.len() == self.lane_count(),
            forall|i: int|
                0 <= i < self.lane_count() ==> r@[i] == sqrt_bits(
                    cabssqr_bits(self.re@[i], self.im@[i]),
                ),
    {
        self.abssqr().sqrt()
    }

    /// Component-wise negation.
    pub fn neg(&self) -> (r: SimdComplex)
        requires
            self.wf(),
        ensures
            r.wf(),
            r.lane_count() == self.lane_count(),
            forall|i: int| 0 <= i < self.lane_count() ==> r.re@[i] == neg_bits(self.re@[i]),
            forall|i: int| 0 <= i < self.lane_count() ==> r.im@[i] == neg_bits(self.im@[i]),
    {
        SimdComplex { re: self.re.neg(), im: self.im.neg() }
    }

    /// Component-wise sum of two complex vectors.
    pub fn add(&self, rhs: &SimdComplex) -> (r: SimdComplex)
        requires
            self.wf(),
            rhs.wf(),
            self.lane_count() == rhs.lane_count(),
        ensures
            r.wf(),
            r.lane_count() == self.lane_count(),
            forall|i: int|
                0 <= i < self.lane_count() ==> r.re@[i] == add_bits(self.re@[i], rhs.re@[i]),
            forall|i: int|
                0 <= i < self.lane_count() ==> r.im@[i] == add_bits(self.im@[i], rhs.im@[i]),
    {
        SimdComplex { re: self.re.add(&rhs.re), im: self.im.add(&rhs.im) }
    }

    /// Adds a real lane vector: shifts only the real parts, the imaginary
    /// parts come through bit for bit.
    pub fn add_scalar(&self, rhs: &SimdF64) -> (r: SimdComplex)
        requires
            self.wf(),
            self.lane_count() == rhs@.len(),
        ensures
            r.wf(),
            r.lane_count() == self.lane_count(),
            forall|i: int|
                0 <= i < self.lane_count() ==> r.re@[i] == add_bits(self.re@[i], rhs@[i]),
            r.im@ == self.im@,
    {
        SimdComplex { re: self.re.add(rhs), im: self.im.clone() }
    }

    /// Component-wise difference of two complex vectors.
    pub fn sub(&self, rhs: &SimdComplex) -> (r: SimdComplex)
        requires
            self.wf(),
            rhs.wf(),
            self.lane_count() == rhs.lane_count(),
        ensures
            r.wf(),
            r.lane_count() == self.lane_count(),
            forall|i: int|
                0 <= i < self.lane_count() ==> r.re@[i] == sub_bits(self.re@[i], rhs.re@[i]),
            forall|i: int|
                0 <= i < self.lane_count() ==> r.im@[i] == sub_bits(self.im@[i], rhs.im@[i]),
    {
        SimdComplex { re: self.re.sub(&rhs.re), im: self.im.sub(&rhs.im) }
    }

    /// Subtracts a real lane vector from the real parts only; the imaginary
    /// parts come through bit for bit.
    pub fn sub_scalar(&self, rhs: &SimdF64) -> (r: SimdComplex)
        requires
            self.wf(),
            self.lane_count() == rhs@.len(),
        ensures
            r.wf(),
            r.lane_count() == self.lane_count(),
            forall|i: int|
                0 <= i < self.lane_count() ==> r.re@[i] == sub_bits(self.re@[i], rhs@[i]),
            r.im@ == self.im@,
    {
        SimdComplex { re: self.re.sub(rhs), im: self.im.clone() }
    }

    /// Complex product, with two multiplications and two fused multiply-adds
    /// in place of the naive four multiplications and two additions.
    pub fn mul(&self, rhs: &SimdComplex) -> (r: SimdComplex)
        requires
            self.wf(),
            rhs.wf(),
            self.lane_count() == rhs.lane_count(),
        ensures
            r.wf(),
            r.lane_count() == self.lane_count(),
            forall|i: int|
                0 <= i < self.lane_count() ==> r.re@[i] == cmul_re_bits(
                    self.re@[i],
                    self.im@[i],
                    rhs.re@[i],
                    rhs.im@[i],
                ),
            forall|i: int|
                0 <= i < self.lane_count() ==> r.im@[i] == cmul_im_bits(
                    self.re@[i],
                    self.im@[i],
                    rhs.re@[i],
                    rhs.im@[i],
                ),
    {
        SimdComplex {
            re: self.im.mul_add(&rhs.im.neg(), &self.re.mul(&rhs.re)),
            im: self.im.mul_add(&rhs.re, &self.re.mul(&rhs.im)),
        }
    }

    /// Scales both components by a real lane vector.
    pub fn mul_scalar(&self, rhs: &SimdF64) -> (r: SimdComplex)
        requires
            self.wf(),
            self.lane_count() == rhs@.len(),
        ensures
            r.wf(),
            r.lane_count() == self.lane_count(),
            forall|i: int|
                0 <= i < self.lane_count() ==> r.re@[i] == mul_bits(self.re@[i], rhs@[i]),
            forall|i: int|
                0 <= i < self.lane_count() ==> r.im@[i] == mul_bits(self.im@[i], rhs@[i]),
    {
        SimdComplex { re: self.re.mul(rhs), im: self.im.mul(rhs) }
    }

    /// Complex quotient: one reciprocal of the divisor's squared magnitude,
    /// then one fused multiply-add and one scaling per component. The
    /// intermediate squared magnitude is formed without rescaling, so it can
    /// overflow or underflow for divisors of extreme magnitude; the result
    /// then follows IEEE-754 propagation.
    pub fn div(&self, rhs: &SimdComplex) -> (r: SimdComplex)
        requires
            self.wf(),
            rhs.wf(),
            self.lane_count() == rhs.lane_count(),
        ensures
            r.wf(),
            r.lane_count() == self.lane_count(),
            forall|i: int|
                0 <= i < self.lane_count() ==> r.re@[i] == cdiv_re_bits(
                    self.re@[i],
                    self.im@[i],
                    rhs.re@[i],
                    rhs.im@[i],
                ),
            forall|i: int|
                0 <= i < self.lane_count() ==> r.im@[i] == cdiv_im_bits(
                    self.re@[i],
                    self.im@[i],
                    rhs.re@[i],
                    rhs.im@[i],
                ),
    {
        let denom = rhs.abssqr().recip();
        SimdComplex {
            re: self.im.mul_add(&rhs.im, &self.re.mul(&rhs.re)).mul(&denom),
            im: self.re.mul_add(&rhs.im.neg(), &self.im.mul(&rhs.re)).mul(&denom),
        }
    }

    /// Divides both components by a real lane vector, through one reciprocal
    /// and two multiplications in place of two divisions.
    pub fn div_scalar(&self, rhs: &SimdF64) -> (r: SimdComplex)
        requires
            self.wf(),
            self.lane_count() == rhs@.len(),
        ensures
            r.wf(),
            r.lane_count() == self.lane_count(),
            forall|i: int|
                0 <= i < self.lane_count() ==> r.re@[i] == mul_bits(
                    self.re@[i],
                    recip_bits(rhs@[i]),
                ),
            forall|i: int|
                0 <= i < self.lane_count() ==> r.im@[i] == mul_bits(
                    self.im@[i],
                    recip_bits(rhs@[i]),
                ),
    {
        let r = rhs.recip();
        SimdComplex { re: self.re.mul(&r), im: self.im.mul(&r) }
    }

    /// Compound assignment form of [`SimdComplex::add`].
    pub fn add_assign(&mut self, rhs: &SimdComplex)
        requires
            old(self).wf(),
            rhs.wf(),
            old(self).lane_count() == rhs.lane_count(),
        ensures
            final(self).wf(),
            final(self).lane_count() == old(self).lane_count(),
            forall|i: int|
                0 <= i < old(self).lane_count() ==> final(self).re@[i] == add_bits(
                    old(self).re@[i],
                    rhs.re@[i],
                ),
            forall|i: int|
                0 <= i < old(self).lane_count() ==> final(self).im@[i] == add_bits(
                    old(self).im@[i],
                    rhs.im@[i],
                ),
    {
        let r = self.add(rhs);
        *self = r;
    }

    /// Compound assignment form of [`SimdComplex::add_scalar`].
    pub fn add_scalar_assign(&mut self, rhs: &SimdF64)
        requires
            old(self).wf(),
            old(self).lane_count() == rhs@.len(),
        ensures
            final(self).wf(),
            final(self).lane_count() == old(self).lane_count(),
            forall|i: int|
                0 <= i < old(self).lane_count() ==> final(self).re@[i] == add_bits(
                    old(self).re@[i],
                    rhs@[i],
                ),
            final(self).im@ == old(self).im@,
    {
        let r = self.add_scalar(rhs);
        *self = r;
    }

    /// Compound assignment form of [`SimdComplex::sub`].
    pub fn sub_assign(&mut self, rhs: &SimdComplex)
        requires
            old(self).wf(),
            rhs.wf(),
            old(self).lane_count() == rhs.lane_count(),
        ensures
            final(self).wf(),
            final(self).lane_count() == old(self).lane_count(),
            forall|i: int|
                0 <= i < old(self).lane_count() ==> final(self).re@[i] == sub_bits(
                    old(self).re@[i],
                    rhs.re@[i],
                ),
            forall|i: int|
                0 <= i < old(self).lane_count() ==> final(self).im@[i] == sub_bits(
                    old(self).im@[i],
                    rhs.im@[i],
                ),
    {
        let r = self.sub(rhs);
        *self = r;
    }

    /// Compound assignment form of [`SimdComplex::sub_scalar`].
    pub fn sub_scalar_assign(&mut self, rhs: &SimdF64)
        requires
            old(self).wf(),
            old(self).lane_count() == rhs@.len(),
        ensures
            final(self).wf(),
            final(self).lane_count() == old(self).lane_count(),
            forall|i: int|
                0 <= i < old(self).lane_count() ==> final(self).re@[i] == sub_bits(
                    old(self).re@[i],
                    rhs@[i],
                ),
            final(self).im@ == old(self).im@,
    {
        let r = self.sub_scalar(rhs);
        *self = r;
    }

    /// Compound assignment form of [`SimdComplex::mul`].
    pub fn mul_assign(&mut self, rhs: &SimdComplex)
        requires
            old(self).wf(),
            rhs.wf(),
            old(self).lane_count() == rhs.lane_count(),
        ensures
            final(self).wf(),
            final(self).lane_count() == old(self).lane_count(),
            forall|i: int|
                0 <= i < old(self).lane_count() ==> final(self).re@[i] == cmul_re_bits(
                    old(self).re@[i],
                    old(self).im@[i],
                    rhs.re@[i],
                    rhs.im@[i],
                ),
            forall|i: int|
                0 <= i < old(self).lane_count() ==> final(self).im@[i] == cmul_im_bits(
                    old(self).re@[i],
                    old(self).im@[i],
                    rhs.re@[i],
                    rhs.im@[i],
                ),
    {
        let r = self.mul(rhs);
        *self = r;
    }

    /// Compound assignment form of [`SimdComplex::mul_scalar`].
    pub fn mul_scalar_assign(&mut self, rhs: &SimdF64)
        requires
            old(self).wf(),
            old(self).lane_count() == rhs@.len(),
        ensures
            final(self).wf(),
            final(self).lane_count() == old(self).lane_count(),
            forall|i: int|
                0 <= i < old(self).lane_count() ==> final(self).re@[i] == mul_bits(
                    old(self).re@[i],
                    rhs@[i],
                ),
            forall|i: int|
                0 <= i < old(self).lane_count() ==> final(self).im@[i] == mul_bits(
                    old(self).im@[i],
                    rhs@[i],
                ),
    {
        let r = self.mul_scalar(rhs);
        *self = r;
    }

    /// Compound assignment form of [`SimdComplex::div`].
    pub fn div_assign(&mut self, rhs: &SimdComplex)
        requires
            old(self).wf(),
            rhs.wf(),
            old(self).lane_count() == rhs.lane_count(),
        ensures
            final(self).wf(),
            final(self).lane_count() == old(self).lane_count(),
            forall|i: int|
                0 <= i < old(self).lane_count() ==> final(self).re@[i] == cdiv_re_bits(
                    old(self).re@[i],
                    old(self).im@[i],
                    rhs.re@[i],
                    rhs.im@[i],
                ),
            forall|i: int|
                0 <= i < old(self).lane_count() ==> final(self).im@[i] == cdiv_im_bits(
                    old(self).re@[i],
                    old(self).im@[i],
                    rhs.re@[i],
                    rhs.im@[i],
                ),
    {
        let r = self.div(rhs);
        *self = r;
    }

    /// Compound assignment form of [`SimdComplex::div_scalar`].
    pub fn div_scalar_assign(&mut self, rhs: &SimdF64)
        requires
            old(self).wf(),
            old(self).lane_count() == rhs@.len(),
        ensures
            final(self).wf(),
            final(self).lane_count() == old(self).lane_count(),
            forall|i: int|
                0 <= i < old(self).lane_count() ==> final(self).re@[i] == mul_bits(
                    old(self).re@[i],
                    recip_bits(rhs@[i]),
                ),
            forall|i: int|
                0 <= i < old(self).lane_count() ==> final(self).im@[i] == mul_bits(
                    old(self).im@[i],
                    recip_bits(rhs@[i]),
                ),
    {
        let r = self.div_scalar(rhs);
        *self = r;
    }
}

impl SimdF64 {
    /// `scalar + complex`: addition commutes, so this delegates to
    /// [`SimdComplex::add_scalar`] with the operands swapped.
    pub fn add_complex(&self, rhs: &SimdComplex) -> (r: SimdComplex)
        requires
            rhs.wf(),
            self@.len() == rhs.lane_count(),
        ensures
            r.wf(),
            r.lane_count() == self@.len(),
            forall|i: int| 0 <= i < self@.len() ==> r.re@[i] == add_bits(rhs.re@[i], self@[i]),
            r.im@ == rhs.im@,
    {
        rhs.add_scalar(self)
    }

    /// `scalar - complex`, which does not commute: the real lanes are
    /// `scalar - re`, the imaginary lanes are negated.
    pub fn sub_complex(&self, rhs: &SimdComplex) -> (r: SimdComplex)
        requires
            rhs.wf(),
            self@.len() == rhs.lane_count(),
        ensures
            r.wf(),
            r.lane_count() == self@.len(),
            forall|i: int| 0 <= i < self@.len() ==> r.re@[i] == rsub_re_bits(self@[i], rhs.re@[i]),
            forall|i: int| 0 <= i < self@.len() ==> r.im@[i] == rsub_im_bits(rhs.im@[i]),
    {
        SimdComplex { re: self.sub(&rhs.re), im: rhs.im.neg() }
    }

    /// `scalar * complex`: multiplication commutes, so this delegates to
    /// [`SimdComplex::mul_scalar`] with the operands swapped.
    pub fn mul_complex(&self, rhs: &SimdComplex) -> (r: SimdComplex)
        requires
            rhs.wf(),
            self@.len() == rhs.lane_count(),
        ensures
            r.wf(),
            r.lane_count() == self@.len(),
            forall|i: int| 0 <= i < self@.len() ==> r.re@[i] == mul_bits(rhs.re@[i], self@[i]),
            forall|i: int| 0 <= i < self@.len() ==> r.im@[i] == mul_bits(rhs.im@[i], self@[i]),
    {
        rhs.mul_scalar(self)
    }

    /// `scalar / complex`: the scalar times the conjugate of the divisor,
    /// scaled by one reciprocal of the divisor's squared magnitude. The
    /// squared magnitude is formed without rescaling, with the same
    /// overflow caveat as [`SimdComplex::div`].
    pub fn div_complex(&self, rhs: &SimdComplex) -> (r: SimdComplex)
        requires
            rhs.wf(),
            self@.len() == rhs.lane_count(),
        ensures
            r.wf(),
            r.lane_count() == self@.len(),
            forall|i: int|
                0 <= i < self@.len() ==> r.re@[i] == rdiv_re_bits(
                    self@[i],
                    rhs.re@[i],
                    rhs.im@[i],
                ),
            forall|i: int|
                0 <= i < self@.len() ==> r.im@[i] == rdiv_im_bits(
                    self@[i],
                    rhs.re@[i],
                    rhs.im@[i],
                ),
    {
        let denom = rhs.abssqr().recip();
        SimdComplex {
            re: self.mul(&rhs.re).mul(&denom),
            im: self.neg().mul(&rhs.im).mul(&denom),
        }
    }
}

/// Reverse-operand subtraction, imaginary half: per lane, `scalar - complex`
/// carries exactly the negation of the imaginary lane that
/// `complex - scalar` leaves unchanged, so the imaginary lanes of
/// `scalar - complex` and of `-(complex - scalar)` coincide bit for bit.
/// (The real lanes agree only up to the sign symmetry of IEEE-754 rounding,
/// which the bit-level model leaves open.)
pub proof fn lemma_reverse_sub_imag(ci: u64)
    ensures
        rsub_im_bits(ci) == neg_bits(ci),
{
}

} // verus!
