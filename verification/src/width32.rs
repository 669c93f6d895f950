//! The binary32 instantiation: complex numbers over vectors of IEEE-754
//! binary32 lanes, each lane carried as its `u32` bit pattern, with the same
//! operator suite, lane-select and scalar interoperation as the binary64
//! type. The complex exponential is offered on the binary64 type only.

use vstd::prelude::*;
use const_soft_float::soft_f32::SoftF32;

verus! {

/// The sign bit of a binary32 bit pattern.
pub const SIGN_BIT: u32 = 0x8000_0000;

/// The bit pattern of the number one in binary32.
pub const ONE_BITS: u32 = 0x3f80_0000;

/// The binary32 sum of two lanes, rounded to nearest-even.
pub uninterp spec fn add_bits(a: u32, b: u32) -> u32;

/// The binary32 product of two lanes, rounded to nearest-even.
pub uninterp spec fn mul_bits(a: u32, b: u32) -> u32;

/// The binary32 quotient of two lanes, rounded to nearest-even.
pub uninterp spec fn div_bits(a: u32, b: u32) -> u32;

/// The binary32 square root of a lane, rounded to nearest-even.
pub uninterp spec fn sqrt_bits(a: u32) -> u32;

/// The fused multiply-add `a * b + c` of three lanes, in one rounding.
pub uninterp spec fn fma_bits(a: u32, b: u32, c: u32) -> u32;

/// Negation of a lane. IEEE-754 negation flips the sign bit and keeps every
/// other bit, for every operand, NaNs included.
pub open spec fn neg_bits(a: u32) -> u32 {
    a ^ SIGN_BIT
}

/// The difference of two lanes: the sum of the minuend and the negated
/// subtrahend, which is exactly IEEE-754 subtraction.
pub open spec fn sub_bits(a: u32, b: u32) -> u32 {
    add_bits(a, neg_bits(b))
}

/// The reciprocal of a lane: one divided by it, in one rounding.
pub open spec fn recip_bits(a: u32) -> u32 {
    div_bits(ONE_BITS, a)
}

/// The real lane of the complex product, as in the binary64 form:
/// `fma(s.im, -r.im, s.re * r.re)`.
pub open spec fn cmul_re_bits(sr: u32, si: u32, rr: u32, ri: u32) -> u32 {
    fma_bits(si, neg_bits(ri), mul_bits(sr, rr))
}

/// The imaginary lane of the complex product: `fma(s.im, r.re, s.re * r.im)`.
pub open spec fn cmul_im_bits(sr: u32, si: u32, rr: u32, ri: u32) -> u32 {
    fma_bits(si, rr, mul_bits(sr, ri))
}

/// The squared magnitude of a lane pair: `fma(im, im, re * re)`.
pub open spec fn cabssqr_bits(re: u32, im: u32) -> u32 {
    fma_bits(im, im, mul_bits(re, re))
}

/// The reciprocal of the squared magnitude of a lane pair.
pub open spec fn cdenom_bits(re: u32, im: u32) -> u32 {
    recip_bits(cabssqr_bits(re, im))
}

/// The real lane of the complex quotient:
/// `fma(s.im, r.im, s.re * r.re) * (1 / abssqr(r))`.
pub open spec fn cdiv_re_bits(sr: u32, si: u32, rr: u32, ri: u32) -> u32 {
    mul_bits(fma_bits(si, ri, mul_bits(sr, rr)), cdenom_bits(rr, ri))
}

/// The imaginary lane of the complex quotient:
/// `fma(s.re, -r.im, s.im * r.re) * (1 / abssqr(r))`.
pub open spec fn cdiv_im_bits(sr: u32, si: u32, rr: u32, ri: u32) -> u32 {
    mul_bits(fma_bits(sr, neg_bits(ri), mul_bits(si, rr)), cdenom_bits(rr, ri))
}

/// The real lane of the fused complex multiply-add:
/// `fma(s.im, -a.im, fma(s.re, a.re, b.re))`.
pub open spec fn cmuladd_re_bits(sr: u32, si: u32, ar: u32, ai: u32, br: u32) -> u32 {
    fma_bits(si, neg_bits(ai), fma_bits(sr, ar, br))
}

/// The imaginary lane of the fused complex multiply-add:
/// `fma(s.re, a.im, fma(s.im, a.re, b.im))`.
pub open spec fn cmuladd_im_bits(sr: u32, si: u32, ar: u32, ai: u32, bi: u32) -> u32 {
    fma_bits(sr, ai, fma_bits(si, ar, bi))
}

/// The real lane of `scalar - complex`.
pub open spec fn rsub_re_bits(s: u32, cr: u32) -> u32 {
    sub_bits(s, cr)
}

/// The imaginary lane of `scalar - complex`: the negated imaginary lane.
pub open spec fn rsub_im_bits(ci: u32) -> u32 {
    neg_bits(ci)
}

/// The real lane of `scalar / complex`: `(s * c.re) * (1 / abssqr(c))`.
pub open spec fn rdiv_re_bits(s: u32, cr: u32, ci: u32) -> u32 {
    mul_bits(mul_bits(s, cr), cdenom_bits(cr, ci))
}

/// The imaginary lane of `scalar / complex`:
/// `(-s * c.im) * (1 / abssqr(c))`.
pub open spec fn rdiv_im_bits(s: u32, cr: u32, ci: u32) -> u32 {
    mul_bits(mul_bits(neg_bits(s), ci), cdenom_bits(cr, ci))
}

/// Relies on `SoftF32::add` of `const_soft_float`: the IEEE-754 binary32
/// sum, rounded to nearest-even, computed in pure integer arithmetic, so a
/// function of the operand bit patterns alone.
#[verifier::external_body]
fn add_lane(a: u32, b: u32) -> (r: u32)
    ensures
        r == add_bits(a, b),
{
    SoftF32::from_bits(a).add(SoftF32::from_bits(b)).to_bits()
}

/// Relies on `SoftF32::mul` of `const_soft_float`: the IEEE-754 binary32
/// product, rounded to nearest-even, computed in pure integer arithmetic,
/// so a function of the operand bit patterns alone.
#[verifier::external_body]
fn mul_lane(a: u32, b: u32) -> (r: u32)
    ensures
        r == mul_bits(a, b),
{
    SoftF32::from_bits(a).mul(SoftF32::from_bits(b)).to_bits()
}

/// Relies on `SoftF32::div` of `const_soft_float`: the IEEE-754 binary32
/// quotient, rounded to nearest-even, computed in pure integer arithmetic,
/// so a function of the operand bit patterns alone.
#[verifier::external_body]
fn div_lane(a: u32, b: u32) -> (r: u32)
    ensures
        r == div_bits(a, b),
{
    SoftF32::from_bits(a).div(SoftF32::from_bits(b)).to_bits()
}

/// Relies on `SoftF32::sqrt` of `const_soft_float`: the IEEE-754 binary32
/// square root, rounded to nearest-even, computed in pure integer
/// arithmetic, so a function of the operand bit pattern alone.
#[verifier::external_body]
fn sqrt_lane(a: u32) -> (r: u32)
    ensures
        r == sqrt_bits(a),
{
    SoftF32::from_bits(a).sqrt().to_bits()
}

/// Relies on `libm::fmaf`: the binary32 fused multiply-add `a * b + c` in
/// one rounding, computed by that crate's software path (its hardware paths
/// are switched off), so a function of the operand bit patterns alone.
#[verifier::external_body]
fn fma_lane(a: u32, b: u32, c: u32) -> (r: u32)
    ensures
        r == fma_bits(a, b, c),
{
    libm::fmaf(
        SoftF32::from_bits(a).0,
        SoftF32::from_bits(b).0,
        SoftF32::from_bits(c).0,
    )
    .to_bits()
}

/// Negation of one lane: flips the sign bit.
fn neg_lane(a: u32) -> (r: u32)
    ensures
        r == neg_bits(a),
{
    a ^ SIGN_BIT
}

/// A vector of binary32 lanes, each lane carried as its bit pattern.
pub struct SimdF32 {
    pub lanes: Vec<u32>,
}

impl View for SimdF32 {
    type V = Seq<u32>;

    open spec fn view(&self) -> Seq<u32> {
        self.lanes@
    }
}

impl Clone for SimdF32 {
    fn clone(&self) -> (r: Self)
        ensures
            r@ == self@,
    {
        SimdF32 { lanes: self.lanes.clone() }
    }
}

impl SimdF32 {
    /// How many lanes the vector has.
    pub fn lane_count(&self) -> (n: usize)
        ensures
            n == self@.len(),
    {
        self.lanes.len()
    }

    /// Broadcasts one lane value to every lane of an `n`-lane vector.
    pub fn splat(v: u32, n: usize) -> (r: SimdF32)
        ensures
            r@.len() == n,
            forall|i: int| 0 <= i < n ==> r@[i] == v,
    {
        let mut lanes: Vec<u32> = Vec::new();
        while lanes.len() < n
            invariant
                lanes@.len() <= n,
                forall|i: int| 0 <= i < lanes@.len() ==> lanes@[i] == v,
            decreases n - lanes@.len(),
        {
            lanes.push(v);
        }
        SimdF32 { lanes }
    }

    /// Lane-wise sum.
    pub fn add(&self, rhs: &SimdF32) -> (r: SimdF32)
        requires
            self@.len() == rhs@.len(),
        ensures
            r@.len() == self@.len(),
            forall|i: int| 0 <= i < self@.len() ==> r@[i] == add_bits(self@[i], rhs@[i]),
    {
        let n = self.lanes.len();
        let mut lanes: Vec<u32> = Vec::new();
        let mut k: usize = 0;
        while k < n
            invariant
                n == self@.len(),
                n == rhs@.len(),
                k == lanes@.len(),
                k <= n,
                forall|i: int| 0 <= i < k ==> lanes@[i] == add_bits(self@[i], rhs@[i]),
            decreases n - k,
        {
            lanes.push(add_lane(self.lanes[k], rhs.lanes[k]));
            k += 1;
        }
        SimdF32 { lanes }
    }

    /// Lane-wise negation.
    pub fn neg(&self) -> (r: SimdF32)
        ensures
            r@.len() == self@.len(),
            forall|i: int| 0 <= i < self@.len() ==> r@[i] == neg_bits(self@[i]),
    {
        let n = self.lanes.len();
        let mut lanes: Vec<u32> = Vec::new();
        let mut k: usize = 0;
        while k < n
            invariant
                n == self@.len(),
                k == lanes@.len(),
                k <= n,
                forall|i: int| 0 <= i < k ==> lanes@[i] == neg_bits(self@[i]),
            decreases n - k,
        {
            lanes.push(neg_lane(self.lanes[k]));
            k += 1;
        }
        SimdF32 { lanes }
    }

    /// Lane-wise difference: the sum with the negated subtrahend.
    pub fn sub(&self, rhs: &SimdF32) -> (r: SimdF32)
        requires
            self@.len() == rhs@.len(),
        ensures
            r@.len() == self@.len(),
            forall|i: int| 0 <= i < self@.len() ==> r@[i] == sub_bits(self@[i], rhs@[i]),
    {
        self.add(&rhs.neg())
    }

    /// Lane-wise product.
    pub fn mul(&self, rhs: &SimdF32) -> (r: SimdF32)
        requires
            self@.len() == rhs@.len(),
        ensures
            r@.len() == self@.len(),
            forall|i: int| 0 <= i < self@.len() ==> r@[i] == mul_bits(self@[i], rhs@[i]),
    {
        let n = self.lanes.len();
        let mut lanes: Vec<u32> = Vec::new();
        let mut k: usize = 0;
        while k < n
            invariant
                n == self@.len(),
                n == rhs@.len(),
                k == lanes@.len(),
                k <= n,
                forall|i: int| 0 <= i < k ==> lanes@[i] == mul_bits(self@[i], rhs@[i]),
            decreases n - k,
        {
            lanes.push(mul_lane(self.lanes[k], rhs.lanes[k]));
            k += 1;
        }
        SimdF32 { lanes }
    }

    /// Lane-wise quotient.
    pub fn div(&self, rhs: &SimdF32) -> (r: SimdF32)
        requires
            self@.len() == rhs@.len(),
        ensures
            r@.len() == self@.len(),
            forall|i: int| 0 <= i < self@.len() ==> r@[i] == div_bits(self@[i], rhs@[i]),
    {
        let n = self.lanes.len();
        let mut lanes: Vec<u32> = Vec::new();
        let mut k: usize = 0;
        while k < n
            invariant
                n == self@.len(),
                n == rhs@.len(),
                k == lanes@.len(),
                k <= n,
                forall|i: int| 0 <= i < k ==> lanes@[i] == div_bits(self@[i], rhs@[i]),
            decreases n - k,
        {
            lanes.push(div_lane(self.lanes[k], rhs.lanes[k]));
            k += 1;
        }
        SimdF32 { lanes }
    }

    /// Lane-wise fused multiply-add: `self * a + b`, one rounding per lane.
    pub fn mul_add(&self, a: &SimdF32, b: &SimdF32) -> (r: SimdF32)
        requires
            self@.len() == a@.len(),
            self@.len() == b@.len(),
        ensures
            r@.len() == self@.len(),
            forall|i: int| 0 <= i < self@.len() ==> r@[i] == fma_bits(self@[i], a@[i], b@[i]),
    {
        let n = self.lanes.len();
        let mut lanes: Vec<u32> = Vec::new();
        let mut k: usize = 0;
        while k < n
            invariant
                n == self@.len(),
                n == a@.len(),
                n == b@.len(),
                k == lanes@.len(),
                k <= n,
                forall|i: int| 0 <= i < k ==> lanes@[i] == fma_bits(self@[i], a@[i], b@[i]),
            decreases n - k,
        {
            lanes.push(fma_lane(self.lanes[k], a.lanes[k], b.lanes[k]));
            k += 1;
        }
        SimdF32 { lanes }
    }

    /// Lane-wise square root.
    pub fn sqrt(&self) -> (r: SimdF32)
        ensures
            r@.len() == self@.len(),
            forall|i: int| 0 <= i < self@.len() ==> r@[i] == sqrt_bits(self@[i]),
    {
        let n = self.lanes.len();
        let mut lanes: Vec<u32> = Vec::new();
        let mut k: usize = 0;
        while k < n
            invariant
                n == self@.len(),
                k == lanes@.len(),
                k <= n,
                forall|i: int| 0 <= i < k ==> lanes@[i] == sqrt_bits(self@[i]),
            decreases n - k,
        {
            lanes.push(sqrt_lane(self.lanes[k]));
            k += 1;
        }
        SimdF32 { lanes }
    }

    /// Lane-wise reciprocal: one divided by each lane.
    pub fn recip(&self) -> (r: SimdF32)
        ensures
            r@.len() == self@.len(),
            forall|i: int| 0 <= i < self@.len() ==> r@[i] == recip_bits(self@[i]),
    {
        SimdF32::splat(ONE_BITS, self.lanes.len()).div(self)
    }
}

/// A complex number per binary32 lane: two equally long vectors of lanes,
/// the real parts and the imaginary parts.
pub struct SimdComplex32 {
    pub re: SimdF32,
    pub im: SimdF32,
}

/// A boolean lane mask of the same lane count as the binary32 complex
/// vectors it selects between.
pub struct SimdMask32 {
    pub lanes: Vec<bool>,
}

impl View for SimdMask32 {
    type V = Seq<bool>;

    open spec fn view(&self) -> Seq<bool> {
        self.lanes@
    }
}

impl SimdMask32 {
    /// Per lane, both components of `trues` where the mask lane is true,
    /// both components of `falses` where it is false; the lanes are chosen
    /// independently of one another.
    pub fn cselect(&self, trues: &SimdComplex32, falses: &SimdComplex32) -> (r: SimdComplex32)
        requires
            trues.wf(),
            falses.wf(),
            trues.lane_count() == self@.len(),
            falses.lane_count() == self@.len(),
        ensures
            r.wf(),
            r.lane_count() == self@.len(),
            forall|i: int|
                0 <= i < self@.len() ==> r.re@[i] == (if self@[i] {
                    trues.re@[i]
                } else {
                    falses.re@[i]
                }),
            forall|i: int|
                0 <= i < self@.len() ==> r.im@[i] == (if self@[i] {
                    trues.im@[i]
                } else {
                    falses.im@[i]
                }),
    {
        let n = self.lanes.len();
        let mut re: Vec<u32> = Vec::new();
        let mut im: Vec<u32> = Vec::new();
        let mut k: usize = 0;
        while k < n
            invariant
                n == self@.len(),
                trues.wf(),
                falses.wf(),
                trues.lane_count() == n,
                falses.lane_count() == n,
                k == re@.len(),
                k == im@.len(),
                k <= n,
                forall|i: int|
                    0 <= i < k ==> re@[i] == (if self@[i] {
                        trues.re@[i]
                    } else {
                        falses.re@[i]
                    }),
                forall|i: int|
                    0 <= i < k ==> im@[i] == (if self@[i] {
                        trues.im@[i]
                    } else {
                        falses.im@[i]
                    }),
            decreases n - k,
        {
            if self.lanes[k] {
                re.push(trues.re.lanes[k]);
                im.push(trues.im.lanes[k]);
            } else {
                re.push(falses.re.lanes[k]);
                im.push(falses.im.lanes[k]);
            }
            k += 1;
        }
        SimdComplex32 { re: SimdF32 { lanes: re }, im: SimdF32 { lanes: im } }
    }
}

impl Clone for SimdComplex32 {
    fn clone(&self) -> (r: Self)
        ensures
            r.re@ == self.re@,
            r.im@ == self.im@,
    {
        SimdComplex32 { re: self.re.clone(), im: self.im.clone() }
    }
}

impl SimdComplex32 {
    /// The two component vectors carry the same number of lanes.
    pub open spec fn wf(&self) -> bool {
        self.re@.len() == self.im@.len()
    }

    /// How many lanes the value has.
    pub open spec fn lane_count(&self) -> nat {
        self.re@.len()
    }

    /// Broadcasts one scalar complex pair to every lane of an `n`-lane
    /// vector.
    pub fn splat(re: u32, im: u32, n: usize) -> (r: SimdComplex32)
        ensures
            r.wf(),
            r.lane_count() == n,
            forall|i: int| 0 <= i < n ==> r.re@[i] == re,
            forall|i: int| 0 <= i < n ==> r.im@[i] == im,
    {
        SimdComplex32 { re: SimdF32::splat(re, n), im: SimdF32::splat(im, n) }
    }

    /// Fused complex multiply-add `self * a + b`: four scalar fused
    /// multiply-adds, one rounding per scalar step.
    pub fn mul_add(&self, a: &SimdComplex32, b: &SimdComplex32) -> (r: SimdComplex32)
        requires
            self.wf(),
            a.wf(),
            b.wf(),
            self.lane_count() == a.lane_count(),
            self.lane_count() == b.lane_count(),
        ensures
            r.wf(),
            r.lane_count() == self.lane_count(),
            forall|i: int|
                0 <= i < self.lane_count() ==> r.re@[i] == cmuladd_re_bits(
                    self.re@[i],
                    self.im@[i],
                    a.re@[i],
                    a.im@[i],
                    b.re@[i],
                ),
            forall|i: int|
                0 <= i < self.lane_count() ==> r.im@[i] == cmuladd_im_bits(
                    self.re@[i],
                    self.im@[i],
                    a.re@[i],
                    a.im@[i],
                    b.im@[i],
                ),
    {
        SimdComplex32 {
            re: self.im.mul_add(&a.im.neg(), &self.re.mul_add(&a.re, &b.re)),
            im: self.re.mul_add(&a.im, &self.im.mul_add(&a.re, &b.im)),
        }
    }

    /// Squared magnitude of each lane: `fma(im, im, re * re)`.
    pub fn abssqr(&self) -> (r: SimdF32)
        requires
            self.wf(),
        ensures
            r@.len() == self.lane_count(),
            forall|i: int|
                0 <= i < self.lane_count() ==> r@[i] == cabssqr_bits(self.re@[i], self.im@[i]),
    {
        self.im.mul_add(&self.im, &self.re.mul(&self.re))
    }

    /// Magnitude of each lane: the square root of the squared magnitude.
    pub fn abs(&self) -> (r: SimdF32)
        requires
            self.wf(),
        ensures
            r@.len() == self.lane_count(),
            forall|i: int|
                0 <= i < self.lane_count() ==> r@[i] == sqrt_bits(
                    cabssqr_bits(self.re@[i], self.im@[i]),
                ),
    {
        self.abssqr().sqrt()
    }

    /// Component-wise negation.
    pub fn neg(&self) -> (r: SimdComplex32)
        requires
            self.wf(),
        ensures
            r.wf(),
            r.lane_count() == self.lane_count(),
            forall|i: int| 0 <= i < self.lane_count() ==> r.re@[i] == neg_bits(self.re@[i]),
            forall|i: int| 0 <= i < self.lane_count() ==> r.im@[i] == neg_bits(self.im@[i]),
    {
        SimdComplex32 { re: self.re.neg(), im: self.im.neg() }
    }

    /// Component-wise sum of two complex vectors.
    pub fn add(&self, rhs: &SimdComplex32) -> (r: SimdComplex32)
        requires
            self.wf(),
            rhs.wf(),
            self.lane_count() == rhs.lane_count(),
        ensures
            r.wf(),
            r.lane_count() == self.lane_count(),
            forall|i: int|
                0 <= i < self.lane_count() ==> r.re@[i] == add_bits(self.re@[i], rhs.re@[i]),
            forall|i: int|
                0 <= i < self.lane_count() ==> r.im@[i] == add_bits(self.im@[i], rhs.im@[i]),
    {
        SimdComplex32 { re: self.re.add(&rhs.re), im: self.im.add(&rhs.im) }
    }

    /// Adds a real lane vector: shifts only the real parts, the imaginary
    /// parts come through bit for bit.
    pub fn add_scalar(&self, rhs: &SimdF32) -> (r: SimdComplex32)
        requires
            self.wf(),
            self.lane_count() == rhs@.len(),
        ensures
            r.wf(),
            r.lane_count() == self.lane_count(),
            forall|i: int|
                0 <= i < self.lane_count() ==> r.re@[i] == add_bits(self.re@[i], rhs@[i]),
            r.im@ == self.im@,
    {
        SimdComplex32 { re: self.re.add(rhs), im: self.im.clone() }
    }

    /// Component-wise difference of two complex vectors.
    pub fn sub(&self, rhs: &SimdComplex32) -> (r: SimdComplex32)
        requires
            self.wf(),
            rhs.wf(),
            self.lane_count() == rhs.lane_count(),
        ensures
            r.wf(),
            r.lane_count() == self.lane_count(),
            forall|i: int|
                0 <= i < self.lane_count() ==> r.re@[i] == sub_bits(self.re@[i], rhs.re@[i]),
            forall|i: int|
                0 <= i < self.lane_count() ==> r.im@[i] == sub_bits(self.im@[i], rhs.im@[i]),
    {
        SimdComplex32 { re: self.re.sub(&rhs.re), im: self.im.sub(&rhs.im) }
    }

    /// Subtracts a real lane vector from the real parts only; the imaginary
    /// parts come through bit for bit.
    pub fn sub_scalar(&self, rhs: &SimdF32) -> (r: SimdComplex32)
        requires
            self.wf(),
            self.lane_count() == rhs@.len(),
        ensures
            r.wf(),
            r.lane_count() == self.lane_count(),
            forall|i: int|
                0 <= i < self.lane_count() ==> r.re@[i] == sub_bits(self.re@[i], rhs@[i]),
            r.im@ == self.im@,
    {
        SimdComplex32 { re: self.re.sub(rhs), im: self.im.clone() }
    }

    /// Complex product, with two multiplications and two fused multiply-adds
    /// in place of the naive four multiplications and two additions.
    pub fn mul(&self, rhs: &SimdComplex32) -> (r: SimdComplex32)
        requires
            self.wf(),
            rhs.wf(),
            self.lane_count() == rhs.lane_count(),
        ensures
            r.wf(),
            r.lane_count() == self.lane_count(),
            forall|i: int|
                0 <= i < self.lane_count() ==> r.re@[i] == cmul_re_bits(
                    self.re@[i],
                    self.im@[i],
                    rhs.re@[i],
                    rhs.im@[i],
                ),
            forall|i: int|
                0 <= i < self.lane_count() ==> r.im@[i] == cmul_im_bits(
                    self.re@[i],
                    self.im@[i],
                    rhs.re@[i],
                    rhs.im@[i],
                ),
    {
        SimdComplex32 {
            re: self.im.mul_add(&rhs.im.neg(), &self.re.mul(&rhs.re)),
            im: self.im.mul_add(&rhs.re, &self.re.mul(&rhs.im)),
        }
    }

    /// Scales both components by a real lane vector.
    pub fn mul_scalar(&self, rhs: &SimdF32) -> (r: SimdComplex32)
        requires
            self.wf(),
            self.lane_count() == rhs@.len(),
        ensures
            r.wf(),
            r.lane_count() == self.lane_count(),
            forall|i: int|
                0 <= i < self.lane_count() ==> r.re@[i] == mul_bits(self.re@[i], rhs@[i]),
            forall|i: int|
                0 <= i < self.lane_count() ==> r.im@[i] == mul_bits(self.im@[i], rhs@[i]),
    {
        SimdComplex32 { re: self.re.mul(rhs), im: self.im.mul(rhs) }
    }

    /// Complex quotient: one reciprocal of the divisor's squared magnitude,
    /// then one fused multiply-add and one scaling per component, with the
    /// same unrescaled-magnitude overflow caveat as the binary64 form.
    pub fn div(&self, rhs: &SimdComplex32) -> (r: SimdComplex32)
        requires
            self.wf(),
            rhs.wf(),
            self.lane_count() == rhs.lane_count(),
        ensures
            r.wf(),
            r.lane_count() == self.lane_count(),
            forall|i: int|
                0 <= i < self.lane_count() ==> r.re@[i] == cdiv_re_bits(
                    self.re@[i],
                    self.im@[i],
                    rhs.re@[i],
                    rhs.im@[i],
                ),
            forall|i: int|
                0 <= i < self.lane_count() ==> r.im@[i] == cdiv_im_bits(
                    self.re@[i],
                    self.im@[i],
                    rhs.re@[i],
                    rhs.im@[i],
                ),
    {
        let denom = rhs.abssqr().recip();
        SimdComplex32 {
            re: self.im.mul_add(&rhs.im, &self.re.mul(&rhs.re)).mul(&denom),
            im: self.re.mul_add(&rhs.im.neg(), &self.im.mul(&rhs.re)).mul(&denom),
        }
    }

    /// Divides both components by a real lane vector, through one reciprocal
    /// and two multiplications in place of two divisions.
    pub fn div_scalar(&self, rhs: &SimdF32) -> (r: SimdComplex32)
        requires
            self.wf(),
            self.lane_count() == rhs@.len(),
        ensures
            r.wf(),
            r.lane_count() == self.lane_count(),
            forall|i: int|
                0 <= i < self.lane_count() ==> r.re@[i] == mul_bits(
                    self.re@[i],
                    recip_bits(rhs@[i]),
                ),
            forall|i: int|
                0 <= i < self.lane_count() ==> r.im@[i] == mul_bits(
                    self.im@[i],
                    recip_bits(rhs@[i]),
                ),
    {
        let r = rhs.recip();
        SimdComplex32 { re: self.re.mul(&r), im: self.im.mul(&r) }
    }

    /// Compound assignment form of [`SimdComplex32::add`].
    pub fn add_assign(&mut self, rhs: &SimdComplex32)
        requires
            old(self).wf(),
            rhs.wf(),
            old(self).lane_count() == rhs.lane_count(),
        ensures
            final(self).wf(),
            final(self).lane_count() == old(self).lane_count(),
            forall|i: int|
                0 <= i < old(self).lane_count() ==> final(self).re@[i] == add_bits(
                    old(self).re@[i],
                    rhs.re@[i],
                ),
            forall|i: int|
                0 <= i < old(self).lane_count() ==> final(self).im@[i] == add_bits(
                    old(self).im@[i],
                    rhs.im@[i],
                ),
    {
        let r = self.add(rhs);
        *self = r;
    }

    /// Compound assignment form of [`SimdComplex32::add_scalar`].
    pub fn add_scalar_assign(&mut self, rhs: &SimdF32)
        requires
            old(self).wf(),
            old(self).lane_count() == rhs@.len(),
        ensures
            final(self).wf(),
            final(self).lane_count() == old(self).lane_count(),
            forall|i: int|
                0 <= i < old(self).lane_count() ==> final(self).re@[i] == add_bits(
                    old(self).re@[i],
                    rhs@[i],
                ),
            final(self).im@ == old(self).im@,
    {
        let r = self.add_scalar(rhs);
        *self = r;
    }

    /// Compound assignment form of [`SimdComplex32::sub`].
    pub fn sub_assign(&mut self, rhs: &SimdComplex32)
        requires
            old(self).wf(),
            rhs.wf(),
            old(self).lane_count() == rhs.lane_count(),
        ensures
            final(self).wf(),
            final(self).lane_count() == old(self).lane_count(),
            forall|i: int|
                0 <= i < old(self).lane_count() ==> final(self).re@[i] == sub_bits(
                    old(self).re@[i],
                    rhs.re@[i],
                ),
            forall|i: int|
                0 <= i < old(self).lane_count() ==> final(self).im@[i] == sub_bits(
                    old(self).im@[i],
                    rhs.im@[i],
                ),
    {
        let r = self.sub(rhs);
        *self = r;
    }

    /// Compound assignment form of [`SimdComplex32::sub_scalar`].
    pub fn sub_scalar_assign(&mut self, rhs: &SimdF32)
        requires
            old(self).wf(),
            old(self).lane_count() == rhs@.len(),
        ensures
            final(self).wf(),
            final(self).lane_count() == old(self).lane_count(),
            forall|i: int|
                0 <= i < old(self).lane_count() ==> final(self).re@[i] == sub_bits(
                    old(self).re@[i],
                    rhs@[i],
                ),
            final(self).im@ == old(self).im@,
    {
        let r = self.sub_scalar(rhs);
        *self = r;
    }

    /// Compound assignment form of [`SimdComplex32::mul`].
    pub fn mul_assign(&mut self, rhs: &SimdComplex32)
        requires
            old(self).wf(),
            rhs.wf(),
            old(self).lane_count() == rhs.lane_count(),
        ensures
            final(self).wf(),
            final(self).lane_count() == old(self).lane_count(),
            forall|i: int|
                0 <= i < old(self).lane_count() ==> final(self).re@[i] == cmul_re_bits(
                    old(self).re@[i],
                    old(self).im@[i],
                    rhs.re@[i],
                    rhs.im@[i],
                ),
            forall|i: int|
                0 <= i < old(self).lane_count() ==> final(self).im@[i] == cmul_im_bits(
                    old(self).re@[i],
                    old(self).im@[i],
                    rhs.re@[i],
                    rhs.im@[i],
                ),
    {
        let r = self.mul(rhs);
        *self = r;
    }

    /// Compound assignment form of [`SimdComplex32::mul_scalar`].
    pub fn mul_scalar_assign(&mut self, rhs: &SimdF32)
        requires
            old(self).wf(),
            old(self).lane_count() == rhs@.len(),
        ensures
            final(self).wf(),
            final(self).lane_count() == old(self).lane_count(),
            forall|i: int|
                0 <= i < old(self).lane_count() ==> final(self).re@[i] == mul_bits(
                    old(self).re@[i],
                    rhs@[i],
                ),
            forall|i: int|
                0 <= i < old(self).lane_count() ==> final(self).im@[i] == mul_bits(
                    old(self).im@[i],
                    rhs@[i],
                ),
    {
        let r = self.mul_scalar(rhs);
        *self = r;
    }

    /// Compound assignment form of [`SimdComplex32::div`].
    pub fn div_assign(&mut self, rhs: &SimdComplex32)
        requires
            old(self).wf(),
            rhs.wf(),
            old(self).lane_count() == rhs.lane_count(),
        ensures
            final(self).wf(),
            final(self).lane_count() == old(self).lane_count(),
            forall|i: int|
                0 <= i < old(self).lane_count() ==> final(self).re@[i] == cdiv_re_bits(
                    old(self).re@[i],
                    old(self).im@[i],
                    rhs.re@[i],
                    rhs.im@[i],
                ),
            forall|i: int|
                0 <= i < old(self).lane_count() ==> final(self).im@[i] == cdiv_im_bits(
                    old(self).re@[i],
                    old(self).im@[i],
                    rhs.re@[i],
                    rhs.im@[i],
                ),
    {
        let r = self.div(rhs);
        *self = r;
    }

    /// Compound assignment form of [`SimdComplex32::div_scalar`].
    pub fn div_scalar_assign(&mut self, rhs: &SimdF32)
        requires
            old(self).wf(),
            old(self).lane_count() == rhs@.len(),
        ensures
            final(self).wf(),
            final(self).lane_count() == old(self).lane_count(),
            forall|i: int|
                0 <= i < old(self).lane_count() ==> final(self).re@[i] == mul_bits(
                    old(self).re@[i],
                    recip_bits(rhs@[i]),
                ),
            forall|i: int|
                0 <= i < old(self).lane_count() ==> final(self).im@[i] == mul_bits(
                    old(self).im@[i],
                    recip_bits(rhs@[i]),
                ),
    {
        let r = self.div_scalar(rhs);
        *self = r;
    }
}

impl SimdF32 {
    /// `scalar + complex`: addition commutes, so this delegates to
    /// [`SimdComplex32::add_scalar`] with the operands swapped.
    pub fn add_complex(&self, rhs: &SimdComplex32) -> (r: SimdComplex32)
        requires
            rhs.wf(),
            self@.len() == rhs.lane_count(),
        ensures
            r.wf(),
            r.lane_count() == self@.len(),
            forall|i: int| 0 <= i < self@.len() ==> r.re@[i] == add_bits(rhs.re@[i], self@[i]),
            r.im@ == rhs.im@,
    {
        rhs.add_scalar(self)
    }

    /// `scalar - complex`, which does not commute: the real lanes are
    /// `scalar - re`, the imaginary lanes are negated.
    pub fn sub_complex(&self, rhs: &SimdComplex32) -> (r: SimdComplex32)
        requires
            rhs.wf(),
            self@.len() == rhs.lane_count(),
        ensures
            r.wf(),
            r.lane_count() == self@.len(),
            forall|i: int| 0 <= i < self@.len() ==> r.re@[i] == rsub_re_bits(self@[i], rhs.re@[i]),
            forall|i: int| 0 <= i < self@.len() ==> r.im@[i] == rsub_im_bits(rhs.im@[i]),
    {
        SimdComplex32 { re: self.sub(&rhs.re), im: rhs.im.neg() }
    }

    /// `scalar * complex`: multiplication commutes, so this delegates to
    /// [`SimdComplex32::mul_scalar`] with the operands swapped.
    pub fn mul_complex(&self, rhs: &SimdComplex32) -> (r: SimdComplex32)
        requires
            rhs.wf(),
            self@.len() == rhs.lane_count(),
        ensures
            r.wf(),
            r.lane_count() == self@.len(),
            forall|i: int| 0 <= i < self@.len() ==> r.re@[i] == mul_bits(rhs.re@[i], self@[i]),
            forall|i: int| 0 <= i < self@.len() ==> r.im@[i] == mul_bits(rhs.im@[i], self@[i]),
    {
        rhs.mul_scalar(self)
    }

    /// `scalar / complex`: the scalar times the conjugate of the divisor,
    /// scaled by one reciprocal of the divisor's squared magnitude, with the
    /// same overflow caveat as [`SimdComplex32::div`].
    pub fn div_complex(&self, rhs: &SimdComplex32) -> (r: SimdComplex32)
        requires
            rhs.wf(),
            self@.len() == rhs.lane_count(),
        ensures
            r.wf(),
            r.lane_count() == self@.len(),
            forall|i: int|
                0 <= i < self@.len() ==> r.re@[i] == rdiv_re_bits(
                    self@[i],
                    rhs.re@[i],
                    rhs.im@[i],
                ),
            forall|i: int|
                0 <= i < self@.len() ==> r.im@[i] == rdiv_im_bits(
                    self@[i],
                    rhs.re@[i],
                    rhs.im@[i],
                ),
    {
        let denom = rhs.abssqr().recip();
        SimdComplex32 {
            re: self.mul(&rhs.re).mul(&denom),
            im: self.neg().mul(&rhs.im).mul(&denom),
        }
    }
}

} // verus!
