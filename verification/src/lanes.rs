//! Scalar IEEE-754 binary64 lanes, carried as `u64` bit patterns, and the
//! vector of such lanes that the complex type is built from.
//!
//! Every arithmetic operation on a lane is named by an uninterpreted spec
//! function of the operand bit patterns; the executable side of each name is
//! a thin call into a software floating-point implementation that computes
//! the operation by integer arithmetic alone, so the result is the same on
//! every machine.

use vstd::prelude::*;
use const_soft_float::soft_f64::SoftF64;

verus! {

/// The sign bit of a binary64 bit pattern.
pub const SIGN_BIT: u64 = 0x8000_0000_0000_0000;

/// The bit pattern of the number one in binary64.
pub const ONE_BITS: u64 = 0x3ff0_0000_0000_0000;

/// The binary64 sum of two lanes, rounded to nearest-even.
pub uninterp spec fn add_bits(a: u64, b: u64) -> u64;

/// The binary64 product of two lanes, rounded to nearest-even.
pub uninterp spec fn mul_bits(a: u64, b: u64) -> u64;

/// The binary64 quotient of two lanes, rounded to nearest-even.
pub uninterp spec fn div_bits(a: u64, b: u64) -> u64;

/// The binary64 square root of a lane, rounded to nearest-even.
pub uninterp spec fn sqrt_bits(a: u64) -> u64;

/// The fused multiply-add `a * b + c` of three lanes, in one rounding.
pub uninterp spec fn fma_bits(a: u64, b: u64, c: u64) -> u64;

/// Negation of a lane. IEEE-754 negation flips the sign bit and keeps every
/// other bit, for every operand, NaNs included.
pub open spec fn neg_bits(a: u64) -> u64 {
    a ^ SIGN_BIT
}

/// The difference of two lanes: the sum of the minuend and the negated
/// subtrahend, which is exactly IEEE-754 subtraction.
pub open spec fn sub_bits(a: u64, b: u64) -> u64 {
    add_bits(a, neg_bits(b))
}

/// The reciprocal of a lane: one divided by it, in one rounding.
pub open spec fn recip_bits(a: u64) -> u64 {
    div_bits(ONE_BITS, a)
}

/// Relies on `SoftF64::add` of `const_soft_float`: the IEEE-754 binary64
/// sum, rounded to nearest-even, computed in pure integer arithmetic, so a
/// function of the operand bit patterns alone.
#[verifier::external_body]
fn add_lane(a: u64, b: u64) -> (r: u64)
    ensures
        r == add_bits(a, b),
{
    SoftF64::from_bits(a).add(SoftF64::from_bits(b)).to_bits()
}

/// Relies on `SoftF64::mul` of `const_soft_float`: the IEEE-754 binary64
/// product, rounded to nearest-even, computed in pure integer arithmetic,
/// so a function of the operand bit patterns alone.
#[verifier::external_body]
fn mul_lane(a: u64, b: u64) -> (r: u64)
    ensures
        r == mul_bits(a, b),
{
    SoftF64::from_bits(a).mul(SoftF64::from_bits(b)).to_bits()
}

/// Relies on `SoftF64::div` of `const_soft_float`: the IEEE-754 binary64
/// quotient, rounded to nearest-even, computed in pure integer arithmetic,
/// so a function of the operand bit patterns alone.
#[verifier::external_body]
fn div_lane(a: u64, b: u64) -> (r: u64)
    ensures
        r == div_bits(a, b),
{
    SoftF64::from_bits(a).div(SoftF64::from_bits(b)).to_bits()
}

/// Relies on `SoftF64::sqrt` of `const_soft_float`: the IEEE-754 binary64
/// square root, rounded to nearest-even, computed in pure integer
/// arithmetic, so a function of the operand bit pattern alone.
#[verifier::external_body]
fn sqrt_lane(a: u64) -> (r: u64)
    ensures
        r == sqrt_bits(a),
{
    SoftF64::from_bits(a).sqrt().to_bits()
}

/// Relies on `libm::fma`: the fused multiply-add `a * b + c` in one
/// rounding, computed by that crate's software path (its hardware paths are
/// switched off), so a function of the operand bit patterns alone.
#[verifier::external_body]
fn fma_lane(a: u64, b: u64, c: u64) -> (r: u64)
    ensures
        r == fma_bits(a, b, c),
{
    libm::fma(
        SoftF64::from_bits(a).0,
        SoftF64::from_bits(b).0,
        SoftF64::from_bits(c).0,
    )
    .to_bits()
}

/// Negation of one lane: flips the sign bit.
fn neg_lane(a: u64) -> (r: u64)
    ensures
        r == neg_bits(a),
{
    a ^ SIGN_BIT
}

/// A vector of binary64 lanes, each lane carried as its bit pattern.
pub struct SimdF64 {
    pub lanes: Vec<u64>,
}

impl View for SimdF64 {
    type V = Seq<u64>;

    open spec fn view(&self) -> Seq<u64> {
        self.lanes@
    }
}

impl Clone for SimdF64 {
    fn clone(&self) -> (r: Self)
        ensures
            r@ == self@,
    {
        SimdF64 { lanes: self.lanes.clone() }
    }
}

impl SimdF64 {
    /// How many lanes the vector has.
    pub fn lane_count(&self) -> (n: usize)
        ensures
            n == self@.len(),
    {
        self.lanes.len()
    }

    /// Broadcasts one lane value to every lane of an `n`-lane vector.
    pub fn splat(v: u64, n: usize) -> (r: SimdF64)
        ensures
            r@.len() == n,
            forall|i: int| 0 <= i < n ==> r@[i] == v,
    {
        let mut lanes: Vec<u64> = Vec::new();
        while lanes.len() < n
            invariant
                lanes@.len() <= n,
                forall|i: int| 0 <= i < lanes@.len() ==> lanes@[i] == v,
            decreases n - lanes@.len(),
        {
            lanes.push(v);
        }
        SimdF64 { lanes }
    }

    /// Lane-wise sum.
    pub fn add(&self, rhs: &SimdF64) -> (r: SimdF64)
        requires
            self@.len() == rhs@.len(),
        ensures
            r@.len() == self@.len(),
            forall|i: int| 0 <= i < self@.len() ==> r@[i] == add_bits(self@[i], rhs@[i]),
    {
        let n = self.lanes.len();
        let mut lanes: Vec<u64> = Vec::new();
        let mut k: usize = 0;
        while k < n
            invariant
                n == self@.len(),
                n == rhs@.len(),
                k == lanes@.len(),
                k <= n,
                forall|i: int| 0 <= i < k ==> lanes@[i] == add_bits(self@[i], rhs@[i]),
            decreases n - k,
        {
            lanes.push(add_lane(self.lanes[k], rhs.lanes[k]));
            k += 1;
        }
        SimdF64 { lanes }
    }

    /// Lane-wise negation.
    pub fn neg(&self) -> (r: SimdF64)
        ensures
            r@.len() == self@.len(),
            forall|i: int| 0 <= i < self@.len() ==> r@[i] == neg_bits(self@[i]),
    {
        let n = self.lanes.len();
        let mut lanes: Vec<u64> = Vec::new();
        let mut k: usize = 0;
        while k < n
            invariant
                n == self@.len(),
                k == lanes@.len(),
                k <= n,
                forall|i: int| 0 <= i < k ==> lanes@[i] == neg_bits(self@[i]),
            decreases n - k,
        {
            lanes.push(neg_lane(self.lanes[k]));
            k += 1;
        }
        SimdF64 { lanes }
    }

    /// Lane-wise difference: the sum with the negated subtrahend.
    pub fn sub(&self, rhs: &SimdF64) -> (r: SimdF64)
        requires
            self@.len() == rhs@.len(),
        ensures
            r@.len() == self@.len(),
            forall|i: int| 0 <= i < self@.len() ==> r@[i] == sub_bits(self@[i], rhs@[i]),
    {
        self.add(&rhs.neg())
    }

    /// Lane-wise product.
    pub fn mul(&self, rhs: &SimdF64) -> (r: SimdF64)
        requires
            self@.len() == rhs@.len(),
        ensures
            r@.len() == self@.len(),
            forall|i: int| 0 <= i < self@.len() ==> r@[i] == mul_bits(self@[i], rhs@[i]),
    {
        let n = self.lanes.len();
        let mut lanes: Vec<u64> = Vec::new();
        let mut k: usize = 0;
        while k < n
            invariant
                n == self@.len(),
                n == rhs@.len(),
                k == lanes@.len(),
                k <= n,
                forall|i: int| 0 <= i < k ==> lanes@[i] == mul_bits(self@[i], rhs@[i]),
            decreases n - k,
        {
            lanes.push(mul_lane(self.lanes[k], rhs.lanes[k]));
            k += 1;
        }
        SimdF64 { lanes }
    }

    /// Lane-wise quotient.
    pub fn div(&self, rhs: &SimdF64) -> (r: SimdF64)
        requires
            self@.len() == rhs@.len(),
        ensures
            r@.len() == self@.len(),
            forall|i: int| 0 <= i < self@.len() ==> r@[i] == div_bits(self@[i], rhs@[i]),
    {
        let n = self.lanes.len();
        let mut lanes: Vec<u64> = Vec::new();
        let mut k: usize = 0;
        while k < n
            invariant
                n == self@.len(),
                n == rhs@.len(),
                k == lanes@.len(),
                k <= n,
                forall|i: int| 0 <= i < k ==> lanes@[i] == div_bits(self@[i], rhs@[i]),
            decreases n - k,
        {
            lanes.push(div_lane(self.lanes[k], rhs.lanes[k]));
            k += 1;
        }
        SimdF64 { lanes }
    }

    /// Lane-wise fused multiply-add: `self * a + b`, one rounding per lane.
    pub fn mul_add(&self, a: &SimdF64, b: &SimdF64) -> (r: SimdF64)
        requires
            self@.len() == a@.len(),
            self@.len() == b@.len(),
        ensures
            r@.len() == self@.len(),
            forall|i: int| 0 <= i < self@.len() ==> r@[i] == fma_bits(self@[i], a@[i], b@[i]),
    {
        let n = self.lanes.len();
        let mut lanes: Vec<u64> = Vec::new();
        let mut k: usize = 0;
        while k < n
            invariant
                n == self@.len(),
                n == a@.len(),
                n == b@.len(),
                k == lanes@.len(),
                k <= n,
                forall|i: int| 0 <= i < k ==> lanes@[i] == fma_bits(self@[i], a@[i], b@[i]),
            decreases n - k,
        {
            lanes.push(fma_lane(self.lanes[k], a.lanes[k], b.lanes[k]));
            k += 1;
        }
        SimdF64 { lanes }
    }

    /// Lane-wise square root.
    pub fn sqrt(&self) -> (r: SimdF64)
        ensures
            r@.len() == self@.len(),
            forall|i: int| 0 <= i < self@.len() ==> r@[i] == sqrt_bits(self@[i]),
    {
        let n = self.lanes.len();
        let mut lanes: Vec<u64> = Vec::new();
        let mut k: usize = 0;
        while k < n
            invariant
                n == self@.len(),
                k == lanes@.len(),
                k <= n,
                forall|i: int| 0 <= i < k ==> lanes@[i] == sqrt_bits(self@[i]),
            decreases n - k,
        {
            lanes.push(sqrt_lane(self.lanes[k]));
            k += 1;
        }
        SimdF64 { lanes }
    }

    /// Lane-wise reciprocal: one divided by each lane.
    pub fn recip(&self) -> (r: SimdF64)
        ensures
            r@.len() == self@.len(),
            forall|i: int| 0 <= i < self@.len() ==> r@[i] == recip_bits(self@[i]),
    {
        SimdF64::splat(ONE_BITS, self.lanes.len()).div(self)
    }
}

} // verus!
