//! The transcendental extension: the complex exponential, composed from a
//! real exponential and a sine/cosine decomposition,
//! `exp(re + i*im) = exp(re) * (cos(im) + i*sin(im))`.
//!
//! The three real elementary functions are an outside collaborator; here
//! they come lane by lane from `libm`'s software paths, so each is a
//! function of the operand bit pattern alone and is carried by a name.

use vstd::prelude::*;
use const_soft_float::soft_f64::SoftF64;

use crate::lanes::mul_bits;
use crate::SimdComplex;
use crate::SimdF64;

verus! {

/// The binary64 exponential of a lane.
pub uninterp spec fn exp_bits(a: u64) -> u64;

/// The binary64 sine of a lane.
pub uninterp spec fn sin_bits(a: u64) -> u64;

/// The binary64 cosine of a lane.
pub uninterp spec fn cos_bits(a: u64) -> u64;

/// The real lane of the complex exponential: `exp(re) * cos(im)`.
pub open spec fn cexp_re_bits(re: u64, im: u64) -> u64 {
    mul_bits(exp_bits(re), cos_bits(im))
}

/// The imaginary lane of the complex exponential: `exp(re) * sin(im)`.
pub open spec fn cexp_im_bits(re: u64, im: u64) -> u64 {
    mul_bits(exp_bits(re), sin_bits(im))
}

/// Relies on `libm::exp`: the binary64 exponential, computed by that
/// crate's software path (its hardware paths are switched off), so a
/// function of the operand bit pattern alone.
#[verifier::external_body]
fn exp_lane(a: u64) -> (r: u64)
    ensures
        r == exp_bits(a),
{
    libm::exp(SoftF64::from_bits(a).0).to_bits()
}

/// Relies on `libm::sin`: the binary64 sine, computed by that crate's
/// software path, so a function of the operand bit pattern alone.
#[verifier::external_body]
fn sin_lane(a: u64) -> (r: u64)
    ensures
        r == sin_bits(a),
{
    libm::sin(SoftF64::from_bits(a).0).to_bits()
}

/// Relies on `libm::cos`: the binary64 cosine, computed by that crate's
/// software path, so a function of the operand bit pattern alone.
#[verifier::external_body]
fn cos_lane(a: u64) -> (r: u64)
    ensures
        r == cos_bits(a),
{
    libm::cos(SoftF64::from_bits(a).0).to_bits()
}

impl SimdF64 {
    /// Lane-wise real exponential.
    pub fn exp(&self) -> (r: SimdF64)
        ensures
            r@.len() == self@.len(),
            forall|i: int| 0 <= i < self@.len() ==> r@[i] == exp_bits(self@[i]),
    {
        let n = self.lanes.len();
        let mut lanes: Vec<u64> = Vec::new();
        let mut k: usize = 0;
        while k < n
            invariant
                n == self@.len(),
                k == lanes@.len(),
                k <= n,
                forall|i: int| 0 <= i < k ==> lanes@[i] == exp_bits(self@[i]),
            decreases n - k,
        {
            lanes.push(exp_lane(self.lanes[k]));
            k += 1;
        }
        SimdF64 { lanes }
    }

    /// Lane-wise sine.
    pub fn sin(&self) -> (r: SimdF64)
        ensures
            r@.len() == self@.len(),
            forall|i: int| 0 <= i < self@.len() ==> r@[i] == sin_bits(self@[i]),
    {
        let n = self.lanes.len();
        let mut lanes: Vec<u64> = Vec::new();
        let mut k: usize = 0;
        while k < n
            invariant
                n == self@.len(),
                k == lanes@.len(),
                k <= n,
                forall|i: int| 0 <= i < k ==> lanes@[i] == sin_bits(self@[i]),
            decreases n - k,
        {
            lanes.push(sin_lane(self.lanes[k]));
            k += 1;
        }
        SimdF64 { lanes }
    }

    /// Lane-wise cosine.
    pub fn cos(&self) -> (r: SimdF64)
        ensures
            r@.len() == self@.len(),
            forall|i: int| 0 <= i < self@.len() ==> r@[i] == cos_bits(self@[i]),
    {
        let n = self.lanes.len();
        let mut lanes: Vec<u64> = Vec::new();
        let mut k: usize = 0;
        while k < n
            invariant
                n == self@.len(),
                k == lanes@.len(),
                k <= n,
                forall|i: int| 0 <= i < k ==> lanes@[i] == cos_bits(self@[i]),
            decreases n - k,
        {
            lanes.push(cos_lane(self.lanes[k]));
            k += 1;
        }
        SimdF64 { lanes }
    }
}

impl SimdComplex {
    /// The complex exponential: the real exponential of the real parts,
    /// scaled into the cosine and sine of the imaginary parts, lane by
    /// lane. No argument reduction or overflow guarding beyond what the
    /// elementary functions themselves provide.
    pub fn exp(&self) -> (r: SimdComplex)
        requires
            self.wf(),
        ensures
            r.wf(),
            r.lane_count() == self.lane_count(),
            forall|i: int|
                0 <= i < self.lane_count() ==> r.re@[i] == cexp_re_bits(self.re@[i], self.im@[i]),
            forall|i: int|
                0 <= i < self.lane_count() ==> r.im@[i] == cexp_im_bits(self.re@[i], self.im@[i]),
    {
        let r = self.re.exp();
        SimdComplex { re: r.mul(&self.im.cos()), im: r.mul(&self.im.sin()) }
    }
}

} // verus!
