use simd_complex::width32::SimdComplex32;
use simd_complex::width32::SimdF32;
use simd_complex::width32::SimdMask32;

fn vf(xs: &[f32]) -> SimdF32 {
    SimdF32 { lanes: xs.iter().map(|x| x.to_bits()).collect() }
}

fn cf(re: &[f32], im: &[f32]) -> SimdComplex32 {
    SimdComplex32 { re: vf(re), im: vf(im) }
}

fn approx32(a: f32, b: f32, tol: f32) -> bool {
    let scale = 1.0f32.max(a.abs()).max(b.abs());
    (a - b).abs() <= tol * scale
}

const ARE: [f32; 4] = [0.5, -1.25, 3.75e4, -2.0e-3];
const AIM: [f32; 4] = [1.5, 0.875, -9.25e-3, 4.0e3];
const BRE: [f32; 4] = [-0.75, 2.5, 1.5e4, -3.0e-3];
const BIM: [f32; 4] = [0.25, -3.5, 6.25e-3, -2.5e3];

#[test]
fn test_add_sub_matches_native_lanes_32() {
    let a = cf(&ARE, &AIM);
    let b = cf(&BRE, &BIM);
    let s = a.add(&b);
    let d = a.sub(&b);
    for k in 0..4 {
        assert_eq!(s.re.lanes[k], (ARE[k] + BRE[k]).to_bits());
        assert_eq!(s.im.lanes[k], (AIM[k] + BIM[k]).to_bits());
        assert_eq!(d.re.lanes[k], (ARE[k] - BRE[k]).to_bits());
        assert_eq!(d.im.lanes[k], (AIM[k] - BIM[k]).to_bits());
    }
}

#[test]
fn test_mul_div_match_fused_formulas_32() {
    let a = cf(&ARE, &AIM);
    let b = cf(&BRE, &BIM);
    let p = a.mul(&b);
    let q = a.div(&b);
    for k in 0..4 {
        let re = AIM[k].mul_add(-BIM[k], ARE[k] * BRE[k]);
        let im = AIM[k].mul_add(BRE[k], ARE[k] * BIM[k]);
        assert_eq!(p.re.lanes[k], re.to_bits());
        assert_eq!(p.im.lanes[k], im.to_bits());
        let denom = 1.0f32 / BIM[k].mul_add(BIM[k], BRE[k] * BRE[k]);
        let re = AIM[k].mul_add(BIM[k], ARE[k] * BRE[k]) * denom;
        let im = ARE[k].mul_add(-BIM[k], AIM[k] * BRE[k]) * denom;
        assert_eq!(q.re.lanes[k], re.to_bits());
        assert_eq!(q.im.lanes[k], im.to_bits());
    }
}

#[test]
fn test_roundtrips_32() {
    let a = cf(&ARE, &AIM);
    let b = cf(&BRE, &BIM);
    let r = a.add(&b).sub(&b);
    for k in 0..4 {
        assert!(approx32(f32::from_bits(r.re.lanes[k]), ARE[k], 1.0e-6));
        assert!(approx32(f32::from_bits(r.im.lanes[k]), AIM[k], 1.0e-6));
    }
    let r = a.div(&b).mul(&b);
    for k in 0..4 {
        assert!(approx32(f32::from_bits(r.re.lanes[k]), ARE[k], 1.0e-6));
        assert!(approx32(f32::from_bits(r.im.lanes[k]), AIM[k], 1.0e-6));
    }
}

#[test]
fn test_mul_add_fused_accuracy_32() {
    // (1 + 2^-13) * (1 - 2^-13) - 1 = -2^-26 exactly; the separate multiply
    // rounds the product 1 - 2^-26 to the nearer 1 and returns 0.
    let eps = (2.0f32).powi(-13);
    let exact = -(2.0f32).powi(-26);
    let s = cf(&[1.0 + eps], &[0.0]);
    let x = cf(&[1.0 - eps], &[0.0]);
    let b = cf(&[-1.0], &[0.0]);
    let fused = s.mul_add(&x, &b);
    let separate = s.mul(&x).add(&b);
    let f = f32::from_bits(fused.re.lanes[0]);
    let sep = f32::from_bits(separate.re.lanes[0]);
    assert_eq!(f, exact);
    assert_eq!(sep, 0.0);
    assert!((f - exact).abs() <= (sep - exact).abs());
}

#[test]
fn test_abssqr_abs_32() {
    let a = cf(&[3.0, -1.25], &[4.0, 0.5]);
    let r = a.abssqr();
    assert_eq!(f32::from_bits(r.lanes[0]), 25.0);
    for k in 0..2 {
        let re = f32::from_bits(a.re.lanes[k]);
        let im = f32::from_bits(a.im.lanes[k]);
        assert_eq!(r.lanes[k], im.mul_add(im, re * re).to_bits());
    }
    assert_eq!(f32::from_bits(a.abs().lanes[0]), 5.0);
}

#[test]
fn test_cselect_lane_independence_32() {
    let t = cf(&ARE, &AIM);
    let f = cf(&BRE, &BIM);
    let patterns: [[bool; 4]; 3] = [
        [true, true, true, true],
        [false, false, false, false],
        [false, true, false, true],
    ];
    for pat in patterns.iter() {
        let m = SimdMask32 { lanes: pat.to_vec() };
        let r = m.cselect(&t, &f);
        for k in 0..4 {
            let (er, ei) = if pat[k] {
                (t.re.lanes[k], t.im.lanes[k])
            } else {
                (f.re.lanes[k], f.im.lanes[k])
            };
            assert_eq!(r.re.lanes[k], er);
            assert_eq!(r.im.lanes[k], ei);
        }
    }
}

#[test]
fn test_scalar_and_reverse_forms_32() {
    let a = cf(&ARE, &AIM);
    let s = vf(&BRE);

    let add = a.add_scalar(&s);
    let mul = a.mul_scalar(&s);
    let div = a.div_scalar(&s);
    for k in 0..4 {
        assert_eq!(add.re.lanes[k], (ARE[k] + BRE[k]).to_bits());
        assert_eq!(add.im.lanes[k], AIM[k].to_bits());
        assert_eq!(mul.re.lanes[k], (ARE[k] * BRE[k]).to_bits());
        assert_eq!(mul.im.lanes[k], (AIM[k] * BRE[k]).to_bits());
        let r = 1.0f32 / BRE[k];
        assert_eq!(div.re.lanes[k], (ARE[k] * r).to_bits());
        assert_eq!(div.im.lanes[k], (AIM[k] * r).to_bits());
    }

    // scalar - complex == -(complex - scalar), lane for lane.
    let left = s.sub_complex(&a);
    let right = a.sub_scalar(&s).neg();
    assert_eq!(left.re.lanes, right.re.lanes);
    assert_eq!(left.im.lanes, right.im.lanes);

    // Commuting reverse forms delegate.
    let radd = s.add_complex(&a);
    assert_eq!(radd.re.lanes, a.add_scalar(&s).re.lanes);
    let rmul = s.mul_complex(&a);
    assert_eq!(rmul.im.lanes, a.mul_scalar(&s).im.lanes);

    // scalar / complex == (scalar * conjugate(complex)) / abssqr(complex).
    let rdiv = s.div_complex(&a);
    let conj = SimdComplex32 { re: a.re.clone(), im: a.im.neg() };
    let other = conj.mul_scalar(&s).div_scalar(&a.abssqr());
    for k in 0..4 {
        assert!(approx32(
            f32::from_bits(rdiv.re.lanes[k]),
            f32::from_bits(other.re.lanes[k]),
            1.0e-6,
        ));
        assert!(approx32(
            f32::from_bits(rdiv.im.lanes[k]),
            f32::from_bits(other.im.lanes[k]),
            1.0e-6,
        ));
    }
}

#[test]
fn test_splat_and_assign_forms_32() {
    let c = SimdComplex32::splat(1.5f32.to_bits(), (-2.25f32).to_bits(), 3);
    for k in 0..3 {
        assert_eq!(f32::from_bits(c.re.lanes[k]), 1.5);
        assert_eq!(f32::from_bits(c.im.lanes[k]), -2.25);
    }

    let a = cf(&ARE, &AIM);
    let b = cf(&BRE, &BIM);
    let s = vf(&BIM);

    let mut m = cf(&ARE, &AIM);
    m.add_assign(&b);
    assert_eq!(m.re.lanes, a.add(&b).re.lanes);

    let mut m = cf(&ARE, &AIM);
    m.sub_assign(&b);
    assert_eq!(m.im.lanes, a.sub(&b).im.lanes);

    let mut m = cf(&ARE, &AIM);
    m.mul_assign(&b);
    assert_eq!(m.re.lanes, a.mul(&b).re.lanes);

    let mut m = cf(&ARE, &AIM);
    m.div_assign(&b);
    assert_eq!(m.im.lanes, a.div(&b).im.lanes);

    let mut m = cf(&ARE, &AIM);
    m.add_scalar_assign(&s);
    assert_eq!(m.re.lanes, a.add_scalar(&s).re.lanes);

    let mut m = cf(&ARE, &AIM);
    m.sub_scalar_assign(&s);
    assert_eq!(m.re.lanes, a.sub_scalar(&s).re.lanes);

    let mut m = cf(&ARE, &AIM);
    m.mul_scalar_assign(&s);
    assert_eq!(m.re.lanes, a.mul_scalar(&s).re.lanes);

    let mut m = cf(&ARE, &AIM);
    m.div_scalar_assign(&s);
    assert_eq!(m.re.lanes, a.div_scalar(&s).re.lanes);
}

#[test]
fn test_sqrt_recip_neg_32() {
    let s = vf(&[9.0, 2.25, 16.0]);
    let r = s.sqrt();
    assert_eq!(f32::from_bits(r.lanes[0]), 3.0);
    assert_eq!(f32::from_bits(r.lanes[1]), 1.5);
    assert_eq!(f32::from_bits(r.lanes[2]), 4.0);

    let q = vf(&[4.0, -0.5]).recip();
    assert_eq!(f32::from_bits(q.lanes[0]), 0.25);
    assert_eq!(f32::from_bits(q.lanes[1]), -2.0);

    let n = vf(&[1.0, -2.0]).neg();
    assert_eq!(f32::from_bits(n.lanes[0]), -1.0);
    assert_eq!(f32::from_bits(n.lanes[1]), 2.0);
}
