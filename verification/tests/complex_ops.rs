use simd_complex::lanes::ONE_BITS;
use simd_complex::SimdComplex;
use simd_complex::SimdComplexSelect;
use simd_complex::SimdF64;
use simd_complex::SimdMask;

fn vf(xs: &[f64]) -> SimdF64 {
    SimdF64 { lanes: xs.iter().map(|x| x.to_bits()).collect() }
}

fn cf(re: &[f64], im: &[f64]) -> SimdComplex {
    SimdComplex { re: vf(re), im: vf(im) }
}

fn tf(v: &SimdF64) -> Vec<f64> {
    v.lanes.iter().map(|b| f64::from_bits(*b)).collect()
}

fn approx(a: f64, b: f64, tol: f64) -> bool {
    let scale = 1.0f64.max(a.abs()).max(b.abs());
    (a - b).abs() <= tol * scale
}

const ARE: [f64; 4] = [0.5, -1.25, 3.75e10, -2.0e-5];
const AIM: [f64; 4] = [1.5, 0.875, -9.25e-3, 4.0e7];
const BRE: [f64; 4] = [-0.75, 2.5, 1.125e-4, 3.0e3];
const BIM: [f64; 4] = [0.25, -3.5, 6.25e2, -7.0e-6];

#[test]
fn test_exp() {
    let zre = [
        0.7106566581109507,
        -0.5461187890421945,
        0.9116817311810632,
        0.7227996696442331,
        -0.5594680991682339,
        0.5446688682446102,
        -1.0676808758300795,
        1.807434548760676,
    ];

    let zim = [
        0.639525660421031,
        0.33703744521117146,
        -1.126644506861303,
        0.512151433227362,
        -0.17440497081298031,
        0.24196845022164443,
        0.4392278213915166,
        0.29229476570717267,
    ];

    let z = cf(&zre, &zim);

    let expz = z.exp();

    print_array(&tf(&expz.re));
    print_array(&tf(&expz.im));
}

fn print_array(a: &[f64]) {
    let mut line = String::from("[");
    let mut first = true;
    for x in a {
        line += &format!("{}{:9.2e}", if first { "" } else { ", " }, x);
        first = false;
    }
    line += "]";
    println!("{}", line);
}

#[test]
fn test_splat_broadcasts_every_lane() {
    let c = SimdComplex::splat(1.5f64.to_bits(), (-2.25f64).to_bits(), 5);
    assert_eq!(c.re.lane_count(), 5);
    assert_eq!(c.im.lane_count(), 5);
    for k in 0..5 {
        assert_eq!(f64::from_bits(c.re.lanes[k]), 1.5);
        assert_eq!(f64::from_bits(c.im.lanes[k]), -2.25);
    }
}

#[test]
fn test_add_matches_native_lanes() {
    let a = cf(&ARE, &AIM);
    let b = cf(&BRE, &BIM);
    let r = a.add(&b);
    for k in 0..4 {
        assert_eq!(r.re.lanes[k], (ARE[k] + BRE[k]).to_bits());
        assert_eq!(r.im.lanes[k], (AIM[k] + BIM[k]).to_bits());
    }
    assert_eq!(f64::from_bits(a.add(&a).re.lanes[0]), 1.0);
}

#[test]
fn test_sub_matches_native_lanes() {
    let a = cf(&ARE, &AIM);
    let b = cf(&BRE, &BIM);
    let r = a.sub(&b);
    for k in 0..4 {
        assert_eq!(r.re.lanes[k], (ARE[k] - BRE[k]).to_bits());
        assert_eq!(r.im.lanes[k], (AIM[k] - BIM[k]).to_bits());
    }
}

#[test]
fn test_neg_flips_every_sign() {
    let a = cf(&ARE, &AIM);
    let n = a.neg();
    for k in 0..4 {
        assert_eq!(f64::from_bits(n.re.lanes[k]), -ARE[k]);
        assert_eq!(f64::from_bits(n.im.lanes[k]), -AIM[k]);
    }
    let back = n.neg();
    assert_eq!(back.re.lanes, a.re.lanes);
    assert_eq!(back.im.lanes, a.im.lanes);
}

#[test]
fn test_mul_matches_fused_formula() {
    let a = cf(&ARE, &AIM);
    let b = cf(&BRE, &BIM);
    let r = a.mul(&b);
    for k in 0..4 {
        let re = AIM[k].mul_add(-BIM[k], ARE[k] * BRE[k]);
        let im = AIM[k].mul_add(BRE[k], ARE[k] * BIM[k]);
        assert_eq!(r.re.lanes[k], re.to_bits());
        assert_eq!(r.im.lanes[k], im.to_bits());
    }
    // (1 + 2i) * (3 + 4i) = -5 + 10i, exactly representable.
    let p = cf(&[1.0], &[2.0]).mul(&cf(&[3.0], &[4.0]));
    assert_eq!(f64::from_bits(p.re.lanes[0]), -5.0);
    assert_eq!(f64::from_bits(p.im.lanes[0]), 10.0);
}

#[test]
fn test_div_matches_reciprocal_formula() {
    let a = cf(&ARE, &AIM);
    let b = cf(&BRE, &BIM);
    let r = a.div(&b);
    for k in 0..4 {
        let denom = 1.0 / BIM[k].mul_add(BIM[k], BRE[k] * BRE[k]);
        let re = AIM[k].mul_add(BIM[k], ARE[k] * BRE[k]) * denom;
        let im = ARE[k].mul_add(-BIM[k], AIM[k] * BRE[k]) * denom;
        assert_eq!(r.re.lanes[k], re.to_bits());
        assert_eq!(r.im.lanes[k], im.to_bits());
    }
}

#[test]
fn test_mul_add_matches_native_lanes() {
    let s = cf(&ARE, &AIM);
    let a = cf(&BRE, &BIM);
    let b = cf(&AIM, &BRE);
    let r = s.mul_add(&a, &b);
    for k in 0..4 {
        let re = AIM[k].mul_add(-BIM[k], ARE[k].mul_add(BRE[k], AIM[k]));
        let im = ARE[k].mul_add(BIM[k], AIM[k].mul_add(BRE[k], BRE[k]));
        assert_eq!(r.re.lanes[k], re.to_bits());
        assert_eq!(r.im.lanes[k], im.to_bits());
    }
}

#[test]
fn test_mul_add_fused_accuracy() {
    // Near-cancellation: (1 + 2^-27) * (1 - 2^-27) - 1 = -2^-54 exactly.
    // The separate multiply rounds the product to 1 (a tie, to even), so the
    // separate path returns 0; the fused path keeps the exact residual.
    let eps = (2.0f64).powi(-27);
    let exact = -(2.0f64).powi(-54);
    let s = cf(&[1.0 + eps], &[0.0]);
    let x = cf(&[1.0 - eps], &[0.0]);
    let b = cf(&[-1.0], &[0.0]);

    let fused = s.mul_add(&x, &b);
    let separate = s.mul(&x).add(&b);

    let f = f64::from_bits(fused.re.lanes[0]);
    let sep = f64::from_bits(separate.re.lanes[0]);
    assert_eq!(f, exact);
    assert_eq!(sep, 0.0);
    assert!((f - exact).abs() <= (sep - exact).abs());
    assert_eq!(f64::from_bits(fused.im.lanes[0]), 0.0);
}

#[test]
fn test_abssqr_magnitude_identity() {
    let re = [3.0, -1.25, 2.5e8, -7.0e-4];
    let im = [4.0, 0.5, -3.0e8, 9.0e-5];
    let a = cf(&re, &im);
    let r = a.abssqr();
    for k in 0..4 {
        // One scalar fused multiply-add per lane, independently.
        assert_eq!(r.lanes[k], im[k].mul_add(im[k], re[k] * re[k]).to_bits());
    }
    // 3^2 + 4^2 = 25 exactly, whichever way it is rounded.
    assert_eq!(f64::from_bits(r.lanes[0]), 25.0);
    assert_eq!(f64::from_bits(r.lanes[0]), re[0] * re[0] + im[0] * im[0]);
    let m = a.abs();
    assert_eq!(f64::from_bits(m.lanes[0]), 5.0);
}

#[test]
fn test_cselect_lane_independence() {
    let t = cf(&ARE, &AIM);
    let f = cf(&BRE, &BIM);

    let patterns: [[bool; 4]; 3] = [
        [true, true, true, true],
        [false, false, false, false],
        [true, false, true, false],
    ];
    for pat in patterns.iter() {
        let m = SimdMask { lanes: pat.to_vec() };
        let r = m.cselect(&t, &f);
        for k in 0..4 {
            if pat[k] {
                assert_eq!(r.re.lanes[k], t.re.lanes[k]);
                assert_eq!(r.im.lanes[k], t.im.lanes[k]);
            } else {
                assert_eq!(r.re.lanes[k], f.re.lanes[k]);
                assert_eq!(r.im.lanes[k], f.im.lanes[k]);
            }
        }
    }
}

#[test]
fn test_scalar_broadcast_consistency() {
    let a = cf(&ARE, &AIM);
    let s = vf(&BRE);

    let add = a.add_scalar(&s);
    let sub = a.sub_scalar(&s);
    let mul = a.mul_scalar(&s);
    let div = a.div_scalar(&s);
    for k in 0..4 {
        assert_eq!(add.re.lanes[k], (ARE[k] + BRE[k]).to_bits());
        assert_eq!(add.im.lanes[k], AIM[k].to_bits());
        assert_eq!(sub.re.lanes[k], (ARE[k] - BRE[k]).to_bits());
        assert_eq!(sub.im.lanes[k], AIM[k].to_bits());
        assert_eq!(mul.re.lanes[k], (ARE[k] * BRE[k]).to_bits());
        assert_eq!(mul.im.lanes[k], (AIM[k] * BRE[k]).to_bits());
        let r = 1.0 / BRE[k];
        assert_eq!(div.re.lanes[k], (ARE[k] * r).to_bits());
        assert_eq!(div.im.lanes[k], (AIM[k] * r).to_bits());
    }
}

#[test]
fn test_reverse_add_mul_delegate() {
    let c = cf(&ARE, &AIM);
    let s = vf(&BRE);
    let radd = s.add_complex(&c);
    let fadd = c.add_scalar(&s);
    assert_eq!(radd.re.lanes, fadd.re.lanes);
    assert_eq!(radd.im.lanes, fadd.im.lanes);
    let rmul = s.mul_complex(&c);
    let fmul = c.mul_scalar(&s);
    assert_eq!(rmul.re.lanes, fmul.re.lanes);
    assert_eq!(rmul.im.lanes, fmul.im.lanes);
}

#[test]
fn test_reverse_sub_identity() {
    // scalar - complex == -(complex - scalar), lane for lane.
    let c = cf(&ARE, &AIM);
    let s = vf(&BRE);
    let left = s.sub_complex(&c);
    let right = c.sub_scalar(&s).neg();
    assert_eq!(left.re.lanes, right.re.lanes);
    assert_eq!(left.im.lanes, right.im.lanes);
    for k in 0..4 {
        assert_eq!(f64::from_bits(left.re.lanes[k]), BRE[k] - ARE[k]);
        assert_eq!(f64::from_bits(left.im.lanes[k]), -AIM[k]);
    }
}

#[test]
fn test_reverse_div_identity() {
    // scalar / complex == (scalar * conjugate(complex)) / abssqr(complex).
    let c = cf(&ARE, &AIM);
    let s = vf(&BRE);
    let left = s.div_complex(&c);
    let conj = SimdComplex { re: c.re.clone(), im: c.im.neg() };
    let right = conj.mul_scalar(&s).div_scalar(&c.abssqr());
    for k in 0..4 {
        let l_re = f64::from_bits(left.re.lanes[k]);
        let l_im = f64::from_bits(left.im.lanes[k]);
        let r_re = f64::from_bits(right.re.lanes[k]);
        let r_im = f64::from_bits(right.im.lanes[k]);
        assert!(approx(l_re, r_re, 1.0e-12));
        assert!(approx(l_im, r_im, 1.0e-12));
    }
}

#[test]
fn test_add_sub_roundtrip() {
    let a = cf(&ARE, &AIM);
    let b = cf(&BRE, &BIM);
    let r = a.add(&b).sub(&b);
    for k in 0..4 {
        assert!(approx(f64::from_bits(r.re.lanes[k]), ARE[k], 1.0e-12));
        assert!(approx(f64::from_bits(r.im.lanes[k]), AIM[k], 1.0e-12));
    }
}

#[test]
fn test_mul_div_roundtrip() {
    let a = cf(&ARE, &AIM);
    let b = cf(&BRE, &BIM);
    let r = a.div(&b).mul(&b);
    for k in 0..4 {
        assert!(approx(f64::from_bits(r.re.lanes[k]), ARE[k], 1.0e-12));
        assert!(approx(f64::from_bits(r.im.lanes[k]), AIM[k], 1.0e-12));
    }
}

#[test]
fn test_exp_sanity_cases() {
    let n = 4;
    let ln2 = (2.0f64).ln();
    let z = SimdComplex::splat(ln2.to_bits(), 0.0f64.to_bits(), n);
    let e = z.exp();
    for k in 0..n {
        assert!(approx(f64::from_bits(e.re.lanes[k]), 2.0, 1.0e-12));
        assert!(f64::from_bits(e.im.lanes[k]).abs() <= 1.0e-12);
    }

    // Euler's identity: exp(i * pi) = -1.
    let pi = std::f64::consts::PI;
    let z = SimdComplex::splat(0.0f64.to_bits(), pi.to_bits(), n);
    let e = z.exp();
    for k in 0..n {
        assert!(approx(f64::from_bits(e.re.lanes[k]), -1.0, 1.0e-12));
        assert!(f64::from_bits(e.im.lanes[k]).abs() <= 1.0e-12);
    }
}

#[test]
fn test_assign_forms_match_operators() {
    let a = cf(&ARE, &AIM);
    let b = cf(&BRE, &BIM);
    let s = vf(&BIM);

    let mut m = cf(&ARE, &AIM);
    m.add_assign(&b);
    assert_eq!(m.re.lanes, a.add(&b).re.lanes);
    assert_eq!(m.im.lanes, a.add(&b).im.lanes);

    let mut m = cf(&ARE, &AIM);
    m.sub_assign(&b);
    assert_eq!(m.re.lanes, a.sub(&b).re.lanes);
    assert_eq!(m.im.lanes, a.sub(&b).im.lanes);

    let mut m = cf(&ARE, &AIM);
    m.mul_assign(&b);
    assert_eq!(m.re.lanes, a.mul(&b).re.lanes);
    assert_eq!(m.im.lanes, a.mul(&b).im.lanes);

    let mut m = cf(&ARE, &AIM);
    m.div_assign(&b);
    assert_eq!(m.re.lanes, a.div(&b).re.lanes);
    assert_eq!(m.im.lanes, a.div(&b).im.lanes);

    let mut m = cf(&ARE, &AIM);
    m.add_scalar_assign(&s);
    assert_eq!(m.re.lanes, a.add_scalar(&s).re.lanes);
    assert_eq!(m.im.lanes, a.add_scalar(&s).im.lanes);

    let mut m = cf(&ARE, &AIM);
    m.sub_scalar_assign(&s);
    assert_eq!(m.re.lanes, a.sub_scalar(&s).re.lanes);

    let mut m = cf(&ARE, &AIM);
    m.mul_scalar_assign(&s);
    assert_eq!(m.re.lanes, a.mul_scalar(&s).re.lanes);

    let mut m = cf(&ARE, &AIM);
    m.div_scalar_assign(&s);
    assert_eq!(m.re.lanes, a.div_scalar(&s).re.lanes);
}

#[test]
fn test_empty_vectors() {
    let a = cf(&[], &[]);
    let b = cf(&[], &[]);
    assert_eq!(a.add(&b).re.lanes.len(), 0);
    assert_eq!(a.mul(&b).im.lanes.len(), 0);
    assert_eq!(a.abssqr().lanes.len(), 0);
    assert_eq!(a.exp().re.lanes.len(), 0);
    let m = SimdMask { lanes: vec![] };
    let r = m.cselect(&a, &b);
    assert_eq!(r.re.lanes.len(), 0);
}

#[test]
fn test_special_values_propagate() {
    // Non-finite lanes flow through by IEEE-754 rules; nothing fails.
    let a = cf(&[f64::INFINITY, 3.0], &[f64::NAN, 4.0]);
    let b = cf(&[1.0, 0.0], &[2.0, 0.0]);

    let s = a.add(&b);
    assert!(f64::from_bits(s.re.lanes[0]).is_infinite());
    assert!(f64::from_bits(s.im.lanes[0]).is_nan());

    // Division by a zero-magnitude operand: the reciprocal of the squared
    // magnitude is infinite, and 0 * inf makes the components NaN.
    let q = a.div(&b);
    assert!(f64::from_bits(q.re.lanes[1]).is_nan());
    assert!(f64::from_bits(q.im.lanes[1]).is_nan());

    // abssqr overflows to infinity for huge lanes, and abs follows.
    let big = cf(&[1.0e300], &[1.0e300]);
    assert!(f64::from_bits(big.abssqr().lanes[0]).is_infinite());
    assert!(f64::from_bits(big.abs().lanes[0]).is_infinite());

    // exp(-inf + 0i) collapses to zero in both components.
    let e = cf(&[f64::NEG_INFINITY], &[0.0]).exp();
    assert_eq!(f64::from_bits(e.re.lanes[0]), 0.0);
    assert_eq!(f64::from_bits(e.im.lanes[0]), 0.0);
}

#[test]
fn test_one_bits_is_one() {
    assert_eq!(f64::from_bits(ONE_BITS), 1.0);
    let s = vf(&[4.0, -0.5, 8.0]);
    let r = s.recip();
    assert_eq!(f64::from_bits(r.lanes[0]), 0.25);
    assert_eq!(f64::from_bits(r.lanes[1]), -2.0);
    assert_eq!(f64::from_bits(r.lanes[2]), 0.125);
}

#[test]
fn test_sqrt_and_vector_ops() {
    let s = vf(&[9.0, 2.25, 1.0e4]);
    let r = s.sqrt();
    assert_eq!(f64::from_bits(r.lanes[0]), 3.0);
    assert_eq!(f64::from_bits(r.lanes[1]), 1.5);
    assert_eq!(f64::from_bits(r.lanes[2]), 100.0);

    let a = vf(&[1.5, -2.0]);
    let b = vf(&[0.25, 8.0]);
    let c = vf(&[-1.0, 3.0]);
    let m = a.mul_add(&b, &c);
    for k in 0..2 {
        let ax = f64::from_bits(a.lanes[k]);
        let bx = f64::from_bits(b.lanes[k]);
        let cx = f64::from_bits(c.lanes[k]);
        assert_eq!(m.lanes[k], ax.mul_add(bx, cx).to_bits());
    }
    let q = a.div(&b);
    assert_eq!(f64::from_bits(q.lanes[0]), 6.0);
    assert_eq!(f64::from_bits(q.lanes[1]), -0.25);
}
