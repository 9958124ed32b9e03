use mathlib::{
    BigInt, DensePolynomial, Int, Mod, SAdd, SFusedMulAdd, SMul, SRem, SSub, Structure,
    Super2Structure, SuperStructure, I, U,
};

fn big(x: i64) -> BigInt {
    BigInt::from_i64(x)
}

fn text_i32(v: i32) -> String {
    let s: I<32> = I;
    s.fmt_v(&v)
}

#[test]
fn i32_identities_and_laws_on_samples() {
    let s: I<32> = I;
    for &x in &[-7i32, 0, 1, 5, 1000] {
        assert_eq!(s.add(x, s.zero()), x);
        assert_eq!(s.mul(x, s.one()), x);
        for &y in &[-3i32, 2, 11] {
            assert_eq!(s.add(x, y), s.add(y, x));
            assert_eq!(s.mul(x, y), s.mul(y, x));
            for &z in &[-1i32, 4] {
                assert_eq!(s.add(s.add(x, y), z), s.add(x, s.add(y, z)));
                assert_eq!(s.mul(s.mul(x, y), z), s.mul(x, s.mul(y, z)));
            }
        }
    }
}

#[test]
fn int_identities_and_laws_on_samples() {
    let s = Int;
    let xs = [-7i64, 0, 1, 123456789];
    for &x in &xs {
        assert_eq!(s.add(big(x), s.zero()), big(x));
        assert_eq!(s.mul(big(x), s.one()), big(x));
        for &y in &xs {
            assert_eq!(s.add(big(x), big(y)), s.add(big(y), big(x)));
            assert_eq!(s.mul(big(x), big(y)), s.mul(big(y), big(x)));
            let l = s.mul(s.mul(big(x), big(y)), big(3));
            let r = s.mul(big(x), s.mul(big(y), big(3)));
            assert_eq!(l, r);
        }
    }
}

#[test]
fn mod_identities_and_laws_on_samples() {
    let m = Mod::new(I::<32>.el(13));
    for x in 0..13i32 {
        assert_eq!(m.add(x, m.zero()), x);
        assert_eq!(m.mul(x, m.one()), x);
        for y in [0i32, 5, 12] {
            assert_eq!(m.add(x, y), m.add(y, x));
            assert_eq!(m.mul(x, y), m.mul(y, x));
            assert_eq!(m.add(m.add(x, y), 7), m.add(x, m.add(y, 7)));
            assert_eq!(m.mul(m.mul(x, y), 7), m.mul(x, m.mul(y, 7)));
        }
    }
}

#[test]
fn rem_is_euclidean_for_machine_integers() {
    let s: I<32> = I;
    assert_eq!(s.rem(-1, 13), 12);
    assert_eq!(s.rem(-1, -13), 12);
    assert_eq!(s.rem(27, 13), 1);
    assert_eq!(s.rem(-27, 13), 12);
    assert_eq!(s.rem(0, 13), 0);
    for a in -40i32..40 {
        for m in [-7i32, -1, 1, 3, 13] {
            let r = s.rem(a, m);
            assert!(0 <= r && r < m.abs());
        }
    }
}

#[test]
fn rem_is_euclidean_for_big_integers() {
    let s = Int;
    assert_eq!(s.rem(big(-1), big(13)), big(12));
    assert_eq!(s.rem(big(-1), big(-13)), big(12));
    assert_eq!(s.rem(big(100), big(7)), big(2));
    assert_eq!(s.rem(big(-100), big(7)), big(5));
}

#[test]
fn modular_square_and_difference() {
    let fixed_int: I<32> = I;
    let mod13 = Mod::new(fixed_int.el(13));
    let a = mod13.el1(4);
    let sq = a.copy().mul(a.copy());
    assert_eq!(sq.v, 3);
    assert_eq!(sq.to_text(), "3 (mod 13, i32)");
    let d = a.copy().sub(a.copy());
    assert_eq!(d.v, 0);
    assert_eq!(d.to_text(), "0 (mod 13, i32)");
}

#[test]
fn modular_negation_stays_reduced() {
    let m = Mod::new(I::<32>.el(13));
    let mut v = 4i32;
    m.negate(&mut v);
    assert_eq!(v, 9);
    let mut z = 0i32;
    m.negate(&mut z);
    assert_eq!(z, 0);
    assert_eq!(m.sub(3, 5), 11);
}

#[test]
fn modular_fused_multiply_add_reduces() {
    let m = Mod::new(Int.el(big(13)));
    let mut acc = big(12);
    m.fused_mul_add_ref(&mut acc, &big(5), &big(6));
    assert_eq!(acc, big(3));
}

#[test]
fn polynomial_squaring_rounds_over_int() {
    let xpoly = DensePolynomial::new_symb("x", &Int);
    let three = xpoly.el1(big(3));
    let mut p = xpoly.symb();
    let expected = [
        "x",
        "x^2 + 6x + 9",
        "x^4 + 12x^3 + 60x^2 + 144x + 144",
    ];
    for e in expected.iter() {
        assert_eq!(xpoly.fmt_v(&p.v), *e);
        p.add_assign(three.copy());
        let q = p.copy().extend_lifetime(&xpoly);
        p.mul_assign(q);
    }
    assert_eq!(p.v.len(), 9);
    assert_eq!(p.v[0], big(21609));
}

#[test]
fn polynomial_first_round_is_square_of_x_plus_three() {
    let xpoly = DensePolynomial::new_symb("x", &Int);
    let mut p = xpoly.symb();
    p.add_assign(xpoly.el1(big(3)));
    let q = p.copy();
    p.mul_assign(q);
    assert_eq!(p.v, vec![big(9), big(6), big(1)]);
    assert_eq!(p.to_text(), "x^2 + 6x + 9 (poly x, int)");
}

#[test]
fn polynomial_over_residues() {
    let mod13 = Mod::new(Int.el(big(13)));
    let xpolymod = DensePolynomial::new_symb("x", &mod13);
    let three = xpolymod.el2(big(3));
    let mut q = xpolymod.symb();
    q.add_assign(three.copy());
    let c = q.copy();
    q.mul_assign(c);
    assert_eq!(q.v, vec![big(9), big(6), big(1)]);
    q.add_assign(three.copy());
    let c = q.copy();
    q.mul_assign(c);
    // (x^2 + 6x + 12)^2 = x^4 + 12x^3 + 60x^2 + 144x + 144, reduced mod 13
    assert_eq!(q.v, vec![big(1), big(1), big(8), big(12), big(1)]);
    assert_eq!(xpolymod.fmt_v(&q.v), "x^4 + 12x^3 + 8x^2 + x + 1");
}

#[test]
fn lifting_reads_back_the_inner_value() {
    let xpoly = DensePolynomial::new_symb("y", &Int);
    let e = Int.el(big(-42)).lift(&xpoly);
    assert_eq!(e.v.len(), 1);
    assert_eq!(e.v[0], big(-42));
    let m = Mod::new(I::<32>.el(7));
    let r = I::<32>.el(5).lift(&m);
    assert_eq!(r.v, 5);
}

#[test]
fn lifting_through_two_and_three_levels() {
    let mod7 = Mod::new(I::<32>.el(7));
    let p = DensePolynomial::new_symb("t", &mod7);
    let e = I::<32>.el(3).lift2(&p);
    assert_eq!(e.v, vec![3]);
    let pp = DensePolynomial::new_symb("u", &p);
    let f = I::<32>.el(3).lift3(&pp);
    assert_eq!(f.v, vec![vec![3]]);
    let g = pp.el2(3);
    assert_eq!(g.v, vec![vec![3]]);
}

#[test]
fn symbol_is_degree_one_monomial() {
    let p = DensePolynomial::new_symb("x", &I::<32>);
    let x = p.symb();
    assert_eq!(x.v, vec![0, 1]);
    assert_eq!(x.to_text(), "x (poly x, i32)");
}

#[test]
fn polynomial_sum_pads_the_shorter_operand() {
    let p = DensePolynomial::new_symb("x", &I::<32>);
    assert_eq!(p.add(vec![1, 2], vec![10, 20, 30, 40]), vec![11, 22, 30, 40]);
    assert_eq!(p.add(vec![1, 2, 3], vec![10]), vec![11, 2, 3]);
    assert_eq!(p.add(vec![], vec![5]), vec![5]);
}

#[test]
fn polynomial_difference_negates_the_longer_right_tail() {
    let p = DensePolynomial::new_symb("x", &I::<32>);
    assert_eq!(p.sub(vec![1], vec![0, 1]), vec![1, -1]);
    assert_eq!(p.sub(vec![5, 6, 7], vec![1]), vec![4, 6, 7]);
    assert_eq!(p.fmt_v(&p.sub(vec![1], vec![0, 1])), "-1x + 1");
}

#[test]
fn polynomial_product_has_n_plus_m_minus_one_coefficients() {
    let p = DensePolynomial::new_symb("x", &I::<32>);
    assert_eq!(p.mul(vec![1, 1], vec![1, 1]), vec![1, 2, 1]);
    assert_eq!(p.mul(vec![1, 2, 3], vec![4, 5]), vec![4, 13, 22, 15]);
    assert_eq!(p.mul(vec![4, 5], vec![1, 2, 3]), vec![4, 13, 22, 15]);
    assert_eq!(p.mul(vec![], vec![1, 2]), vec![0]);
    assert_eq!(p.mul(vec![3, 4, 5], vec![]), vec![0, 0]);
    assert_eq!(p.mul(vec![], vec![]), Vec::<i32>::new());
    assert_eq!(p.mul(vec![7], vec![1, 2]), vec![7, 14]);
}

fn naive_product(a: &[i32], b: &[i32]) -> Vec<i32> {
    if a.is_empty() && b.is_empty() {
        return vec![];
    }
    let mut r = vec![0; a.len() + b.len() - 1];
    for i in 0..a.len() {
        for j in 0..b.len() {
            r[i + j] += a[i] * b[j];
        }
    }
    r
}

fn naive_sum(a: &[i32], b: &[i32], sign: i32) -> Vec<i32> {
    let n = a.len().max(b.len());
    (0..n)
        .map(|i| a.get(i).copied().unwrap_or(0) + sign * b.get(i).copied().unwrap_or(0))
        .collect()
}

fn with_spare(v: &[i32], spare: usize) -> Vec<i32> {
    let mut r = Vec::with_capacity(v.len() + spare);
    r.extend_from_slice(v);
    r
}

#[test]
fn buffer_reuse_does_not_change_results() {
    let p = DensePolynomial::new_symb("x", &I::<32>);
    let mut seed: u32 = 12345;
    let mut next = move || {
        seed = seed.wrapping_mul(1103515245).wrapping_add(12345);
        ((seed >> 16) % 19) as i32 - 9
    };
    for round in 0..200usize {
        let la = round % 5;
        let lb = (round / 5) % 6;
        let a: Vec<i32> = (0..la).map(|_| next()).collect();
        let b: Vec<i32> = (0..lb).map(|_| next()).collect();
        for (sa, sb) in [(0usize, 16usize), (16, 0), (3, 3)] {
            assert_eq!(p.add(with_spare(&a, sa), with_spare(&b, sb)), naive_sum(&a, &b, 1));
            assert_eq!(p.sub(with_spare(&a, sa), with_spare(&b, sb)), naive_sum(&a, &b, -1));
            assert_eq!(p.mul(with_spare(&a, sa), with_spare(&b, sb)), naive_product(&a, &b));
        }
    }
}

#[test]
fn degenerate_modulus_is_rejected() {
    assert!(Mod::checked_new(I::<32>.el(1)).is_none());
    assert!(Mod::checked_new(I::<32>.el(-1)).is_none());
    assert!(Mod::checked_new(I::<32>.el(0)).is_none());
    assert!(Mod::checked_new(Int.el(big(1))).is_none());
    assert!(Mod::checked_new(I::<32>.el(13)).is_some());
    assert!(Mod::checked_new(I::<32>.el(-13)).is_some());
}

#[test]
fn big_integer_arithmetic_goes_through_rug() {
    let s = Int;
    assert_eq!(s.add(big(2), big(3)), big(5));
    assert_eq!(s.sub(big(2), big(3)), big(-1));
    let mut n = big(17);
    s.negate(&mut n);
    assert_eq!(n, big(-17));
    let two64 = s.mul(big(4294967296), big(4294967296));
    assert_eq!(s.fmt_v(&two64), "18446744073709551616");
    let sq = s.mul(s.clone_v(&two64), two64);
    assert_eq!(s.fmt_v(&sq), "340282366920938463463374607431768211456");
    let mut acc = big(1);
    s.fused_mul_add_ref(&mut acc, &big(6), &big(7));
    assert_eq!(acc, big(43));
    assert_eq!(big(-305).digits, "-305");
}

#[test]
fn element_display_shows_value_and_structure() {
    assert_eq!(Int.el(big(12345)).to_text(), "12345 (int)");
    assert_eq!(text_i32(-8), "-8");
    let m = Mod::new(Int.el(big(13)));
    assert_eq!(m.name(), "mod 13, int");
    let p = DensePolynomial::new_symb("x", &m);
    assert_eq!(p.name(), "poly x, mod 13, int");
}

#[test]
fn polynomial_display_skips_zeros_and_unit_coefficients() {
    let p = DensePolynomial::new_symb("z", &I::<32>);
    assert_eq!(p.fmt_v(&vec![0, 0, 1]), "z^2");
    assert_eq!(p.fmt_v(&vec![1, 0, 0]), "1");
    assert_eq!(p.fmt_v(&vec![0, 2, 0, 1, 0]), "z^3 + 2z");
    assert_eq!(p.fmt_v(&vec![]), "");
    assert_eq!(p.fmt_v(&vec![0, 0, 0, 0, 0, 0, 0, 0, 0, 0, 0, 1]), "z^11");
}

#[test]
fn element_operators_and_assignments() {
    let s: I<32> = I;
    let a = s.el(7);
    let b = s.el(3);
    assert_eq!(a.copy().add(b.copy()).v, 10);
    assert_eq!(a.copy().sub(b.copy()).v, 4);
    assert_eq!(a.copy().mul(b.copy()).v, 21);
    assert_eq!(s.el(-7).rem(b.copy()).v, 2);
    let mut c = a.copy();
    c.add_assign(b.copy());
    c.sub_assign(s.el(1));
    c.mul_assign(s.el(2));
    c.rem_assign(s.el(5));
    assert_eq!(c.v, 3);
}

#[test]
fn polynomial_equality_by_value() {
    let p = DensePolynomial::new_symb("x", &Int);
    assert!(p.eq_v(&vec![big(1), big(2)], &vec![big(1), big(2)]));
    assert!(!p.eq_v(&vec![big(1), big(2)], &vec![big(1), big(3)]));
    assert!(!p.eq_v(&vec![big(1)], &vec![big(1), big(0)]));
}

#[test]
fn unsigned_machine_integers() {
    let s: U<32> = U;
    assert_eq!(s.add(3, 4), 7);
    assert_eq!(s.sub(9, 4), 5);
    assert_eq!(s.mul(6, 7), 42);
    assert_eq!(s.rem(45, 7), 3);
    let mut z = 0u32;
    s.negate(&mut z);
    assert_eq!(z, 0);
    assert_eq!(s.fmt_v(&4000000000), "4000000000");
    let m = Mod::new(s.el(10));
    let mut v = 3u32;
    m.negate(&mut v);
    assert_eq!(v, 7);
    assert_eq!(m.mul(7, 8), 6);
    assert_eq!(m.name(), "mod 10, u32");
}

#[test]
fn wide_machine_integers() {
    let s: I<64> = I;
    assert_eq!(s.rem(-1, 13), 12);
    assert_eq!(s.mul(3_000_000_000, 3), 9_000_000_000);
    assert_eq!(s.fmt_v(&i64::MIN), "-9223372036854775808");
    let u: U<64> = U;
    assert_eq!(u.fmt_v(&u64::MAX), "18446744073709551615");
    assert_eq!(u.rem(100, 7), 2);
    let m = Mod::new(s.el(1_000_000_007));
    assert_eq!(m.mul(1_000_000_006, 1_000_000_006), 1);
}

#[test]
fn polynomial_fused_multiply_add_grows_the_accumulator() {
    let p = DensePolynomial::new_symb("x", &I::<32>);
    let mut acc: Vec<i32> = vec![];
    p.fused_mul_add_ref(&mut acc, &vec![], &vec![1, 2]);
    assert_eq!(acc, vec![0]);
    let mut acc = vec![7];
    p.fused_mul_add_ref(&mut acc, &vec![1, 1], &vec![1, 1]);
    assert_eq!(acc, vec![8, 2, 1]);
    let mut acc = vec![1, 2, 3, 4];
    p.fused_mul_add_ref(&mut acc, &vec![2], &vec![5]);
    assert_eq!(acc, vec![11, 2, 3, 4]);
}

#[test]
fn polynomial_one_is_an_identity_on_both_sides() {
    let m = Mod::new(I::<32>.el(13));
    let p = DensePolynomial::new_symb("x", &m);
    let x = vec![3, 0, 12, 5];
    assert_eq!(p.mul(p.one(), x.clone()), x);
    assert_eq!(p.mul(x.clone(), p.one()), x);
}
