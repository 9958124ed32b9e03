use crate::structure::{
    El, SAdd, SEuclidean, SFusedMulAdd, SMul, SRing, SSub, Structure, SuperStructure,
};
use vstd::prelude::*;
use vstd::string::StringExecFns;

verus! {

/// The integers modulo a fixed modulus, over a remainder-capable structure.
///
/// Values are those of the inner structure; every sum, difference and product
/// is reduced by the inner structure's Euclidean remainder against the modulus.
#[derive(Debug, Clone, PartialEq, Eq)]
pub struct Mod<S: SEuclidean> {
    pub mod_: S::V,
    pub inner: S,
}

impl<S: SEuclidean> Mod<S> {
    /// The model of the modulus.
    pub open spec fn modulus(&self) -> S::M {
        self.inner.model(&self.mod_)
    }

    /// The modulus is usable: nonzero, and `one` is not congruent to zero.
    pub open spec fn nondegenerate(inner: S, m: S::M) -> bool {
        &&& inner.minv(m)
        &&& m != inner.spec_zero()
        &&& inner.spec_rem(inner.spec_one(), m) != inner.spec_zero()
    }

    /// The structure of residues modulo the element `mod_`.
    pub fn new(mod_: El<'_, S>) -> (r: Self)
        requires
            mod_.wf(),
            Self::nondegenerate(*mod_.s, mod_.val()),
        ensures
            r.wf(),
            r.inner == *mod_.s,
            r.mod_ == mod_.v,
    {
        Mod { mod_: mod_.v, inner: mod_.s.clone_s() }
    }

    /// The structure of residues modulo `mod_`, or `None` where the modulus
    /// is degenerate (zero, or with `one` congruent to zero).
    pub fn checked_new(mod_: El<'_, S>) -> (r: Option<Self>)
        requires
            mod_.wf(),
        ensures
            r is Some <==> Self::nondegenerate(*mod_.s, mod_.val()),
            r matches Some(md) ==> md.wf() && md.inner == *mod_.s && md.mod_ == mod_.v,
    {
        let s = mod_.s;
        proof {
            s.lemma_inv_minv(&mod_.v);
        }
        let zero = s.zero();
        if s.eq_v(&mod_.v, &zero) {
            return None;
        }
        proof {
            s.lemma_rem_one(mod_.val());
        }
        let r1 = s.rem(s.one(), s.clone_v(&mod_.v));
        if s.eq_v(&r1, &zero) {
            None
        } else {
            Some(Self::new(mod_))
        }
    }
}


impl<S: SEuclidean> Structure for Mod<S> {
    type V = S::V;

    type M = S::M;

    open spec fn wf(&self) -> bool {
        &&& self.inner.wf()
        &&& self.inner.inv(&self.mod_)
        &&& Self::nondegenerate(self.inner, self.modulus())
    }

    open spec fn inv(&self, v: &S::V) -> bool {
        self.inner.inv(v)
    }

    open spec fn model(&self, v: &S::V) -> S::M {
        self.inner.model(v)
    }

    /// A residue in canonical form: its own remainder.
    open spec fn minv(&self, m: S::M) -> bool {
        self.inner.minv(m) && self.inner.spec_rem(m, self.modulus()) == m
    }

    open spec fn spec_fmt_v(&self, m: S::M) -> Seq<char> {
        self.inner.spec_fmt_v(m)
    }

    /// `mod <modulus>, <inner>`.
    open spec fn spec_name(&self) -> Seq<char> {
        seq!['m', 'o', 'd', ' '] + self.inner.spec_fmt_v(self.modulus()) + seq![',', ' ']
            + self.inner.spec_name()
    }

    fn name(&self) -> (r: String) {
        proof {
            reveal_strlit("mod ");
            reveal_strlit(", ");
        }
        let mut r = String::from_str("mod ");
        r.append(self.inner.fmt_v(&self.mod_).as_str());
        r.append(", ");
        r.append(self.inner.name().as_str());
        r
    }

    fn fmt_v(&self, v: &S::V) -> (r: String) {
        self.inner.fmt_v(v)
    }

    fn clone_v(&self, v: &S::V) -> (r: S::V) {
        self.inner.clone_v(v)
    }

    fn clone_s(&self) -> (r: Self) {
        Mod { mod_: self.inner.clone_exact(&self.mod_), inner: self.inner.clone_s() }
    }

    fn eq_v(&self, a: &S::V, b: &S::V) -> (r: bool) {
        self.inner.eq_v(a, b)
    }
}

impl<S: SEuclidean> SuperStructure for Mod<S> {
    type Inner = S;

    open spec fn spec_inner(&self) -> S {
        self.inner
    }

    /// A value is carried into the residues unchanged.
    open spec fn spec_lift(&self, m: S::M) -> S::M {
        m
    }

    proof fn lemma_inner_wf(&self) {
    }

    fn inner(&self) -> (r: &S) {
        &self.inner
    }

    fn lifted_from<'a>(&'a self, e: El<'a, S>) -> (r: El<'a, Self>) {
        El { v: e.v, s: self }
    }
}

impl<S: SEuclidean> Mod<S> {
    /// Reduces a value of the inner structure against the modulus.
    fn reduce(&self, v: S::V) -> (r: S::V)
        requires
            self.wf(),
            self.inner.inv(&v),
            self.inner.rem_ok(self.inner.model(&v), self.modulus()),
        ensures
            self.inner.inv(&r),
            self.inner.model(&r) == self.inner.spec_rem(self.inner.model(&v), self.modulus()),
    {
        self.inner.rem(v, self.inner.clone_v(&self.mod_))
    }
}

impl<S: SEuclidean> SAdd for Mod<S> {
    open spec fn spec_zero(&self) -> S::M {
        self.inner.spec_zero()
    }

    open spec fn spec_add(&self, a: S::M, b: S::M) -> S::M {
        self.inner.spec_rem(self.inner.spec_add(a, b), self.modulus())
    }

    open spec fn add_ok(&self, a: S::M, b: S::M) -> bool {
        self.inner.add_ok(a, b) && self.inner.rem_ok(self.inner.spec_add(a, b), self.modulus())
    }

    fn zero(&self) -> (r: S::V) {
        self.inner.zero()
    }

    fn add(&self, lhs: S::V, rhs: S::V) -> (r: S::V) {
        self.reduce(self.inner.add(lhs, rhs))
    }

    proof fn lemma_zero(&self) {
        self.inner.lemma_zero();
        self.inner.lemma_rem_zero(self.modulus());
    }

    proof fn lemma_add_closed(&self, a: S::M, b: S::M) {
        self.inner.lemma_rem_idem(self.inner.spec_add(a, b), self.modulus());
    }

    proof fn lemma_add_zero(&self, a: S::M) {
        self.inner.lemma_add_zero(a);
        self.inner.lemma_rem_idem(a, self.modulus());
        self.inner.lemma_rem_ok(a, self.modulus());
    }

    proof fn lemma_add_comm(&self, a: S::M, b: S::M) {
        self.inner.lemma_add_comm(a, b);
    }

    proof fn lemma_add_assoc(&self, a: S::M, b: S::M, c: S::M) {
        let s = self.inner;
        let m = self.modulus();
        s.lemma_rem_add(s.spec_add(a, b), c, m);
        s.lemma_add_assoc(a, b, c);
        s.lemma_add_comm(a, s.spec_rem(s.spec_add(b, c), m));
        s.lemma_rem_add(s.spec_add(b, c), a, m);
        s.lemma_add_comm(s.spec_add(b, c), a);
    }
}

impl<S: SEuclidean> SSub for Mod<S> {
    /// Negation is `modulus - a`, reduced.
    open spec fn spec_neg(&self, a: S::M) -> S::M {
        self.inner.spec_rem(self.inner.spec_sub(self.modulus(), a), self.modulus())
    }

    open spec fn spec_sub(&self, a: S::M, b: S::M) -> S::M {
        self.inner.spec_rem(self.inner.spec_sub(a, b), self.modulus())
    }

    open spec fn neg_ok(&self, a: S::M) -> bool {
        &&& self.inner.sub_ok(self.modulus(), a)
        &&& self.inner.rem_ok(self.inner.spec_sub(self.modulus(), a), self.modulus())
    }

    open spec fn sub_ok(&self, a: S::M, b: S::M) -> bool {
        self.inner.sub_ok(a, b) && self.inner.rem_ok(self.inner.spec_sub(a, b), self.modulus())
    }

    fn negate(&self, v: &mut S::V) {
        let x = self.inner.clone_v(v);
        *v = self.reduce(self.inner.sub(self.inner.clone_v(&self.mod_), x));
    }

    fn sub(&self, lhs: S::V, rhs: S::V) -> (r: S::V) {
        self.reduce(self.inner.sub(lhs, rhs))
    }

    proof fn lemma_sub_zero(&self, a: S::M) {
        self.inner.lemma_sub_zero(a);
        self.inner.lemma_rem_ok(a, self.modulus());
    }

    proof fn lemma_neg_zero(&self) {
        let m = self.modulus();
        self.inner.lemma_sub_zero(m);
        self.inner.lemma_rem_ok(m, m);
        self.inner.lemma_rem_self(m);
    }

    proof fn lemma_sub_is_add_neg(&self, a: S::M, b: S::M) {
        let s = self.inner;
        let m = self.modulus();
        let nb = s.spec_sub(m, b);
        s.lemma_rem_idem(nb, m);
        s.lemma_add_comm(a, s.spec_rem(nb, m));
        s.lemma_rem_add(nb, a, m);
        s.lemma_add_comm(nb, a);
        s.lemma_rem_sub(a, b, m);
    }
}

impl<S: SEuclidean> SMul for Mod<S> {
    open spec fn spec_one(&self) -> S::M {
        self.inner.spec_one()
    }

    open spec fn spec_mul(&self, a: S::M, b: S::M) -> S::M {
        self.inner.spec_rem(self.inner.spec_mul(a, b), self.modulus())
    }

    open spec fn mul_ok(&self, a: S::M, b: S::M) -> bool {
        self.inner.mul_ok(a, b) && self.inner.rem_ok(self.inner.spec_mul(a, b), self.modulus())
    }

    fn one(&self) -> (r: S::V) {
        self.inner.one()
    }

    fn mul(&self, lhs: S::V, rhs: S::V) -> (r: S::V) {
        self.reduce(self.inner.mul(lhs, rhs))
    }

    proof fn lemma_one(&self) {
        self.inner.lemma_one();
        self.inner.lemma_rem_one(self.modulus());
    }

    proof fn lemma_mul_closed(&self, a: S::M, b: S::M) {
        self.inner.lemma_rem_idem(self.inner.spec_mul(a, b), self.modulus());
    }

    proof fn lemma_mul_one(&self, a: S::M) {
        self.inner.lemma_mul_one(a);
        self.inner.lemma_rem_idem(a, self.modulus());
        self.inner.lemma_rem_ok(a, self.modulus());
    }
}

impl<S: SEuclidean> SFusedMulAdd for Mod<S> {
    open spec fn fma_ok(&self, acc: S::M, a: S::M, b: S::M) -> bool {
        &&& self.inner.fma_ok(acc, a, b)
        &&& self.inner.rem_ok(
            self.inner.spec_add(acc, self.inner.spec_mul(a, b)),
            self.modulus(),
        )
    }

    /// The inner structure's fused step, then one reduction.
    fn fused_mul_add_ref(&self, acc: &mut S::V, lhs: &S::V, rhs: &S::V) {
        self.inner.fused_mul_add_ref(acc, lhs, rhs);
        let x = self.inner.clone_v(acc);
        *acc = self.reduce(x);
        proof {
            let s = self.inner;
            let m = self.modulus();
            let ab = s.spec_mul(s.model(lhs), s.model(rhs));
            s.lemma_add_comm(s.model(old(acc)), s.spec_rem(ab, m));
            s.lemma_rem_add(ab, s.model(old(acc)), m);
            s.lemma_add_comm(ab, s.model(old(acc)));
        }
    }

    proof fn lemma_fma_zero(&self, a: S::M, b: S::M) {
        let s = self.inner;
        let m = self.modulus();
        let ab = s.spec_mul(a, b);
        s.lemma_zero();
        s.lemma_mul_closed(a, b);
        s.lemma_fma_zero(a, b);
        s.lemma_add_comm(s.spec_zero(), ab);
        s.lemma_add_zero(ab);
        s.lemma_rem_ok(ab, m);
        s.lemma_rem_idem(ab, m);
        s.lemma_add_comm(s.spec_zero(), s.spec_rem(ab, m));
        s.lemma_add_zero(s.spec_rem(ab, m));
    }

    proof fn lemma_fma_closed(&self, acc: S::M, a: S::M, b: S::M) {
        let s = self.inner;
        s.lemma_rem_idem(s.spec_add(acc, s.spec_rem(s.spec_mul(a, b), self.modulus())), self.modulus());
    }
}

impl<S: SEuclidean> SRing for Mod<S> {
    proof fn lemma_mul_zero(&self, a: S::M) {
        let s = self.inner;
        s.lemma_zero();
        s.lemma_mul_zero(a);
        s.lemma_rem_ok(s.spec_zero(), self.modulus());
        s.lemma_rem_zero(self.modulus());
    }

    proof fn lemma_mul_comm(&self, a: S::M, b: S::M) {
        self.inner.lemma_mul_comm(a, b);
    }

    proof fn lemma_mul_assoc(&self, a: S::M, b: S::M, c: S::M) {
        let s = self.inner;
        let m = self.modulus();
        s.lemma_rem_mul(s.spec_mul(a, b), c, m);
        s.lemma_mul_assoc(a, b, c);
        s.lemma_mul_comm(a, s.spec_rem(s.spec_mul(b, c), m));
        s.lemma_rem_mul(s.spec_mul(b, c), a, m);
        s.lemma_mul_comm(s.spec_mul(b, c), a);
    }
}

} // verus!
