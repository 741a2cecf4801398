//! The quadratic extension of the base field: elements `c0 + c1*i` with
//! `i^2 = -1`, both coefficients reduced base-field elements.
use vstd::prelude::*;
use crate::fp::{
    fp_add_v, fp_inv_v, fp_invertible, fp_modulus, fp_mul_v, fp_neg_v, fp_red, fp_sub_v,
    lemma_fp_ops_red, lemma_fp_red_left, lemma_fp_red_small, Fp,
};

verus! {

/// Mathematical model of a quadratic-extension element.
pub ghost struct Fp2V {
    pub c0: nat,
    pub c1: nat,
}

/// Both coefficients are reduced.
pub open spec fn fp2_wf_v(a: Fp2V) -> bool {
    a.c0 < fp_modulus() && a.c1 < fp_modulus()
}

pub open spec fn fp2_zero_v() -> Fp2V {
    Fp2V { c0: 0, c1: 0 }
}

pub open spec fn fp2_one_v() -> Fp2V {
    Fp2V { c0: 1, c1: 0 }
}

pub open spec fn fp2_add_v(a: Fp2V, b: Fp2V) -> Fp2V {
    Fp2V { c0: fp_add_v(a.c0, b.c0), c1: fp_add_v(a.c1, b.c1) }
}

pub open spec fn fp2_sub_v(a: Fp2V, b: Fp2V) -> Fp2V {
    Fp2V { c0: fp_sub_v(a.c0, b.c0), c1: fp_sub_v(a.c1, b.c1) }
}

pub open spec fn fp2_neg_v(a: Fp2V) -> Fp2V {
    Fp2V { c0: fp_neg_v(a.c0), c1: fp_neg_v(a.c1) }
}

/// Schoolbook product under `i^2 = -1`:
/// `(a0 + a1 i)(b0 + b1 i) = (a0 b0 - a1 b1) + (a0 b1 + a1 b0) i`.
pub open spec fn fp2_mul_v(a: Fp2V, b: Fp2V) -> Fp2V {
    Fp2V {
        c0: fp_sub_v(fp_mul_v(a.c0, b.c0), fp_mul_v(a.c1, b.c1)),
        c1: fp_add_v(fp_mul_v(a.c0, b.c1), fp_mul_v(a.c1, b.c0)),
    }
}

pub open spec fn fp2_conj_v(a: Fp2V) -> Fp2V {
    Fp2V { c0: a.c0, c1: fp_neg_v(a.c1) }
}

/// The norm `a0^2 + a1^2` down to the base field.
pub open spec fn fp2_norm_v(a: Fp2V) -> nat {
    fp_add_v(fp_mul_v(a.c0, a.c0), fp_mul_v(a.c1, a.c1))
}

/// Whether the element has an inverse computed through its norm.
pub open spec fn fp2_invertible_v(a: Fp2V) -> bool {
    fp_invertible(fp2_norm_v(a))
}

/// The inverse `conj(a) / norm(a)`, with a zero fallback where the norm
/// has no base-field inverse.
pub open spec fn fp2_inv_v(a: Fp2V) -> Fp2V {
    Fp2V {
        c0: fp_mul_v(a.c0, fp_inv_v(fp2_norm_v(a))),
        c1: fp_mul_v(fp_neg_v(a.c1), fp_inv_v(fp2_norm_v(a))),
    }
}

/// Scaling by the base-field element `k`.
pub open spec fn fp2_scale_v(a: Fp2V, k: nat) -> Fp2V {
    Fp2V { c0: fp_mul_v(a.c0, k), c1: fp_mul_v(a.c1, k) }
}

// ------------------------------------------------------------------
// Field laws of the quadratic layer.
// ------------------------------------------------------------------

/// Addition is commutative.
pub proof fn lemma_fp2_add_comm(a: Fp2V, b: Fp2V)
    ensures
        fp2_add_v(a, b) == fp2_add_v(b, a),
{
}

/// Addition is associative.
pub proof fn lemma_fp2_add_assoc(a: Fp2V, b: Fp2V, c: Fp2V)
    ensures
        fp2_add_v(fp2_add_v(a, b), c) == fp2_add_v(a, fp2_add_v(b, c)),
{
    crate::fp::lemma_fp_add_assoc(a.c0, b.c0, c.c0);
    crate::fp::lemma_fp_add_assoc(a.c1, b.c1, c.c1);
}

/// Zero is the additive identity.
pub proof fn lemma_fp2_add_zero(a: Fp2V)
    requires
        fp2_wf_v(a),
    ensures
        fp2_add_v(a, fp2_zero_v()) == a,
{
    crate::fp::lemma_fp_add_zero(a.c0);
    crate::fp::lemma_fp_add_zero(a.c1);
}

/// Multiplication is commutative.
pub proof fn lemma_fp2_mul_comm(a: Fp2V, b: Fp2V)
    ensures
        fp2_mul_v(a, b) == fp2_mul_v(b, a),
{
    let (a0, a1) = (a.c0 as int, a.c1 as int);
    let (b0, b1) = (b.c0 as int, b.c1 as int);
    lemma_fp_ops_red(a0 * b0, a1 * b1);
    lemma_fp_ops_red(b0 * a0, b1 * a1);
    lemma_fp_ops_red(a0 * b1, a1 * b0);
    lemma_fp_ops_red(b0 * a1, b1 * a0);
}

/// One is the multiplicative identity on reduced elements.
pub proof fn lemma_fp2_mul_one(a: Fp2V)
    requires
        fp2_wf_v(a),
    ensures
        fp2_mul_v(a, fp2_one_v()) == a,
{
    crate::fp::lemma_fp_mul_one(a.c0);
    crate::fp::lemma_fp_mul_one(a.c1);
    assert(fp_mul_v(a.c0, 0) == 0 && fp_mul_v(a.c1, 0) == 0) by {
        lemma_fp_red_small(0);
    }
    crate::fp::lemma_fp_add_zero(a.c1);
    lemma_fp_ops_red(a.c0 as int, 0);
    lemma_fp_red_small(a.c0);
}

/// Multiplication is associative on reduced elements.
#[verifier::rlimit(50)]
pub proof fn lemma_fp2_mul_assoc(a: Fp2V, b: Fp2V, c: Fp2V)
    requires
        fp2_wf_v(a),
        fp2_wf_v(b),
        fp2_wf_v(c),
    ensures
        fp2_mul_v(fp2_mul_v(a, b), c) == fp2_mul_v(a, fp2_mul_v(b, c)),
{
    let (a0, a1) = (a.c0 as int, a.c1 as int);
    let (b0, b1) = (b.c0 as int, b.c1 as int);
    let (c0, c1) = (c.c0 as int, c.c1 as int);
    lemma_fp2_red_form(a, b);
    lemma_fp2_red_form(b, c);
    lemma_fp_red_small(a.c0);
    lemma_fp_red_small(a.c1);
    lemma_fp_red_small(c.c0);
    lemma_fp_red_small(c.c1);
    lemma_fp2_mul_red(a0 * b0 - a1 * b1, a0 * b1 + a1 * b0, c0, c1);
    lemma_fp2_mul_red(a0, a1, b0 * c0 - b1 * c1, b0 * c1 + b1 * c0);
    assert((a0 * b0 - a1 * b1) * c0 == a0 * b0 * c0 - a1 * b1 * c0) by (nonlinear_arith);
    assert((a0 * b1 + a1 * b0) * c1 == a0 * b1 * c1 + a1 * b0 * c1) by (nonlinear_arith);
    assert((a0 * b0 - a1 * b1) * c1 == a0 * b0 * c1 - a1 * b1 * c1) by (nonlinear_arith);
    assert((a0 * b1 + a1 * b0) * c0 == a0 * b1 * c0 + a1 * b0 * c0) by (nonlinear_arith);
    assert(a0 * (b0 * c0 - b1 * c1) == a0 * b0 * c0 - a0 * b1 * c1 && a0 * (b0 * c1 + b1 * c0)
        == a0 * b0 * c1 + a0 * b1 * c0) by (nonlinear_arith);
    assert(a1 * (b0 * c1 + b1 * c0) == a1 * b0 * c1 + a1 * b1 * c0 && a1 * (b0 * c0 - b1 * c1)
        == a1 * b0 * c0 - a1 * b1 * c1) by (nonlinear_arith);
    assert(a0 * (b1 * c1) == a0 * b1 * c1 && a0 * (b0 * c0) == a0 * b0 * c0 && a0 * (b0 * c1)
        == a0 * b0 * c1 && a0 * (b1 * c0) == a0 * b1 * c0) by (nonlinear_arith);
    assert(a1 * (b0 * c1) == a1 * b0 * c1 && a1 * (b1 * c0) == a1 * b1 * c0 && a1 * (b0 * c0)
        == a1 * b0 * c0 && a1 * (b1 * c1) == a1 * b1 * c1) by (nonlinear_arith);
}

/// Multiplication distributes over addition on reduced elements.
#[verifier::rlimit(50)]
pub proof fn lemma_fp2_distrib(a: Fp2V, b: Fp2V, c: Fp2V)
    requires
        fp2_wf_v(a),
        fp2_wf_v(b),
        fp2_wf_v(c),
    ensures
        fp2_mul_v(a, fp2_add_v(b, c)) == fp2_add_v(fp2_mul_v(a, b), fp2_mul_v(a, c)),
{
    let (a0, a1) = (a.c0 as int, a.c1 as int);
    let (b0, b1) = (b.c0 as int, b.c1 as int);
    let (c0, c1) = (c.c0 as int, c.c1 as int);
    lemma_fp_red_small(a.c0);
    lemma_fp_red_small(a.c1);
    lemma_fp_ops_red(b0, c0);
    lemma_fp_ops_red(b1, c1);
    lemma_fp2_mul_red(a0, a1, b0 + c0, b1 + c1);
    lemma_fp2_red_form(a, b);
    lemma_fp2_red_form(a, c);
    lemma_fp_ops_red(a0 * b0 - a1 * b1, a0 * c0 - a1 * c1);
    lemma_fp_ops_red(a0 * b1 + a1 * b0, a0 * c1 + a1 * c0);
    assert(a0 * (b0 + c0) - a1 * (b1 + c1) == (a0 * b0 - a1 * b1) + (a0 * c0 - a1 * c1))
        by (nonlinear_arith);
    assert(a0 * (b1 + c1) + a1 * (b0 + c0) == (a0 * b1 + a1 * b0) + (a0 * c1 + a1 * c0))
        by (nonlinear_arith);
}

/// The product of reduced elements is the reduction of the exact
/// integer formula of the schoolbook product.
pub proof fn lemma_fp2_red_form(a: Fp2V, b: Fp2V)
    requires
        fp2_wf_v(a),
        fp2_wf_v(b),
    ensures
        fp2_mul_v(a, b) == (Fp2V {
            c0: fp_red(a.c0 * b.c0 - a.c1 * b.c1),
            c1: fp_red((a.c0 * b.c1 + a.c1 * b.c0) as int),
        }),
{
    lemma_fp_ops_red(a.c0 as int * b.c0 as int, a.c1 as int * b.c1 as int);
    lemma_fp_ops_red(a.c0 as int * b.c1 as int, a.c1 as int * b.c0 as int);
}

/// The schoolbook product applied to reductions of arbitrary integers.
pub proof fn lemma_fp2_mul_red(x0: int, x1: int, y0: int, y1: int)
    ensures
        fp2_mul_v(
            (Fp2V { c0: fp_red(x0), c1: fp_red(x1) }),
            (Fp2V { c0: fp_red(y0), c1: fp_red(y1) }),
        ) == (Fp2V { c0: fp_red(x0 * y0 - x1 * y1), c1: fp_red(x0 * y1 + x1 * y0) }),
{
    lemma_fp_ops_red(x0, y0);
    lemma_fp_ops_red(x1, y1);
    lemma_fp_ops_red(x0, y1);
    lemma_fp_ops_red(x1, y0);
    lemma_fp_ops_red(x0 * y0, x1 * y1);
    lemma_fp_ops_red(x0 * y1, x1 * y0);
}

/// The Karatsuba cross term: `(x+y)(u+v) - xu - yv == xv + yu`.
#[verifier::rlimit(50)]
pub proof fn lemma_fp2_karatsuba(x: Fp2V, y: Fp2V, u: Fp2V, v: Fp2V)
    requires
        fp2_wf_v(x),
        fp2_wf_v(y),
        fp2_wf_v(u),
        fp2_wf_v(v),
    ensures
        fp2_sub_v(
            fp2_sub_v(fp2_mul_v(fp2_add_v(x, y), fp2_add_v(u, v)), fp2_mul_v(x, u)),
            fp2_mul_v(y, v),
        ) == fp2_add_v(fp2_mul_v(x, v), fp2_mul_v(y, u)),
{
    let (x0, x1) = (x.c0 as int, x.c1 as int);
    let (y0, y1) = (y.c0 as int, y.c1 as int);
    let (u0, u1) = (u.c0 as int, u.c1 as int);
    let (v0, v1) = (v.c0 as int, v.c1 as int);
    lemma_fp2_mul_red(x0 + y0, x1 + y1, u0 + v0, u1 + v1);
    lemma_fp2_red_form(x, u);
    lemma_fp2_red_form(y, v);
    lemma_fp2_red_form(x, v);
    lemma_fp2_red_form(y, u);
    let p0 = (x0 + y0) * (u0 + v0) - (x1 + y1) * (u1 + v1);
    let p1 = (x0 + y0) * (u1 + v1) + (x1 + y1) * (u0 + v0);
    lemma_fp_ops_red(p0, x0 * u0 - x1 * u1);
    lemma_fp_ops_red(p0 - (x0 * u0 - x1 * u1), y0 * v0 - y1 * v1);
    lemma_fp_ops_red(p1, x0 * u1 + x1 * u0);
    lemma_fp_ops_red(p1 - (x0 * u1 + x1 * u0), y0 * v1 + y1 * v0);
    lemma_fp_ops_red(x0 * v0 - x1 * v1, y0 * u0 - y1 * u1);
    lemma_fp_ops_red(x0 * v1 + x1 * v0, y0 * u1 + y1 * u0);
    assert((x0 + y0) * (u0 + v0) - (x1 + y1) * (u1 + v1) - (x0 * u0 - x1 * u1) - (y0 * v0 - y1
        * v1) == (x0 * v0 - x1 * v1) + (y0 * u0 - y1 * u1)) by (nonlinear_arith);
    assert((x0 + y0) * (u1 + v1) + (x1 + y1) * (u0 + v0) - (x0 * u1 + x1 * u0) - (y0 * v1 + y1
        * v0) == (x0 * v1 + x1 * v0) + (y0 * u1 + y1 * u0)) by (nonlinear_arith);
}

/// Spec-level sums always have reduced components.
pub proof fn lemma_fp2_add_wf(a: Fp2V, b: Fp2V)
    ensures
        fp2_wf_v(fp2_add_v(a, b)),
{
    crate::fp::lemma_fp_red_bound((a.c0 + b.c0) as int);
    crate::fp::lemma_fp_red_bound((a.c1 + b.c1) as int);
}

/// Rebracketing two sums: `(w + x) + (y + z) == (w + y) + (x + z)`.
pub proof fn lemma_fp2_add_exchange(w: Fp2V, x: Fp2V, y: Fp2V, z: Fp2V)
    ensures
        fp2_add_v(fp2_add_v(w, x), fp2_add_v(y, z)) == fp2_add_v(
            fp2_add_v(w, y),
            fp2_add_v(x, z),
        ),
{
    lemma_fp_ops_red((w.c0 + x.c0) as int, (y.c0 + z.c0) as int);
    lemma_fp_ops_red((w.c0 + y.c0) as int, (x.c0 + z.c0) as int);
    lemma_fp_ops_red((w.c1 + x.c1) as int, (y.c1 + z.c1) as int);
    lemma_fp_ops_red((w.c1 + y.c1) as int, (x.c1 + z.c1) as int);
}

/// Zero annihilates products on either side.
pub proof fn lemma_fp2_mul_zero(a: Fp2V)
    ensures
        fp2_mul_v(a, fp2_zero_v()) == fp2_zero_v(),
        fp2_mul_v(fp2_zero_v(), a) == fp2_zero_v(),
{
    lemma_fp_red_small(0);
}

/// Spec-level products always have reduced components.
pub proof fn lemma_fp2_mul_wf(a: Fp2V, b: Fp2V)
    ensures
        fp2_wf_v(fp2_mul_v(a, b)),
{
    crate::fp::lemma_fp_red_bound(fp_mul_v(a.c0, b.c0) - fp_mul_v(a.c1, b.c1));
    crate::fp::lemma_fp_red_bound((fp_mul_v(a.c0, b.c1) + fp_mul_v(a.c1, b.c0)) as int);
}

/// The inversion formula always yields reduced components.
pub proof fn lemma_fp2_inv_wf(a: Fp2V)
    ensures
        fp2_wf_v(fp2_inv_v(a)),
{
    crate::fp::lemma_fp_red_bound((a.c0 * fp_inv_v(fp2_norm_v(a))) as int);
    crate::fp::lemma_fp_red_bound((fp_neg_v(a.c1) * fp_inv_v(fp2_norm_v(a))) as int);
}

/// An invertible element times its formula inverse is one.
pub proof fn lemma_fp2_mul_inv(a: Fp2V)
    requires
        fp2_wf_v(a),
        fp2_invertible_v(a),
    ensures
        fp2_mul_v(a, fp2_inv_v(a)) == fp2_one_v(),
{
    let norm = fp2_norm_v(a);
    let ni = fp_inv_v(norm);
    assert(ni < fp_modulus() && (norm * ni) % fp_modulus() == 1) by {
        assert(fp_invertible(norm));
        assert((norm * fp_inv_v(norm)) % fp_modulus() == 1);
    }
    lemma_fp2_inv_correct(a, norm, ni);
}

// ------------------------------------------------------------------
// Executable representation.
// ------------------------------------------------------------------

/// An element `c0 + c1*i` of the quadratic extension.
#[derive(Debug)]
pub struct Fp2 {
    pub c0: Fp,
    pub c1: Fp,
}

impl View for Fp2 {
    type V = Fp2V;

    open spec fn view(&self) -> Fp2V {
        Fp2V { c0: self.c0@, c1: self.c1@ }
    }
}

impl Fp2 {
    pub open spec fn wf(&self) -> bool {
        fp2_wf_v(self@)
    }

    pub fn new(c0: Fp, c1: Fp) -> (r: Self)
        ensures
            r@ == (Fp2V { c0: c0@, c1: c1@ }),
    {
        Fp2 { c0, c1 }
    }

    /// The additive identity.
    pub fn zero() -> (r: Self)
        ensures
            r@ == fp2_zero_v(),
            r.wf(),
    {
        Fp2 { c0: Fp::zero(), c1: Fp::zero() }
    }

    /// The multiplicative identity.
    pub fn one() -> (r: Self)
        ensures
            r@ == fp2_one_v(),
            r.wf(),
    {
        Fp2 { c0: Fp::one(), c1: Fp::zero() }
    }

    /// Whether this element is zero.
    pub fn is_zero(&self) -> (r: bool)
        ensures
            r == (self@ == fp2_zero_v()),
    {
        self.c0.is_zero() && self.c1.is_zero()
    }

    /// Conjugate: `(a + b i)* = a - b i`.
    pub fn conjugate(&self) -> (r: Self)
        requires
            self.wf(),
        ensures
            r@ == fp2_conj_v(self@),
            r.wf(),
    {
        Fp2 { c0: self.c0.clone(), c1: self.c1.neg() }
    }

    /// Componentwise addition.
    pub fn add(&self, rhs: &Fp2) -> (r: Self)
        requires
            self.wf(),
            rhs.wf(),
        ensures
            r@ == fp2_add_v(self@, rhs@),
            r.wf(),
    {
        Fp2 { c0: self.c0.add(&rhs.c0), c1: self.c1.add(&rhs.c1) }
    }

    /// Componentwise subtraction.
    pub fn sub(&self, rhs: &Fp2) -> (r: Self)
        requires
            self.wf(),
            rhs.wf(),
        ensures
            r@ == fp2_sub_v(self@, rhs@),
            r.wf(),
    {
        Fp2 { c0: self.c0.sub(&rhs.c0), c1: self.c1.sub(&rhs.c1) }
    }

    /// Componentwise negation.
    pub fn neg(&self) -> (r: Self)
        requires
            self.wf(),
        ensures
            r@ == fp2_neg_v(self@),
            r.wf(),
    {
        Fp2 { c0: self.c0.neg(), c1: self.c1.neg() }
    }

    /// Product under `i^2 = -1`, computed with three base-field
    /// multiplications: `(a0+a1)(b0+b1) - a0 b0 - a1 b1` recovers the
    /// cross term of the schoolbook formula.
    pub fn mul(&self, rhs: &Fp2) -> (r: Self)
        requires
            self.wf(),
            rhs.wf(),
        ensures
            r@ == fp2_mul_v(self@, rhs@),
            r.wf(),
    {
        let ac = self.c0.mul(&rhs.c0);
        let bd = self.c1.mul(&rhs.c1);
        let cross = self.c0.add(&self.c1).mul(&rhs.c0.add(&rhs.c1)).sub(&ac).sub(&bd);
        proof {
            let (a0, a1) = (self@.c0 as int, self@.c1 as int);
            let (b0, b1) = (rhs@.c0 as int, rhs@.c1 as int);
            lemma_fp_ops_red(a0 + a1, b0 + b1);
            lemma_fp_ops_red((a0 + a1) * (b0 + b1), a0 * b0);
            lemma_fp_ops_red((a0 + a1) * (b0 + b1) - a0 * b0, a1 * b1);
            lemma_fp_ops_red(a0 * b1, a1 * b0);
            assert((a0 + a1) * (b0 + b1) - a0 * b0 - a1 * b1 == a0 * b1 + a1 * b0)
                by (nonlinear_arith);
        }
        Fp2 { c0: ac.sub(&bd), c1: cross }
    }

    /// Multiplicative inverse `conj(self) / norm(self)`. Returns `None`
    /// exactly when the norm has no base-field inverse; in particular,
    /// inverting zero is an error.
    pub fn inv(&self) -> (r: Option<Self>)
        requires
            self.wf(),
        ensures
            r is Some <==> fp2_invertible_v(self@),
            r matches Some(v) ==> v@ == fp2_inv_v(self@) && fp2_mul_v(self@, v@) == fp2_one_v()
                && fp2_mul_v(v@, self@) == fp2_one_v() && v.wf(),
            self@ == fp2_zero_v() ==> r is None,
    {
        let norm = self.c0.mul(&self.c0).add(&self.c1.mul(&self.c1));
        proof {
            if self@ == fp2_zero_v() {
                lemma_fp_red_small(0);
            }
        }
        match norm.inv() {
            Some(ni) => {
                let r0 = self.c0.mul(&ni);
                let r1 = self.c1.neg().mul(&ni);
                proof {
                    lemma_fp2_inv_correct(self@, norm@, ni@);
                    lemma_fp2_mul_comm(self@, fp2_inv_v(self@));
                }
                Some(Fp2 { c0: r0, c1: r1 })
            },
            None => None,
        }
    }

    /// Scaling by a base-field element.
    pub fn scale(&self, k: &Fp) -> (r: Self)
        requires
            self.wf(),
            k.wf(),
        ensures
            r@ == fp2_scale_v(self@, k@),
            r.wf(),
    {
        Fp2 { c0: self.c0.mul(k), c1: self.c1.mul(k) }
    }
}

/// An element times its norm-scaled conjugate is one: the inverse law of
/// the quadratic layer, given a base-field inverse of the norm.
#[verifier::rlimit(50)]
proof fn lemma_fp2_inv_correct(a: Fp2V, norm: nat, ni: nat)
    requires
        fp2_wf_v(a),
        norm == fp2_norm_v(a),
        ni < fp_modulus(),
        (norm * ni) % fp_modulus() == 1,
    ensures
        fp2_mul_v(
            a,
            (Fp2V { c0: fp_mul_v(a.c0, ni), c1: fp_mul_v(fp_neg_v(a.c1), ni) }),
        ) == fp2_one_v(),
{
    let (a0, a1) = (a.c0 as int, a.c1 as int);
    let n = ni as int;
    // The two coefficients of the candidate inverse as exact reductions.
    assert(fp_mul_v(a.c0, ni) == fp_red(a0 * n)) by {
        lemma_fp_red_small(a.c0);
        lemma_fp_red_small(ni);
        lemma_fp_ops_red(a0, n);
    }
    assert(fp_mul_v(fp_neg_v(a.c1), ni) == fp_red(-a1 * n)) by {
        lemma_fp_red_small(a.c1);
        lemma_fp_red_small(ni);
        lemma_fp_ops_red(0 - a1, n);
        assert((0 - a1) * n == -a1 * n) by (nonlinear_arith);
    }
    lemma_fp2_mul_red(a0, a1, a0 * n, -a1 * n);
    // The norm as an exact reduction.
    assert(norm == fp_red(a0 * a0 + a1 * a1)) by {
        lemma_fp_ops_red(a0 * a0, a1 * a1);
        lemma_fp_red_small(a.c0);
        lemma_fp_red_small(a.c1);
    }
    // c0: a0*(a0 n) - a1*(-a1 n) = (a0^2 + a1^2) n = 1.
    assert(a0 * (a0 * n) - a1 * (-a1 * n) == (a0 * a0 + a1 * a1) * n) by (nonlinear_arith);
    assert(fp_red((a0 * a0 + a1 * a1) * n) == 1) by {
        lemma_fp_red_left(a0 * a0 + a1 * a1, n);
    }
    // c1: a0*(-a1 n) + a1*(a0 n) = 0.
    assert(a0 * (-a1 * n) + a1 * (a0 * n) == 0) by (nonlinear_arith);
    lemma_fp_red_small(0);
}

impl Clone for Fp2 {
    /// The copy holds the same element.
    fn clone(&self) -> (r: Self)
        ensures
            r@ == self@,
    {
        Fp2 { c0: self.c0.clone(), c1: self.c1.clone() }
    }
}

impl PartialEq for Fp2 {
    /// Equality of the held elements.
    fn eq(&self, other: &Self) -> (r: bool)
        ensures
            r == (self@ == other@),
    {
        self.c0 == other.c0 && self.c1 == other.c1
    }
}

impl vstd::std_specs::cmp::PartialEqSpecImpl for Fp2 {
    open spec fn obeys_eq_spec() -> bool {
        true
    }

    open spec fn eq_spec(&self, other: &Self) -> bool {
        self@ == other@
    }
}

} // verus!
