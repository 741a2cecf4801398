//! The cubic extension of the quadratic layer: elements `c0 + c1*v + c2*v^2`
//! with `v^3 = xi = 9 + i`, the non-residue of the quadratic extension.
use vstd::prelude::*;
use crate::fp::Fp;
use crate::fp2::{
    fp2_add_v, fp2_inv_v, fp2_invertible_v, fp2_mul_v, fp2_neg_v, fp2_one_v, fp2_sub_v,
    fp2_wf_v, fp2_zero_v, lemma_fp2_add_assoc, lemma_fp2_add_comm, lemma_fp2_add_exchange,
    lemma_fp2_add_wf, lemma_fp2_add_zero, lemma_fp2_distrib, lemma_fp2_karatsuba,
    lemma_fp2_mul_comm, lemma_fp2_mul_one, lemma_fp2_mul_zero, Fp2, Fp2V,
};

verus! {

/// The non-residue `xi = 9 + i` adjoined by this layer.
pub open spec fn fp2_xi_v() -> Fp2V {
    Fp2V { c0: 9, c1: 1 }
}

/// Multiplication by the non-residue in the quadratic layer.
pub open spec fn fp2_mulxi_v(a: Fp2V) -> Fp2V {
    fp2_mul_v(a, fp2_xi_v())
}

/// Mathematical model of a cubic-extension element.
pub ghost struct Fp6V {
    pub c0: Fp2V,
    pub c1: Fp2V,
    pub c2: Fp2V,
}

pub open spec fn fp6_wf_v(a: Fp6V) -> bool {
    fp2_wf_v(a.c0) && fp2_wf_v(a.c1) && fp2_wf_v(a.c2)
}

pub open spec fn fp6_zero_v() -> Fp6V {
    Fp6V { c0: fp2_zero_v(), c1: fp2_zero_v(), c2: fp2_zero_v() }
}

pub open spec fn fp6_one_v() -> Fp6V {
    Fp6V { c0: fp2_one_v(), c1: fp2_zero_v(), c2: fp2_zero_v() }
}

pub open spec fn fp6_add_v(a: Fp6V, b: Fp6V) -> Fp6V {
    Fp6V {
        c0: fp2_add_v(a.c0, b.c0),
        c1: fp2_add_v(a.c1, b.c1),
        c2: fp2_add_v(a.c2, b.c2),
    }
}

pub open spec fn fp6_sub_v(a: Fp6V, b: Fp6V) -> Fp6V {
    Fp6V {
        c0: fp2_sub_v(a.c0, b.c0),
        c1: fp2_sub_v(a.c1, b.c1),
        c2: fp2_sub_v(a.c2, b.c2),
    }
}

pub open spec fn fp6_neg_v(a: Fp6V) -> Fp6V {
    Fp6V { c0: fp2_neg_v(a.c0), c1: fp2_neg_v(a.c1), c2: fp2_neg_v(a.c2) }
}

/// Schoolbook product under `v^3 = xi`:
/// `c0 = a0 b0 + xi (a1 b2 + a2 b1)`,
/// `c1 = a0 b1 + a1 b0 + xi (a2 b2)`,
/// `c2 = a0 b2 + a1 b1 + a2 b0`.
pub open spec fn fp6_mul_v(a: Fp6V, b: Fp6V) -> Fp6V {
    Fp6V {
        c0: fp2_add_v(
            fp2_mul_v(a.c0, b.c0),
            fp2_mulxi_v(fp2_add_v(fp2_mul_v(a.c1, b.c2), fp2_mul_v(a.c2, b.c1))),
        ),
        c1: fp2_add_v(
            fp2_add_v(fp2_mul_v(a.c0, b.c1), fp2_mul_v(a.c1, b.c0)),
            fp2_mulxi_v(fp2_mul_v(a.c2, b.c2)),
        ),
        c2: fp2_add_v(
            fp2_add_v(fp2_mul_v(a.c0, b.c2), fp2_mul_v(a.c1, b.c1)),
            fp2_mul_v(a.c2, b.c0),
        ),
    }
}

/// The three adjugate coefficients of the inversion formula.
pub open spec fn fp6_adj0_v(a: Fp6V) -> Fp2V {
    fp2_sub_v(fp2_mul_v(a.c0, a.c0), fp2_mulxi_v(fp2_mul_v(a.c1, a.c2)))
}

pub open spec fn fp6_adj1_v(a: Fp6V) -> Fp2V {
    fp2_sub_v(fp2_mulxi_v(fp2_mul_v(a.c2, a.c2)), fp2_mul_v(a.c0, a.c1))
}

pub open spec fn fp6_adj2_v(a: Fp6V) -> Fp2V {
    fp2_sub_v(fp2_mul_v(a.c1, a.c1), fp2_mul_v(a.c0, a.c2))
}

/// The resolvent scalar of the inversion formula, an element of the
/// quadratic layer.
pub open spec fn fp6_res_v(a: Fp6V) -> Fp2V {
    fp2_add_v(
        fp2_add_v(
            fp2_mul_v(a.c2, fp2_mulxi_v(fp6_adj1_v(a))),
            fp2_mul_v(a.c1, fp2_mulxi_v(fp6_adj2_v(a))),
        ),
        fp2_mul_v(a.c0, fp6_adj0_v(a)),
    )
}

/// Whether the inversion formula goes through: its resolvent must be
/// invertible in the quadratic layer.
pub open spec fn fp6_invertible_v(a: Fp6V) -> bool {
    fp2_invertible_v(fp6_res_v(a))
}

/// The inverse by the adjugate-over-resolvent formula.
pub open spec fn fp6_inv_v(a: Fp6V) -> Fp6V {
    Fp6V {
        c0: fp2_mul_v(fp6_adj0_v(a), fp2_inv_v(fp6_res_v(a))),
        c1: fp2_mul_v(fp6_adj1_v(a), fp2_inv_v(fp6_res_v(a))),
        c2: fp2_mul_v(fp6_adj2_v(a), fp2_inv_v(fp6_res_v(a))),
    }
}

// ------------------------------------------------------------------
// Field laws of the cubic layer.
// ------------------------------------------------------------------

/// Addition is commutative.
pub proof fn lemma_fp6_add_comm(a: Fp6V, b: Fp6V)
    ensures
        fp6_add_v(a, b) == fp6_add_v(b, a),
{
}

/// Addition is associative.
pub proof fn lemma_fp6_add_assoc(a: Fp6V, b: Fp6V, c: Fp6V)
    ensures
        fp6_add_v(fp6_add_v(a, b), c) == fp6_add_v(a, fp6_add_v(b, c)),
{
    lemma_fp2_add_assoc(a.c0, b.c0, c.c0);
    lemma_fp2_add_assoc(a.c1, b.c1, c.c1);
    lemma_fp2_add_assoc(a.c2, b.c2, c.c2);
}

/// Zero is the additive identity.
pub proof fn lemma_fp6_add_zero(a: Fp6V)
    requires
        fp6_wf_v(a),
    ensures
        fp6_add_v(a, fp6_zero_v()) == a,
{
    lemma_fp2_add_zero(a.c0);
    lemma_fp2_add_zero(a.c1);
    lemma_fp2_add_zero(a.c2);
}

/// Multiplication is commutative.
pub proof fn lemma_fp6_mul_comm(a: Fp6V, b: Fp6V)
    ensures
        fp6_mul_v(a, b) == fp6_mul_v(b, a),
{
    lemma_fp2_mul_comm(a.c0, b.c0);
    lemma_fp2_mul_comm(a.c1, b.c2);
    lemma_fp2_mul_comm(a.c2, b.c1);
    lemma_fp2_mul_comm(a.c0, b.c1);
    lemma_fp2_mul_comm(a.c1, b.c0);
    lemma_fp2_mul_comm(a.c2, b.c2);
    lemma_fp2_mul_comm(a.c0, b.c2);
    lemma_fp2_mul_comm(a.c1, b.c1);
    lemma_fp2_mul_comm(a.c2, b.c0);
    lemma_fp2_add_comm(fp2_mul_v(b.c2, a.c1), fp2_mul_v(b.c1, a.c2));
    lemma_fp2_add_comm(fp2_mul_v(b.c1, a.c0), fp2_mul_v(b.c0, a.c1));
    lemma_fp2_add_comm(fp2_mul_v(b.c2, a.c0), fp2_mul_v(b.c1, a.c1));
    // c2: a0 b2 + a1 b1 + a2 b0 against b0 a2 + b1 a1 + b2 a0.
    let m02 = fp2_mul_v(a.c0, b.c2);
    let m11 = fp2_mul_v(a.c1, b.c1);
    let m20 = fp2_mul_v(a.c2, b.c0);
    lemma_fp2_add_comm(fp2_add_v(m02, m11), m20);
    lemma_fp2_add_assoc(m20, m02, m11);
    lemma_fp2_add_comm(m02, m11);
    lemma_fp2_add_assoc(m20, m11, m02);
    lemma_fp2_add_comm(m20, fp2_add_v(m11, m02));
    lemma_fp2_add_assoc(m11, m02, m20);
    lemma_fp2_add_comm(m02, m20);
    lemma_fp2_add_assoc(m11, m20, m02);
    lemma_fp2_add_comm(m11, fp2_add_v(m20, m02));
    lemma_fp2_add_assoc(m20, m02, m11);
}

/// Multiplication by the non-residue distributes over addition.
pub proof fn lemma_fp2_mulxi_add(x: Fp2V, y: Fp2V)
    requires
        fp2_wf_v(x),
        fp2_wf_v(y),
    ensures
        fp2_mulxi_v(fp2_add_v(x, y)) == fp2_add_v(fp2_mulxi_v(x), fp2_mulxi_v(y)),
{
    lemma_fp2_mul_comm(fp2_add_v(x, y), fp2_xi_v());
    lemma_fp2_distrib(fp2_xi_v(), x, y);
    lemma_fp2_mul_comm(fp2_xi_v(), x);
    lemma_fp2_mul_comm(fp2_xi_v(), y);
}

/// Spec-level products always have reduced components.
pub proof fn lemma_fp6_mul_wf(a: Fp6V, b: Fp6V)
    ensures
        fp6_wf_v(fp6_mul_v(a, b)),
{
    lemma_fp2_add_wf(
        fp2_mul_v(a.c0, b.c0),
        fp2_mulxi_v(fp2_add_v(fp2_mul_v(a.c1, b.c2), fp2_mul_v(a.c2, b.c1))),
    );
    lemma_fp2_add_wf(
        fp2_add_v(fp2_mul_v(a.c0, b.c1), fp2_mul_v(a.c1, b.c0)),
        fp2_mulxi_v(fp2_mul_v(a.c2, b.c2)),
    );
    lemma_fp2_add_wf(
        fp2_add_v(fp2_mul_v(a.c0, b.c2), fp2_mul_v(a.c1, b.c1)),
        fp2_mul_v(a.c2, b.c0),
    );
}

/// Rebracketing two sums, componentwise.
pub proof fn lemma_fp6_add_exchange(w: Fp6V, x: Fp6V, y: Fp6V, z: Fp6V)
    ensures
        fp6_add_v(fp6_add_v(w, x), fp6_add_v(y, z)) == fp6_add_v(
            fp6_add_v(w, y),
            fp6_add_v(x, z),
        ),
{
    lemma_fp2_add_exchange(w.c0, x.c0, y.c0, z.c0);
    lemma_fp2_add_exchange(w.c1, x.c1, y.c1, z.c1);
    lemma_fp2_add_exchange(w.c2, x.c2, y.c2, z.c2);
}

/// Multiplication distributes over addition on reduced elements.
pub proof fn lemma_fp6_distrib(a: Fp6V, b: Fp6V, c: Fp6V)
    requires
        fp6_wf_v(a),
        fp6_wf_v(b),
        fp6_wf_v(c),
    ensures
        fp6_mul_v(a, fp6_add_v(b, c)) == fp6_add_v(fp6_mul_v(a, b), fp6_mul_v(a, c)),
{
    lemma_fp2_distrib(a.c0, b.c0, c.c0);
    lemma_fp2_distrib(a.c1, b.c2, c.c2);
    lemma_fp2_distrib(a.c2, b.c1, c.c1);
    lemma_fp2_distrib(a.c0, b.c1, c.c1);
    lemma_fp2_distrib(a.c1, b.c0, c.c0);
    lemma_fp2_distrib(a.c2, b.c2, c.c2);
    lemma_fp2_distrib(a.c0, b.c2, c.c2);
    lemma_fp2_distrib(a.c1, b.c1, c.c1);
    lemma_fp2_distrib(a.c2, b.c0, c.c0);
    let ab12 = fp2_mul_v(a.c1, b.c2);
    let ac12 = fp2_mul_v(a.c1, c.c2);
    let ab21 = fp2_mul_v(a.c2, b.c1);
    let ac21 = fp2_mul_v(a.c2, c.c1);
    lemma_fp2_add_exchange(ab12, ac12, ab21, ac21);
    lemma_fp2_add_wf(ab12, ab21);
    lemma_fp2_add_wf(ac12, ac21);
    lemma_fp2_mulxi_add(fp2_add_v(ab12, ab21), fp2_add_v(ac12, ac21));
    lemma_fp2_add_exchange(
        fp2_mul_v(a.c0, b.c0),
        fp2_mul_v(a.c0, c.c0),
        fp2_mulxi_v(fp2_add_v(ab12, ab21)),
        fp2_mulxi_v(fp2_add_v(ac12, ac21)),
    );
    let ab01 = fp2_mul_v(a.c0, b.c1);
    let ac01 = fp2_mul_v(a.c0, c.c1);
    let ab10 = fp2_mul_v(a.c1, b.c0);
    let ac10 = fp2_mul_v(a.c1, c.c0);
    lemma_fp2_add_exchange(ab01, ac01, ab10, ac10);
    crate::fp2::lemma_fp2_mul_wf(a.c2, b.c2);
    crate::fp2::lemma_fp2_mul_wf(a.c2, c.c2);
    lemma_fp2_mulxi_add(fp2_mul_v(a.c2, b.c2), fp2_mul_v(a.c2, c.c2));
    lemma_fp2_add_exchange(
        fp2_add_v(ab01, ab10),
        fp2_add_v(ac01, ac10),
        fp2_mulxi_v(fp2_mul_v(a.c2, b.c2)),
        fp2_mulxi_v(fp2_mul_v(a.c2, c.c2)),
    );
    let ab02 = fp2_mul_v(a.c0, b.c2);
    let ac02 = fp2_mul_v(a.c0, c.c2);
    let ab11 = fp2_mul_v(a.c1, b.c1);
    let ac11 = fp2_mul_v(a.c1, c.c1);
    lemma_fp2_add_exchange(ab02, ac02, ab11, ac11);
    lemma_fp2_add_exchange(
        fp2_add_v(ab02, ab11),
        fp2_add_v(ac02, ac11),
        fp2_mul_v(a.c2, b.c0),
        fp2_mul_v(a.c2, c.c0),
    );
}

/// One is the multiplicative identity on reduced elements.
pub proof fn lemma_fp6_mul_one(a: Fp6V)
    requires
        fp6_wf_v(a),
    ensures
        fp6_mul_v(a, fp6_one_v()) == a,
{
    lemma_fp2_mul_one(a.c0);
    lemma_fp2_mul_one(a.c1);
    lemma_fp2_mul_one(a.c2);
    lemma_fp2_mul_zero(a.c0);
    lemma_fp2_mul_zero(a.c1);
    lemma_fp2_mul_zero(a.c2);
    lemma_fp2_mul_zero(fp2_zero_v());
    lemma_fp2_mul_zero(fp2_xi_v());
    lemma_fp2_mul_comm(fp2_zero_v(), fp2_xi_v());
    lemma_fp2_add_zero(a.c1);
    lemma_fp2_add_zero(a.c2);
    lemma_fp2_add_zero(fp2_zero_v());
    lemma_fp2_add_comm(fp2_zero_v(), a.c0);
    lemma_fp2_add_zero(a.c0);
    lemma_fp2_add_comm(fp2_zero_v(), a.c1);
    lemma_fp2_add_comm(fp2_zero_v(), a.c2);
}

// ------------------------------------------------------------------
// Executable representation.
// ------------------------------------------------------------------

/// An element `c0 + c1*v + c2*v^2` of the cubic extension.
#[derive(Debug)]
pub struct Fp6 {
    pub c0: Fp2,
    pub c1: Fp2,
    pub c2: Fp2,
}

impl View for Fp6 {
    type V = Fp6V;

    open spec fn view(&self) -> Fp6V {
        Fp6V { c0: self.c0@, c1: self.c1@, c2: self.c2@ }
    }
}

impl Fp6 {
    pub open spec fn wf(&self) -> bool {
        fp6_wf_v(self@)
    }

    pub fn new(c0: Fp2, c1: Fp2, c2: Fp2) -> (r: Self)
        ensures
            r@ == (Fp6V { c0: c0@, c1: c1@, c2: c2@ }),
    {
        Fp6 { c0, c1, c2 }
    }

    /// The additive identity.
    pub fn zero() -> (r: Self)
        ensures
            r@ == fp6_zero_v(),
            r.wf(),
    {
        Fp6 { c0: Fp2::zero(), c1: Fp2::zero(), c2: Fp2::zero() }
    }

    /// The multiplicative identity.
    pub fn one() -> (r: Self)
        ensures
            r@ == fp6_one_v(),
            r.wf(),
    {
        Fp6 { c0: Fp2::one(), c1: Fp2::zero(), c2: Fp2::zero() }
    }

    /// The non-residue `xi = 9 + i` of the layer below.
    fn non_residue() -> (r: Fp2)
        ensures
            r@ == fp2_xi_v(),
            r.wf(),
    {
        Fp2::new(Fp::from_u64(9), Fp::from_u64(1))
    }

    /// Multiplication by the non-residue in the quadratic layer.
    pub fn mul_by_non_residue(a: &Fp2) -> (r: Fp2)
        requires
            a.wf(),
        ensures
            r@ == fp2_mulxi_v(a@),
            r.wf(),
    {
        a.mul(&Self::non_residue())
    }

    /// Componentwise addition.
    pub fn add(&self, rhs: &Fp6) -> (r: Self)
        requires
            self.wf(),
            rhs.wf(),
        ensures
            r@ == fp6_add_v(self@, rhs@),
            r.wf(),
    {
        Fp6 {
            c0: self.c0.add(&rhs.c0),
            c1: self.c1.add(&rhs.c1),
            c2: self.c2.add(&rhs.c2),
        }
    }

    /// Componentwise subtraction.
    pub fn sub(&self, rhs: &Fp6) -> (r: Self)
        requires
            self.wf(),
            rhs.wf(),
        ensures
            r@ == fp6_sub_v(self@, rhs@),
            r.wf(),
    {
        Fp6 {
            c0: self.c0.sub(&rhs.c0),
            c1: self.c1.sub(&rhs.c1),
            c2: self.c2.sub(&rhs.c2),
        }
    }

    /// Componentwise negation.
    pub fn neg(&self) -> (r: Self)
        requires
            self.wf(),
        ensures
            r@ == fp6_neg_v(self@),
            r.wf(),
    {
        Fp6 { c0: self.c0.neg(), c1: self.c1.neg(), c2: self.c2.neg() }
    }

    /// Product under `v^3 = xi`, with six quadratic-layer multiplications:
    /// the three Karatsuba cross sums recover the schoolbook coefficients.
    pub fn mul(&self, rhs: &Fp6) -> (r: Self)
        requires
            self.wf(),
            rhs.wf(),
        ensures
            r@ == fp6_mul_v(self@, rhs@),
            r.wf(),
    {
        let a_a = self.c0.mul(&rhs.c0);
        let b_b = self.c1.mul(&rhs.c1);
        let c_c = self.c2.mul(&rhs.c2);
        let t0 = self.c1.add(&self.c2).mul(&rhs.c1.add(&rhs.c2));
        let t1 = self.c0.add(&self.c1).mul(&rhs.c0.add(&rhs.c1));
        let t2 = self.c0.add(&self.c2).mul(&rhs.c0.add(&rhs.c2));
        let r0 = a_a.add(&Self::mul_by_non_residue(&t0.sub(&b_b).sub(&c_c)));
        let r1 = t1.sub(&a_a).sub(&b_b).add(&Self::mul_by_non_residue(&c_c));
        let r2 = t2.sub(&a_a).sub(&c_c).add(&b_b);
        proof {
            let a = self@;
            let b = rhs@;
            lemma_fp2_karatsuba(a.c1, a.c2, b.c1, b.c2);
            lemma_fp2_karatsuba(a.c0, a.c1, b.c0, b.c1);
            lemma_fp2_karatsuba(a.c0, a.c2, b.c0, b.c2);
            // c0 and c1 now match the schoolbook coefficients; c2 needs an
            // addition shuffle: (a0 b2 + a2 b0) + a1 b1 == (a0 b2 + a1 b1) + a2 b0.
            let m02 = fp2_mul_v(a.c0, b.c2);
            let m11 = fp2_mul_v(a.c1, b.c1);
            let m20 = fp2_mul_v(a.c2, b.c0);
            lemma_fp2_add_assoc(m02, m20, m11);
            lemma_fp2_add_comm(m20, m11);
            lemma_fp2_add_assoc(m02, m11, m20);
        }
        Fp6 { c0: r0, c1: r1, c2: r2 }
    }

    /// Multiplicative inverse by the adjugate-over-resolvent formula.
    /// Returns `None` exactly when the resolvent has no inverse in the
    /// quadratic layer; in particular, inverting zero is an error.
    pub fn inv(&self) -> (r: Option<Self>)
        requires
            self.wf(),
        ensures
            r is Some <==> fp6_invertible_v(self@),
            r matches Some(v) ==> v@ == fp6_inv_v(self@) && v.wf(),
            self@ == fp6_zero_v() ==> r is None,
    {
        let adj0 = self.c0.mul(&self.c0).sub(&Self::mul_by_non_residue(&self.c1.mul(&self.c2)));
        let adj1 = Self::mul_by_non_residue(&self.c2.mul(&self.c2)).sub(&self.c0.mul(&self.c1));
        let adj2 = self.c1.mul(&self.c1).sub(&self.c0.mul(&self.c2));
        let t = self.c2.mul(&Self::mul_by_non_residue(&adj1)).add(
            &self.c1.mul(&Self::mul_by_non_residue(&adj2)),
        ).add(&self.c0.mul(&adj0));
        proof {
            if self@ == fp6_zero_v() {
                lemma_fp6_res_zero();
            }
        }
        match t.inv() {
            Some(ti) => {
                let r0 = adj0.mul(&ti);
                let r1 = adj1.mul(&ti);
                let r2 = adj2.mul(&ti);
                Some(Fp6 { c0: r0, c1: r1, c2: r2 })
            },
            None => None,
        }
    }
}

/// The resolvent of the zero element is zero, so inverting zero fails.
proof fn lemma_fp6_res_zero()
    ensures
        fp6_res_v(fp6_zero_v()) == fp2_zero_v(),
{
    let z = fp2_zero_v();
    lemma_fp2_mul_zero(z);
    lemma_fp2_mul_zero(fp2_xi_v());
    lemma_fp2_mul_comm(z, fp2_xi_v());
    crate::fp::lemma_fp_red_small(0);
    lemma_fp2_mul_zero(fp6_adj0_v(fp6_zero_v()));
    lemma_fp2_mul_zero(fp2_mulxi_v(fp6_adj1_v(fp6_zero_v())));
    lemma_fp2_mul_comm(z, fp2_mulxi_v(fp6_adj1_v(fp6_zero_v())));
    lemma_fp2_mul_zero(fp2_mulxi_v(fp6_adj2_v(fp6_zero_v())));
    lemma_fp2_mul_comm(z, fp2_mulxi_v(fp6_adj2_v(fp6_zero_v())));
    lemma_fp2_mul_comm(z, fp6_adj0_v(fp6_zero_v()));
    lemma_fp2_add_zero(z);
}

/// Zero annihilates products on either side.
pub proof fn lemma_fp6_mul_zero(a: Fp6V)
    ensures
        fp6_mul_v(a, fp6_zero_v()) == fp6_zero_v(),
        fp6_mul_v(fp6_zero_v(), a) == fp6_zero_v(),
{
    let z = fp2_zero_v();
    lemma_fp2_mul_zero(a.c0);
    lemma_fp2_mul_zero(a.c1);
    lemma_fp2_mul_zero(a.c2);
    lemma_fp2_mul_zero(fp2_xi_v());
    lemma_fp2_mul_comm(z, fp2_xi_v());
    lemma_fp2_add_zero(z);
    crate::fp::lemma_fp_red_small(0);
}

impl Clone for Fp6 {
    /// The copy holds the same element.
    fn clone(&self) -> (r: Self)
        ensures
            r@ == self@,
    {
        Fp6 { c0: self.c0.clone(), c1: self.c1.clone(), c2: self.c2.clone() }
    }
}

impl PartialEq for Fp6 {
    /// Equality of the held elements.
    fn eq(&self, other: &Self) -> (r: bool)
        ensures
            r == (self@ == other@),
    {
        self.c0 == other.c0 && self.c1 == other.c1 && self.c2 == other.c2
    }
}

impl vstd::std_specs::cmp::PartialEqSpecImpl for Fp6 {
    open spec fn obeys_eq_spec() -> bool {
        true
    }

    open spec fn eq_spec(&self, other: &Self) -> bool {
        self@ == other@
    }
}

} // verus!
