//! The second curve group: points on the sextic twist `y^2 = x^3 + 3/xi`
//! over the quadratic extension, held in Jacobian coordinates `(X, Y, Z)`
//! with affine `x = X/Z^2`, `y = Y/Z^3`; the point at infinity has `Z = 0`.
use vstd::prelude::*;
use vstd::pervasive::unreached;
use num_bigint::BigUint;
use crate::bigint::{big_clone, big_is_odd, big_is_zero, big_shr1, big_value};
use crate::fp::{
    fp_inv_v, fp_invertible, fp_modulus, lemma_fp_inv_value, lemma_fp_red_small, Fp,
};
use crate::fp2::{
    fp2_add_v, fp2_inv_v, fp2_invertible_v, fp2_mul_v, fp2_norm_v, fp2_one_v, fp2_sub_v,
    fp2_wf_v, fp2_zero_v, lemma_fp2_mul_zero, Fp2, Fp2V,
};
use crate::fp6::fp2_xi_v;

verus! {

/// Mathematical model of a Jacobian point over the quadratic extension.
pub ghost struct G2V {
    pub x: Fp2V,
    pub y: Fp2V,
    pub z: Fp2V,
}

pub open spec fn g2_wf_v(p: G2V) -> bool {
    fp2_wf_v(p.x) && fp2_wf_v(p.y) && fp2_wf_v(p.z)
}

pub open spec fn g2_infinity_v() -> G2V {
    G2V { x: fp2_zero_v(), y: fp2_one_v(), z: fp2_zero_v() }
}

pub open spec fn g2_is_inf_v(p: G2V) -> bool {
    p.z == fp2_zero_v()
}

/// The twist coefficient `b' = 3 / (9 + i)`.
pub open spec fn g2_b_v() -> Fp2V {
    fp2_mul_v((Fp2V { c0: 3, c1: 0 }), fp2_inv_v(fp2_xi_v()))
}

/// Affine coordinates: `(0, 0)` for infinity, else `(X/Z^2, Y/Z^3)`.
pub open spec fn g2_affine_v(p: G2V) -> (Fp2V, Fp2V) {
    if g2_is_inf_v(p) {
        (fp2_zero_v(), fp2_zero_v())
    } else {
        let zi = fp2_inv_v(p.z);
        let zi2 = fp2_mul_v(zi, zi);
        let zi3 = fp2_mul_v(zi2, zi);
        (fp2_mul_v(p.x, zi2), fp2_mul_v(p.y, zi3))
    }
}

/// Whether the affine form satisfies `y^2 = x^3 + b'`; infinity counts
/// as on the curve.
pub open spec fn g2_on_curve_v(p: G2V) -> bool {
    if g2_is_inf_v(p) {
        true
    } else {
        let a = g2_affine_v(p);
        fp2_mul_v(a.1, a.1) == fp2_add_v(fp2_mul_v(fp2_mul_v(a.0, a.0), a.0), g2_b_v())
    }
}

/// The standard Jacobian doubling formula sequence; infinity is returned
/// unchanged.
pub open spec fn g2_double_v(p: G2V) -> G2V {
    if g2_is_inf_v(p) {
        p
    } else {
        let a = fp2_mul_v(p.x, p.x);
        let b = fp2_mul_v(p.y, p.y);
        let c = fp2_mul_v(b, b);
        let x1b = fp2_add_v(p.x, b);
        let d_half = fp2_sub_v(fp2_sub_v(fp2_mul_v(x1b, x1b), a), c);
        let d = fp2_add_v(d_half, d_half);
        let e = fp2_add_v(fp2_add_v(a, a), a);
        let f = fp2_mul_v(e, e);
        let x3 = fp2_sub_v(f, fp2_add_v(d, d));
        let c2 = fp2_add_v(c, c);
        let c4 = fp2_add_v(c2, c2);
        let c8 = fp2_add_v(c4, c4);
        let y3 = fp2_sub_v(fp2_mul_v(e, fp2_sub_v(d, x3)), c8);
        let yz = fp2_mul_v(p.y, p.z);
        let z3 = fp2_add_v(yz, yz);
        G2V { x: x3, y: y3, z: z3 }
    }
}

/// The general Jacobian addition formula, with the degenerate cases
/// resolved first: either argument at infinity returns the other; equal
/// points double; mutual inverses return infinity.
pub open spec fn g2_add_v(p: G2V, q: G2V) -> G2V {
    if g2_is_inf_v(p) {
        q
    } else if g2_is_inf_v(q) {
        p
    } else {
        let z1z1 = fp2_mul_v(p.z, p.z);
        let z2z2 = fp2_mul_v(q.z, q.z);
        let u1 = fp2_mul_v(p.x, z2z2);
        let u2 = fp2_mul_v(q.x, z1z1);
        let s1 = fp2_mul_v(fp2_mul_v(p.y, q.z), z2z2);
        let s2 = fp2_mul_v(fp2_mul_v(q.y, p.z), z1z1);
        if u1 == u2 {
            if s1 == s2 {
                g2_double_v(p)
            } else {
                g2_infinity_v()
            }
        } else {
            let h = fp2_sub_v(u2, u1);
            let two_h = fp2_add_v(h, h);
            let i = fp2_mul_v(two_h, two_h);
            let j = fp2_mul_v(h, i);
            let s_diff = fp2_sub_v(s2, s1);
            let r = fp2_add_v(s_diff, s_diff);
            let vv = fp2_mul_v(u1, i);
            let x3 = fp2_sub_v(fp2_sub_v(fp2_mul_v(r, r), j), fp2_add_v(vv, vv));
            let s1j = fp2_mul_v(s1, j);
            let y3 = fp2_sub_v(fp2_mul_v(r, fp2_sub_v(vv, x3)), fp2_add_v(s1j, s1j));
            let zs = fp2_add_v(p.z, q.z);
            let z3 = fp2_mul_v(fp2_sub_v(fp2_sub_v(fp2_mul_v(zs, zs), z1z1), z2z2), h);
            G2V { x: x3, y: y3, z: z3 }
        }
    }
}

/// Least-significant-bit-first double-and-add accumulation.
pub open spec fn g2_mul_tail_v(acc: G2V, base: G2V, s: nat) -> G2V
    decreases s,
{
    if s == 0 {
        acc
    } else {
        g2_mul_tail_v(
            if s % 2 == 1 {
                g2_add_v(acc, base)
            } else {
                acc
            },
            g2_double_v(base),
            s / 2,
        )
    }
}

/// The scalar multiple `s * p`.
pub open spec fn g2_mul_v(s: nat, p: G2V) -> G2V {
    g2_mul_tail_v(g2_infinity_v(), p, s)
}

// ------------------------------------------------------------------
// Group facts.
// ------------------------------------------------------------------

/// Infinity is the identity of point addition, on either side. A point
/// whose `z` is zero is itself treated as infinity by the addition, so
/// on that side the statement holds after affine normalization.
pub proof fn lemma_g2_add_infinity(p: G2V)
    ensures
        g2_add_v(g2_infinity_v(), p) == p,
        !g2_is_inf_v(p) ==> g2_add_v(p, g2_infinity_v()) == p,
        g2_affine_v(g2_add_v(p, g2_infinity_v())) == g2_affine_v(p),
{
}

/// Adding a point to itself takes the doubling branch.
pub proof fn lemma_g2_add_self(p: G2V)
    ensures
        g2_add_v(p, p) == g2_double_v(p),
{
}

/// Small scalar multiples: `0 * p` is infinity, `1 * p` is `p` itself,
/// and `2 * p` is the double, which equals `p + p`.
pub proof fn lemma_g2_mul_small(p: G2V)
    ensures
        g2_mul_v(0, p) == g2_infinity_v(),
        g2_mul_v(1, p) == p,
        g2_mul_v(2, p) == g2_add_v(p, p),
{
    reveal_with_fuel(g2_mul_tail_v, 3);
    lemma_g2_add_infinity(p);
    lemma_g2_add_infinity(g2_double_v(p));
    lemma_g2_add_self(p);
}

/// The twist coefficient is well defined: `9 + i` is invertible.
pub proof fn lemma_xi_invertible()
    ensures
        fp2_invertible_v(fp2_xi_v()),
        fp2_norm_v(fp2_xi_v()) == 82,
{
    lemma_fp_red_small(81);
    lemma_fp_red_small(1);
    lemma_fp_red_small(82);
    let w: nat = 7207104360239761353666499452706663748717078063988307791373219794578306190631nat;
    assert((82nat * w) % fp_modulus() == 1);
    assert(fp_invertible(82));
}

/// The twist coefficient is not zero.
pub proof fn lemma_g2_b_nonzero()
    ensures
        g2_b_v() != fp2_zero_v(),
        fp2_wf_v(g2_b_v()),
{
    lemma_xi_invertible();
    // The twist coefficient satisfies b' * (9 + i) == (3, 0), which the
    // zero element cannot.
    crate::fp2::lemma_fp2_inv_wf(fp2_xi_v());
    crate::fp2::lemma_fp2_mul_inv(fp2_xi_v());
    crate::fp2::lemma_fp2_mul_comm(fp2_inv_v(fp2_xi_v()), fp2_xi_v());
    crate::fp2::lemma_fp2_mul_assoc(
        (Fp2V { c0: 3, c1: 0 }),
        fp2_inv_v(fp2_xi_v()),
        fp2_xi_v(),
    );
    crate::fp2::lemma_fp2_mul_one((Fp2V { c0: 3, c1: 0 }));
    assert(fp2_mul_v(g2_b_v(), fp2_xi_v()) == (Fp2V { c0: 3, c1: 0 }));
    if g2_b_v() == fp2_zero_v() {
        lemma_fp2_mul_zero(fp2_xi_v());
        assert(false);
    }
    crate::fp2::lemma_fp2_mul_wf((Fp2V { c0: 3, c1: 0 }), fp2_inv_v(fp2_xi_v()));
}

/// Infinity lies on the curve.
pub proof fn lemma_g2_infinity_on_curve()
    ensures
        g2_on_curve_v(g2_infinity_v()),
{
}

/// A point given by affine coordinates (`z = 1`) lies on the curve
/// exactly when its coordinates satisfy the twist equation.
pub proof fn lemma_g2_affine_on_curve(x: Fp2V, y: Fp2V)
    requires
        fp2_wf_v(x),
        fp2_wf_v(y),
    ensures
        g2_on_curve_v((G2V { x, y, z: fp2_one_v() })) == (fp2_mul_v(y, y) == fp2_add_v(
            fp2_mul_v(fp2_mul_v(x, x), x),
            g2_b_v(),
        )),
{
    let one = fp2_one_v();
    assert(fp2_invertible_v(one) && fp2_norm_v(one) == 1) by {
        lemma_fp_red_small(1);
        lemma_fp_red_small(0);
        assert((1nat * 1nat) % fp_modulus() == 1);
        assert(fp_invertible(1));
    }
    assert(fp2_inv_v(one) == one) by {
        lemma_fp_red_small(1);
        lemma_fp_red_small(0);
        lemma_fp_inv_value(1, 1);
    }
    crate::fp2::lemma_fp2_mul_one(one);
    crate::fp2::lemma_fp2_mul_one(x);
    crate::fp2::lemma_fp2_mul_one(y);
    assert(!g2_is_inf_v((G2V { x, y, z: one })));
}

// ------------------------------------------------------------------
// Executable representation.
// ------------------------------------------------------------------

/// A point of the second group in Jacobian coordinates.
#[derive(Debug)]
pub struct G2 {
    pub x: Fp2,
    pub y: Fp2,
    pub z: Fp2,
}

impl View for G2 {
    type V = G2V;

    open spec fn view(&self) -> G2V {
        G2V { x: self.x@, y: self.y@, z: self.z@ }
    }
}

impl G2 {
    pub open spec fn wf(&self) -> bool {
        g2_wf_v(self@)
    }

    /// The point at infinity `(0, 1, 0)`.
    pub fn infinity() -> (r: Self)
        ensures
            r@ == g2_infinity_v(),
            r.wf(),
    {
        G2 { x: Fp2::zero(), y: Fp2::one(), z: Fp2::zero() }
    }

    /// Whether this is the point at infinity, by the zero-test on both
    /// coordinates of `z`.
    pub fn is_infinity(&self) -> (r: bool)
        ensures
            r == g2_is_inf_v(self@),
    {
        self.z.c0.is_zero() && self.z.c1.is_zero()
    }

    /// Affine coordinates `(X/Z^2, Y/Z^3)`, with `(0, 0)` for infinity.
    /// Returns `None` exactly when `z` is nonzero yet has no inverse,
    /// which cannot happen for a point built over the prime field.
    pub fn to_affine(&self) -> (r: Option<(Fp2, Fp2)>)
        requires
            self.wf(),
        ensures
            r matches Some(a) ==> (a.0@, a.1@) == g2_affine_v(self@) && a.0.wf() && a.1.wf(),
            r is Some <==> (g2_is_inf_v(self@) || fp2_invertible_v(self@.z)),
    {
        if self.is_infinity() {
            return Some((Fp2::zero(), Fp2::zero()));
        }
        match self.z.inv() {
            Some(zi) => {
                let zi2 = zi.mul(&zi);
                let zi3 = zi2.mul(&zi);
                Some((self.x.mul(&zi2), self.y.mul(&zi3)))
            },
            None => None,
        }
    }

    /// The twist coefficient `b' = 3 / (9 + i)`.
    fn get_b() -> (r: Fp2)
        ensures
            r@ == g2_b_v(),
            r.wf(),
    {
        let nine_plus_u = Fp2::new(Fp::from_u64(9), Fp::from_u64(1));
        proof {
            lemma_xi_invertible();
        }
        match nine_plus_u.inv() {
            Some(inv) => {
                let three = Fp2::new(Fp::from_u64(3), Fp::zero());
                three.mul(&inv)
            },
            None => unreached(),
        }
    }

    /// Whether the point satisfies the twist equation after affine
    /// normalization; infinity counts as on the curve.
    pub fn is_on_curve(&self) -> (r: bool)
        requires
            self.wf(),
        ensures
            r == g2_on_curve_v(self@),
    {
        if self.is_infinity() {
            return true;
        }
        match self.to_affine() {
            Some(a) => {
                let b = Self::get_b();
                let y2 = a.1.mul(&a.1);
                let x3 = a.0.mul(&a.0).mul(&a.0);
                let rhs = x3.add(&b);
                y2 == rhs
            },
            None => {
                proof {
                    lemma_g2_junk_not_on_curve(self@);
                }
                false
            },
        }
    }

    /// Jacobian point doubling; infinity is returned unchanged.
    pub fn double(&self) -> (r: Self)
        requires
            self.wf(),
        ensures
            r@ == g2_double_v(self@),
            r.wf(),
    {
        if self.is_infinity() {
            return self.clone();
        }
        let a = self.x.mul(&self.x);
        let b = self.y.mul(&self.y);
        let c = b.mul(&b);
        let x1_plus_b = self.x.add(&b);
        let d_half = x1_plus_b.mul(&x1_plus_b).sub(&a).sub(&c);
        let d = d_half.add(&d_half);
        let e = a.add(&a).add(&a);
        let f = e.mul(&e);
        let x3 = f.sub(&d.add(&d));
        let c2 = c.add(&c);
        let c4 = c2.add(&c2);
        let eight_c = c4.add(&c4);
        let y3 = e.mul(&d.sub(&x3)).sub(&eight_c);
        let yz = self.y.mul(&self.z);
        let z3 = yz.add(&yz);
        G2 { x: x3, y: y3, z: z3 }
    }

    /// Jacobian point addition with the degenerate cases resolved first.
    pub fn add(&self, other: &Self) -> (r: Self)
        requires
            self.wf(),
            other.wf(),
        ensures
            r@ == g2_add_v(self@, other@),
            r.wf(),
    {
        if self.is_infinity() {
            return other.clone();
        }
        if other.is_infinity() {
            return self.clone();
        }
        let z1z1 = self.z.mul(&self.z);
        let z2z2 = other.z.mul(&other.z);
        let u1 = self.x.mul(&z2z2);
        let u2 = other.x.mul(&z1z1);
        let s1 = self.y.mul(&other.z).mul(&z2z2);
        let s2 = other.y.mul(&self.z).mul(&z1z1);
        if u1 == u2 {
            if s1 == s2 {
                return self.double();
            } else {
                return Self::infinity();
            }
        }
        let h = u2.sub(&u1);
        let two_h = h.add(&h);
        let i = two_h.mul(&two_h);
        let j = h.mul(&i);
        let s_diff = s2.sub(&s1);
        let r = s_diff.add(&s_diff);
        let vv = u1.mul(&i);
        let x3 = r.mul(&r).sub(&j).sub(&vv.add(&vv));
        let s1j = s1.mul(&j);
        let y3 = r.mul(&vv.sub(&x3)).sub(&s1j.add(&s1j));
        let z1_plus_z2 = self.z.add(&other.z);
        let z3 = z1_plus_z2.mul(&z1_plus_z2).sub(&z1z1).sub(&z2z2).mul(&h);
        G2 { x: x3, y: y3, z: z3 }
    }

    /// Scalar multiplication by double-and-add over the scalar's bits,
    /// least significant first.
    pub fn mul_scalar(&self, scalar: &BigUint) -> (r: Self)
        requires
            self.wf(),
        ensures
            r@ == g2_mul_v(big_value(*scalar), self@),
            r.wf(),
    {
        let mut res = Self::infinity();
        let mut base = self.clone();
        let mut s = big_clone(scalar);
        while !big_is_zero(&s)
            invariant
                res.wf(),
                base.wf(),
                g2_mul_tail_v(res@, base@, big_value(s)) == g2_mul_v(big_value(*scalar), self@),
            decreases big_value(s),
        {
            if big_is_odd(&s) {
                res = res.add(&base);
            }
            base = base.double();
            s = big_shr1(&s);
        }
        res
    }
}

/// A nonzero `z` without an inverse normalizes to `(0, 0)`, which does
/// not satisfy the twist equation because `b'` is nonzero.
proof fn lemma_g2_junk_not_on_curve(p: G2V)
    requires
        g2_wf_v(p),
        !g2_is_inf_v(p),
        !fp2_invertible_v(p.z),
    ensures
        !g2_on_curve_v(p),
{
    lemma_fp_red_small(0);
    let zi = fp2_inv_v(p.z);
    assert(fp_inv_v(fp2_norm_v(p.z)) == 0);
    assert(zi == fp2_zero_v());
    lemma_fp2_mul_zero(zi);
    let zi2 = fp2_mul_v(zi, zi);
    let zi3 = fp2_mul_v(zi2, zi);
    lemma_fp2_mul_zero(p.x);
    lemma_fp2_mul_zero(p.y);
    let a = g2_affine_v(p);
    assert(a.0 == fp2_zero_v() && a.1 == fp2_zero_v());
    lemma_fp2_mul_zero(fp2_zero_v());
    lemma_g2_b_nonzero();
    assert(fp2_add_v(fp2_zero_v(), g2_b_v()) == g2_b_v()) by {
        crate::fp2::lemma_fp2_add_comm(fp2_zero_v(), g2_b_v());
        crate::fp2::lemma_fp2_add_zero(g2_b_v());
    }
}

impl Clone for G2 {
    /// The copy holds the same point.
    fn clone(&self) -> (r: Self)
        ensures
            r@ == self@,
    {
        G2 { x: self.x.clone(), y: self.y.clone(), z: self.z.clone() }
    }
}

impl PartialEq for G2 {
    /// Componentwise equality of the Jacobian coordinates.
    fn eq(&self, other: &Self) -> (r: bool)
        ensures
            r == (self@ == other@),
    {
        self.x == other.x && self.y == other.y && self.z == other.z
    }
}

impl vstd::std_specs::cmp::PartialEqSpecImpl for G2 {
    open spec fn obeys_eq_spec() -> bool {
        true
    }

    open spec fn eq_spec(&self, other: &Self) -> bool {
        self@ == other@
    }
}

} // verus!
