//! The first curve group: points on `y^2 = x^3 + 3` over the base field,
//! held in Jacobian coordinates `(X, Y, Z)` with affine `x = X/Z^2`,
//! `y = Y/Z^3`; the point at infinity has `Z = 0`.
use vstd::prelude::*;
use crate::fp::{
    fp_add_v, fp_inv_v, fp_invertible, fp_mul_v, fp_sub_v, lemma_fp_red_small, Fp,
    fp_modulus,
};

verus! {

/// Mathematical model of a Jacobian point over the base field.
pub ghost struct G1V {
    pub x: nat,
    pub y: nat,
    pub z: nat,
}

pub open spec fn g1_wf_v(p: G1V) -> bool {
    p.x < fp_modulus() && p.y < fp_modulus() && p.z < fp_modulus()
}

pub open spec fn g1_infinity_v() -> G1V {
    G1V { x: 0, y: 1, z: 0 }
}

pub open spec fn g1_is_inf_v(p: G1V) -> bool {
    p.z == 0
}

/// Affine coordinates: `(0, 0)` for infinity, else `(X/Z^2, Y/Z^3)`.
pub open spec fn g1_affine_v(p: G1V) -> (nat, nat) {
    if g1_is_inf_v(p) {
        (0nat, 0nat)
    } else {
        let zi = fp_inv_v(p.z);
        let zi2 = fp_mul_v(zi, zi);
        let zi3 = fp_mul_v(zi2, zi);
        (fp_mul_v(p.x, zi2), fp_mul_v(p.y, zi3))
    }
}

/// Whether the affine form satisfies `y^2 = x^3 + 3`; infinity counts
/// as on the curve.
pub open spec fn g1_on_curve_v(p: G1V) -> bool {
    if g1_is_inf_v(p) {
        true
    } else {
        let a = g1_affine_v(p);
        fp_mul_v(a.1, a.1) == fp_add_v(fp_mul_v(fp_mul_v(a.0, a.0), a.0), 3)
    }
}

/// The standard Jacobian doubling formula sequence; infinity is returned
/// unchanged.
pub open spec fn g1_double_v(p: G1V) -> G1V {
    if g1_is_inf_v(p) {
        p
    } else {
        let a = fp_mul_v(p.x, p.x);
        let b = fp_mul_v(p.y, p.y);
        let c = fp_mul_v(b, b);
        let x1b = fp_add_v(p.x, b);
        let d_half = fp_sub_v(fp_sub_v(fp_mul_v(x1b, x1b), a), c);
        let d = fp_add_v(d_half, d_half);
        let e = fp_add_v(fp_add_v(a, a), a);
        let f = fp_mul_v(e, e);
        let x3 = fp_sub_v(f, fp_add_v(d, d));
        let c2 = fp_add_v(c, c);
        let c4 = fp_add_v(c2, c2);
        let c8 = fp_add_v(c4, c4);
        let y3 = fp_sub_v(fp_mul_v(e, fp_sub_v(d, x3)), c8);
        let yz = fp_mul_v(p.y, p.z);
        let z3 = fp_add_v(yz, yz);
        G1V { x: x3, y: y3, z: z3 }
    }
}

/// The general Jacobian addition formula, with the degenerate cases
/// resolved first.
pub open spec fn g1_add_v(p: G1V, q: G1V) -> G1V {
    if g1_is_inf_v(p) {
        q
    } else if g1_is_inf_v(q) {
        p
    } else {
        let z1z1 = fp_mul_v(p.z, p.z);
        let z2z2 = fp_mul_v(q.z, q.z);
        let u1 = fp_mul_v(p.x, z2z2);
        let u2 = fp_mul_v(q.x, z1z1);
        let s1 = fp_mul_v(fp_mul_v(p.y, q.z), z2z2);
        let s2 = fp_mul_v(fp_mul_v(q.y, p.z), z1z1);
        if u1 == u2 {
            if s1 == s2 {
                g1_double_v(p)
            } else {
                g1_infinity_v()
            }
        } else {
            let h = fp_sub_v(u2, u1);
            let two_h = fp_add_v(h, h);
            let i = fp_mul_v(two_h, two_h);
            let j = fp_mul_v(h, i);
            let s_diff = fp_sub_v(s2, s1);
            let r = fp_add_v(s_diff, s_diff);
            let vv = fp_mul_v(u1, i);
            let x3 = fp_sub_v(fp_sub_v(fp_mul_v(r, r), j), fp_add_v(vv, vv));
            let s1j = fp_mul_v(s1, j);
            let y3 = fp_sub_v(fp_mul_v(r, fp_sub_v(vv, x3)), fp_add_v(s1j, s1j));
            let zs = fp_add_v(p.z, q.z);
            let z3 = fp_mul_v(fp_sub_v(fp_sub_v(fp_mul_v(zs, zs), z1z1), z2z2), h);
            G1V { x: x3, y: y3, z: z3 }
        }
    }
}

/// Least-significant-bit-first double-and-add accumulation.
pub open spec fn g1_mul_tail_v(acc: G1V, base: G1V, s: nat) -> G1V
    decreases s,
{
    if s == 0 {
        acc
    } else {
        g1_mul_tail_v(
            if s % 2 == 1 {
                g1_add_v(acc, base)
            } else {
                acc
            },
            g1_double_v(base),
            s / 2,
        )
    }
}

/// The scalar multiple `s * p`.
pub open spec fn g1_mul_v(s: nat, p: G1V) -> G1V {
    g1_mul_tail_v(g1_infinity_v(), p, s)
}

// ------------------------------------------------------------------
// Group facts.
// ------------------------------------------------------------------

/// Infinity is the identity of point addition, on either side. A point
/// whose `z` is zero is itself treated as infinity by the addition, so
/// on that side the statement holds after affine normalization.
pub proof fn lemma_g1_add_infinity(p: G1V)
    ensures
        g1_add_v(g1_infinity_v(), p) == p,
        !g1_is_inf_v(p) ==> g1_add_v(p, g1_infinity_v()) == p,
        g1_affine_v(g1_add_v(p, g1_infinity_v())) == g1_affine_v(p),
{
}

/// Adding a point to itself takes the doubling branch.
pub proof fn lemma_g1_add_self(p: G1V)
    ensures
        g1_add_v(p, p) == g1_double_v(p),
{
}

/// Small scalar multiples: `0 * p` is infinity, `1 * p` is `p` itself,
/// and `2 * p` is the double, which equals `p + p`.
pub proof fn lemma_g1_mul_small(p: G1V)
    ensures
        g1_mul_v(0, p) == g1_infinity_v(),
        g1_mul_v(1, p) == p,
        g1_mul_v(2, p) == g1_add_v(p, p),
{
    reveal_with_fuel(g1_mul_tail_v, 3);
    lemma_g1_add_infinity(p);
    lemma_g1_add_infinity(g1_double_v(p));
    lemma_g1_add_self(p);
}

/// Infinity lies on the curve.
pub proof fn lemma_g1_infinity_on_curve()
    ensures
        g1_on_curve_v(g1_infinity_v()),
{
}

/// A point given by affine coordinates (`z = 1`) lies on the curve
/// exactly when its coordinates satisfy the curve equation.
pub proof fn lemma_g1_affine_on_curve(x: nat, y: nat)
    requires
        x < fp_modulus(),
        y < fp_modulus(),
    ensures
        g1_on_curve_v((G1V { x, y, z: 1 })) == (fp_mul_v(y, y) == fp_add_v(
            fp_mul_v(fp_mul_v(x, x), x),
            3,
        )),
{
    assert(fp_invertible(1) && fp_inv_v(1) == 1) by {
        lemma_fp_red_small(1);
        assert((1nat * 1nat) % fp_modulus() == 1);
        assert(fp_invertible(1));
        crate::fp::lemma_fp_inv_value(1, 1);
    }
    crate::fp::lemma_fp_mul_one(1);
    crate::fp::lemma_fp_mul_one(x);
    crate::fp::lemma_fp_mul_one(y);
}

// ------------------------------------------------------------------
// Executable representation.
// ------------------------------------------------------------------

/// A point of the first group in Jacobian coordinates.
#[derive(Debug)]
pub struct G1 {
    pub x: Fp,
    pub y: Fp,
    pub z: Fp,
}

impl View for G1 {
    type V = G1V;

    open spec fn view(&self) -> G1V {
        G1V { x: self.x@, y: self.y@, z: self.z@ }
    }
}

impl G1 {
    pub open spec fn wf(&self) -> bool {
        g1_wf_v(self@)
    }

    /// The point at infinity `(0, 1, 0)`.
    pub fn infinity() -> (r: Self)
        ensures
            r@ == g1_infinity_v(),
            r.wf(),
    {
        G1 { x: Fp::zero(), y: Fp::one(), z: Fp::zero() }
    }

    /// Whether this is the point at infinity, by the zero-test on the
    /// reduced integer value of `z`.
    pub fn is_infinity(&self) -> (r: bool)
        ensures
            r == g1_is_inf_v(self@),
    {
        self.z.is_zero()
    }

    /// Affine coordinates `(X/Z^2, Y/Z^3)`, with `(0, 0)` for infinity.
    /// Returns `None` exactly when `z` is nonzero yet has no inverse,
    /// which cannot happen for a reduced representative of the prime field.
    pub fn to_affine(&self) -> (r: Option<(Fp, Fp)>)
        requires
            self.wf(),
        ensures
            r matches Some(a) ==> (a.0@, a.1@) == g1_affine_v(self@) && a.0.wf() && a.1.wf(),
            r is Some <==> (g1_is_inf_v(self@) || fp_invertible(self@.z)),
    {
        if self.is_infinity() {
            return Some((Fp::zero(), Fp::zero()));
        }
        match self.z.inv() {
            Some(zi) => {
                let zi2 = zi.mul(&zi);
                let zi3 = zi2.mul(&zi);
                Some((self.x.mul(&zi2), self.y.mul(&zi3)))
            },
            None => None,
        }
    }

    /// Whether the point satisfies `y^2 = x^3 + 3` after affine
    /// normalization; infinity counts as on the curve.
    pub fn is_on_curve(&self) -> (r: bool)
        requires
            self.wf(),
        ensures
            r == g1_on_curve_v(self@),
    {
        if self.is_infinity() {
            return true;
        }
        match self.to_affine() {
            Some(a) => {
                let b = Fp::from_u64(3);
                let y2 = a.1.mul(&a.1);
                let x3 = a.0.mul(&a.0).mul(&a.0);
                let rhs = x3.add(&b);
                y2 == rhs
            },
            None => {
                proof {
                    lemma_g1_junk_not_on_curve(self@);
                }
                false
            },
        }
    }

    /// Jacobian point doubling; infinity is returned unchanged.
    pub fn double(&self) -> (r: Self)
        requires
            self.wf(),
        ensures
            r@ == g1_double_v(self@),
            r.wf(),
    {
        if self.is_infinity() {
            return self.clone();
        }
        let a = self.x.mul(&self.x);
        let b = self.y.mul(&self.y);
        let c = b.mul(&b);
        let x1_plus_b = self.x.add(&b);
        let d_half = x1_plus_b.mul(&x1_plus_b).sub(&a).sub(&c);
        let d = d_half.add(&d_half);
        let e = a.add(&a).add(&a);
        let f = e.mul(&e);
        let x3 = f.sub(&d.add(&d));
        let c2 = c.add(&c);
        let c4 = c2.add(&c2);
        let eight_c = c4.add(&c4);
        let y3 = e.mul(&d.sub(&x3)).sub(&eight_c);
        let yz = self.y.mul(&self.z);
        let z3 = yz.add(&yz);
        G1 { x: x3, y: y3, z: z3 }
    }

    /// Jacobian point addition with the degenerate cases resolved first.
    pub fn add(&self, other: &Self) -> (r: Self)
        requires
            self.wf(),
            other.wf(),
        ensures
            r@ == g1_add_v(self@, other@),
            r.wf(),
    {
        if self.is_infinity() {
            return other.clone();
        }
        if other.is_infinity() {
            return self.clone();
        }
        let z1z1 = self.z.mul(&self.z);
        let z2z2 = other.z.mul(&other.z);
        let u1 = self.x.mul(&z2z2);
        let u2 = other.x.mul(&z1z1);
        let s1 = self.y.mul(&other.z).mul(&z2z2);
        let s2 = other.y.mul(&self.z).mul(&z1z1);
        if u1 == u2 {
            if s1 == s2 {
                return self.double();
            } else {
                return Self::infinity();
            }
        }
        let h = u2.sub(&u1);
        let two_h = h.add(&h);
        let i = two_h.mul(&two_h);
        let j = h.mul(&i);
        let s_diff = s2.sub(&s1);
        let r = s_diff.add(&s_diff);
        let vv = u1.mul(&i);
        let x3 = r.mul(&r).sub(&j).sub(&vv.add(&vv));
        let s1j = s1.mul(&j);
        let y3 = r.mul(&vv.sub(&x3)).sub(&s1j.add(&s1j));
        let z1_plus_z2 = self.z.add(&other.z);
        let z3 = z1_plus_z2.mul(&z1_plus_z2).sub(&z1z1).sub(&z2z2).mul(&h);
        G1 { x: x3, y: y3, z: z3 }
    }

    /// Scalar multiplication by double-and-add over the scalar's bits,
    /// least significant first.
    pub fn mul_u128(&self, scalar: u128) -> (r: Self)
        requires
            self.wf(),
        ensures
            r@ == g1_mul_v(scalar as nat, self@),
            r.wf(),
    {
        let mut res = Self::infinity();
        let mut base = self.clone();
        let mut s = scalar;
        while s > 0
            invariant
                res.wf(),
                base.wf(),
                g1_mul_tail_v(res@, base@, s as nat) == g1_mul_v(scalar as nat, self@),
            decreases s,
        {
            if s % 2 == 1 {
                res = res.add(&base);
            }
            base = base.double();
            s = s / 2;
        }
        res
    }
}

/// A nonzero `z` without an inverse normalizes to `(0, 0)`, which does
/// not satisfy the curve equation.
proof fn lemma_g1_junk_not_on_curve(p: G1V)
    requires
        g1_wf_v(p),
        !g1_is_inf_v(p),
        !fp_invertible(p.z),
    ensures
        !g1_on_curve_v(p),
{
    lemma_fp_red_small(0);
    lemma_fp_red_small(3);
    assert(fp_inv_v(p.z) == 0);
    let zi2 = fp_mul_v(0, 0);
    assert(zi2 == 0);
    assert(fp_mul_v(zi2, 0) == 0);
    assert(fp_mul_v(p.x, 0) == 0 && fp_mul_v(p.y, 0) == 0) by {
        assert(p.x * 0 == 0 && p.y * 0 == 0) by (nonlinear_arith);
        lemma_fp_red_small(0);
    }
    assert(g1_affine_v(p) == (0nat, 0nat));
    assert(fp_mul_v(0, 0) == 0);
    assert(fp_add_v(0, 3) == 3);
}

impl Clone for G1 {
    /// The copy holds the same point.
    fn clone(&self) -> (r: Self)
        ensures
            r@ == self@,
    {
        G1 { x: self.x.clone(), y: self.y.clone(), z: self.z.clone() }
    }
}

impl PartialEq for G1 {
    /// Componentwise equality of the Jacobian coordinates.
    fn eq(&self, other: &Self) -> (r: bool)
        ensures
            r == (self@ == other@),
    {
        self.x == other.x && self.y == other.y && self.z == other.z
    }
}

impl vstd::std_specs::cmp::PartialEqSpecImpl for G1 {
    open spec fn obeys_eq_spec() -> bool {
        true
    }

    open spec fn eq_spec(&self, other: &Self) -> bool {
        self@ == other@
    }
}

} // verus!
