//! The ate pairing: Miller loop over the fixed loop parameter with sparse
//! line evaluations, followed by the easy/hard final exponentiation into
//! the pairing's target subgroup.
use vstd::prelude::*;
use num_bigint::BigUint;
use crate::bigint::{big_from_u128, big_from_u64, big_value};
use crate::fp::{fp_invertible, fp_modulus, Fp};
use crate::fp2::{
    fp2_add_v, fp2_inv_v, fp2_invertible_v, fp2_mul_v, fp2_neg_v, fp2_scale_v, fp2_sub_v,
    fp2_zero_v, Fp2, Fp2V,
};
use crate::fp6::{fp6_zero_v, Fp6, Fp6V};
use crate::fp12::{
    fp12_conj_v, fp12_frobk_v, fp12_inv_v, fp12_invertible_v, fp12_mul_v, fp12_one_v,
    fp12_pow_v, Fp12, Fp12V,
};
use crate::g1::{g1_affine_v, g1_is_inf_v, g1_mul_v, G1, G1V};
use crate::g2::{g2_add_v, g2_affine_v, g2_double_v, g2_is_inf_v, g2_mul_v, G2, G2V};

verus! {

/// The ate loop parameter: `6u^2`, where `u` is the curve's defining
/// parameter. The Miller function is accumulated over its bits.
pub open spec fn ate_loop_count() -> nat {
    147946756881789318990833708069417712966nat
}

/// The curve's defining parameter `u`, driving the hard part of the
/// final exponentiation.
pub open spec fn bn_u() -> nat {
    4965661367192848881nat
}

/// The fixed parameters of the pairing engine: the ate loop count and
/// the base-field prime. Built once and immutable afterwards.
pub struct CurveParameters {
    pub ate_loop_count: u128,
    pub modulus: BigUint,
}

impl CurveParameters {
    pub open spec fn wf(&self) -> bool {
        self.ate_loop_count as nat == ate_loop_count() && big_value(self.modulus)
            == fp_modulus()
    }

    /// The parameters of this curve family.
    pub fn new() -> (r: Self)
        ensures
            r.wf(),
    {
        CurveParameters {
            ate_loop_count: 147946756881789318990833708069417712966u128,
            modulus: crate::fp::modulus_big(),
        }
    }
}

// ------------------------------------------------------------------
// Line evaluation.
// ------------------------------------------------------------------

/// A line with twist slope `lam` through the twist point `(rx, ry)`,
/// evaluated at the group-1 point `(px, py)` and embedded sparsely:
/// `py - (lam px) w + (lam rx - ry) w^3`.
#[verifier::opaque]
pub open spec fn line_from_slope_v(lam: Fp2V, rx: Fp2V, ry: Fp2V, px: nat, py: nat) -> Fp12V {
    Fp12V {
        c0: Fp6V {
            c0: Fp2V { c0: py, c1: 0 },
            c1: fp2_zero_v(),
            c2: fp2_zero_v(),
        },
        c1: Fp6V {
            c0: fp2_neg_v(fp2_scale_v(lam, px)),
            c1: fp2_sub_v(fp2_mul_v(lam, rx), ry),
            c2: fp2_zero_v(),
        },
    }
}

/// The line through the twist points `(rx, ry)` and `(qx, qy)` evaluated
/// at `(px, py)`: the chord for distinct abscissae, the tangent for an
/// equal point with nonzero ordinate, and the vertical `px - rx w^2`
/// otherwise.
#[verifier::opaque]
pub open spec fn line_eval_v(rx: Fp2V, ry: Fp2V, qx: Fp2V, qy: Fp2V, px: nat, py: nat) -> Fp12V {
    if rx != qx {
        let lam = fp2_mul_v(fp2_sub_v(qy, ry), fp2_inv_v(fp2_sub_v(qx, rx)));
        line_from_slope_v(lam, rx, ry, px, py)
    } else if ry == qy && ry != fp2_zero_v() {
        let lam = fp2_mul_v(fp2_scale_v(fp2_mul_v(rx, rx), 3), fp2_inv_v(fp2_add_v(ry, ry)));
        line_from_slope_v(lam, rx, ry, px, py)
    } else {
        Fp12V {
            c0: Fp6V {
                c0: Fp2V { c0: px, c1: 0 },
                c1: fp2_neg_v(rx),
                c2: fp2_zero_v(),
            },
            c1: fp6_zero_v(),
        }
    }
}

/// Whether the line evaluation is defined: in the chord and tangent
/// branches the slope's denominator must be invertible; the vertical
/// branch always is.
pub open spec fn line_ok_v(rx: Fp2V, ry: Fp2V, qx: Fp2V, qy: Fp2V) -> bool {
    if rx != qx {
        fp2_invertible_v(fp2_sub_v(qx, rx))
    } else if ry == qy && ry != fp2_zero_v() {
        fp2_invertible_v(fp2_add_v(ry, ry))
    } else {
        true
    }
}

// ------------------------------------------------------------------
// Miller loop.
// ------------------------------------------------------------------

/// The Miller accumulation over the bits of `n`, most significant first:
/// the recursive descent on `n / 2` handles the leading bits, then the
/// state is extended by one doubling step, plus one addition step when
/// the lowest bit of `n` is set. The pair holds the accumulator `f` and
/// the running point `R`; the base case `n <= 1` is `(1, Q)`.
#[verifier::opaque]
pub open spec fn miller_rec_v(px: nat, py: nat, qx: Fp2V, qy: Fp2V, q: G2V, n: nat) -> (
    Fp12V,
    G2V,
)
    decreases n,
{
    if n <= 1 {
        (fp12_one_v(), q)
    } else {
        let s = miller_rec_v(px, py, qx, qy, q, n / 2);
        let ra = g2_affine_v(s.1);
        let f1 = fp12_mul_v(fp12_mul_v(s.0, s.0), line_eval_v(ra.0, ra.1, ra.0, ra.1, px, py));
        let r1 = g2_double_v(s.1);
        if n % 2 == 1 {
            let r1a = g2_affine_v(r1);
            (fp12_mul_v(f1, line_eval_v(r1a.0, r1a.1, qx, qy, px, py)), g2_add_v(r1, q))
        } else {
            (f1, r1)
        }
    }
}

/// Whether every step of the Miller descent on `n` is defined: at each
/// level the running point normalizes (it is at infinity or its `z` is
/// invertible) and the line slopes exist, for the tangent step always
/// and for the chord step when the lowest bit of `n` is set.
#[verifier::opaque]
pub open spec fn miller_rec_ok_v(px: nat, py: nat, qx: Fp2V, qy: Fp2V, q: G2V, n: nat) -> bool
    decreases n,
{
    if n <= 1 {
        true
    } else {
        let s = miller_rec_v(px, py, qx, qy, q, n / 2);
        let ra = g2_affine_v(s.1);
        let r1 = g2_double_v(s.1);
        let r1a = g2_affine_v(r1);
        miller_rec_ok_v(px, py, qx, qy, q, n / 2) && (g2_is_inf_v(s.1) || fp2_invertible_v(
            s.1.z,
        )) && line_ok_v(ra.0, ra.1, ra.0, ra.1) && (n % 2 == 1 ==> ((g2_is_inf_v(r1)
            || fp2_invertible_v(r1.z)) && line_ok_v(r1a.0, r1a.1, qx, qy)))
    }
}

/// Whether the whole Miller computation is defined: both inputs
/// normalize and every descent step is defined. Infinity inputs skip
/// the loop and always succeed.
#[verifier::opaque]
pub open spec fn miller_ok_v(p: G1V, q: G2V) -> bool {
    if g1_is_inf_v(p) || g2_is_inf_v(q) {
        true
    } else {
        let pa = g1_affine_v(p);
        let qa = g2_affine_v(q);
        fp_invertible(p.z) && fp2_invertible_v(q.z) && miller_rec_ok_v(
            pa.0,
            pa.1,
            qa.0,
            qa.1,
            q,
            ate_loop_count(),
        )
    }
}

/// The Miller function `f_{T,Q}(P)` for the ate loop count `T`; the
/// multiplicative identity when either input is at infinity.
#[verifier::opaque]
pub open spec fn miller_loop_v(p: G1V, q: G2V) -> Fp12V {
    if g1_is_inf_v(p) || g2_is_inf_v(q) {
        fp12_one_v()
    } else {
        let pa = g1_affine_v(p);
        let qa = g2_affine_v(q);
        miller_rec_v(pa.0, pa.1, qa.0, qa.1, q, ate_loop_count()).0
    }
}

// ------------------------------------------------------------------
// Final exponentiation.
// ------------------------------------------------------------------

/// The easy part `f^((p^6 - 1)(p^2 + 1))`: Frobenius six times, invert,
/// multiply, Frobenius twice, multiply again.
#[verifier::opaque]
pub open spec fn final_exp_easy_v(f: Fp12V) -> Fp12V {
    let f1 = fp12_mul_v(fp12_frobk_v(f, 6), fp12_inv_v(f));
    fp12_mul_v(fp12_frobk_v(f1, 2), f1)
}

/// The hard part `m^((p^4 - p^2 + 1) / r)`: a fixed multiplication and
/// squaring chain over powers of `u`, Frobenius images, and conjugates
/// (which invert inside the cyclotomic subgroup the easy part lands in).
#[verifier::opaque]
pub open spec fn final_exp_hard_v(m: Fp12V) -> Fp12V {
    let fx = fp12_pow_v(m, bn_u());
    let fx2 = fp12_pow_v(fx, bn_u());
    let fx3 = fp12_pow_v(fx2, bn_u());
    let fp1 = fp12_frobk_v(m, 1);
    let fp2 = fp12_frobk_v(m, 2);
    let fp3 = fp12_frobk_v(m, 3);
    let fxp = fp12_frobk_v(fx, 1);
    let fx2p = fp12_frobk_v(fx2, 1);
    let fx3p = fp12_frobk_v(fx3, 1);
    let fx2p2 = fp12_frobk_v(fx2, 2);
    let y0 = fp12_mul_v(fp12_mul_v(fp1, fp2), fp3);
    let y1 = fp12_conj_v(m);
    let y2 = fx2p2;
    let y3 = fp12_conj_v(fxp);
    let y4 = fp12_conj_v(fp12_mul_v(fx, fx2p));
    let y5 = fp12_conj_v(fx2);
    let y6 = fp12_conj_v(fp12_mul_v(fx3, fx3p));
    let t0a = fp12_mul_v(fp12_mul_v(fp12_mul_v(y6, y6), y4), y5);
    let t1a = fp12_mul_v(fp12_mul_v(y3, y5), t0a);
    let t0b = fp12_mul_v(t0a, y2);
    let t1b = fp12_mul_v(fp12_mul_v(t1a, t1a), t0b);
    let t1c = fp12_mul_v(t1b, t1b);
    let t0c = fp12_mul_v(t1c, y1);
    let t1d = fp12_mul_v(t1c, y0);
    let t0d = fp12_mul_v(t0c, t0c);
    fp12_mul_v(t0d, t1d)
}

/// The full final exponentiation to `(p^12 - 1) / r`.
#[verifier::opaque]
pub open spec fn final_exp_v(f: Fp12V) -> Fp12V {
    final_exp_hard_v(final_exp_easy_v(f))
}

/// The ate pairing of `p` and `q`: the multiplicative identity when
/// either input is at infinity, else the Miller function raised to the
/// final exponent.
#[verifier::opaque]
pub open spec fn pairing_v(p: G1V, q: G2V) -> Fp12V {
    if g1_is_inf_v(p) || g2_is_inf_v(q) {
        fp12_one_v()
    } else {
        final_exp_v(miller_loop_v(p, q))
    }
}

/// Whether the whole pairing computation is defined: the Miller
/// computation succeeds and its output is invertible for the final
/// exponentiation. Infinity inputs always succeed.
#[verifier::opaque]
pub open spec fn pairing_ok_v(p: G1V, q: G2V) -> bool {
    if g1_is_inf_v(p) || g2_is_inf_v(q) {
        true
    } else {
        miller_ok_v(p, q) && fp12_invertible_v(miller_loop_v(p, q))
    }
}

/// Pairing degeneracy: either input at infinity yields the identity.
pub proof fn lemma_pairing_degenerate(p: G1V, q: G2V)
    ensures
        g1_is_inf_v(p) ==> pairing_v(p, q) == fp12_one_v(),
        g2_is_inf_v(q) ==> pairing_v(p, q) == fp12_one_v(),
{
    reveal(pairing_v);
}

// ------------------------------------------------------------------
// Executable pairing engine.
// ------------------------------------------------------------------

/// The sparse embedding of a slope-form line evaluation.
fn line_from_slope(lam: &Fp2, rx: &Fp2, ry: &Fp2, px: &Fp, py: &Fp) -> (r: Fp12)
    requires
        lam.wf(),
        rx.wf(),
        ry.wf(),
        px.wf(),
        py.wf(),
    ensures
        r@ == line_from_slope_v(lam@, rx@, ry@, px@, py@),
        r.wf(),
{
    proof {
        reveal(line_from_slope_v);
    }
    let c00 = Fp2::new(py.clone(), Fp::zero());
    let a1 = lam.scale(px).neg();
    let a3 = lam.mul(rx).sub(ry);
    Fp12::new(
        Fp6::new(c00, Fp2::zero(), Fp2::zero()),
        Fp6::new(a1, a3, Fp2::zero()),
    )
}

/// Line evaluation for the Miller loop. Returns `None` exactly when the
/// slope's denominator has no inverse, which cannot happen for distinct
/// or non-two-torsion points over the prime field.
fn line_eval(rx: &Fp2, ry: &Fp2, qx: &Fp2, qy: &Fp2, px: &Fp, py: &Fp) -> (r: Option<Fp12>)
    requires
        rx.wf(),
        ry.wf(),
        qx.wf(),
        qy.wf(),
        px.wf(),
        py.wf(),
    ensures
        (r is Some <==> line_ok_v(rx@, ry@, qx@, qy@)),
        r matches Some(l) ==> l@ == line_eval_v(rx@, ry@, qx@, qy@, px@, py@) && l.wf(),
{
    proof {
        reveal(line_eval_v);
    }
    if !(rx == qx) {
        let d = qx.sub(rx);
        match d.inv() {
            Some(di) => {
                let lam = qy.sub(ry).mul(&di);
                Some(line_from_slope(&lam, rx, ry, px, py))
            },
            None => None,
        }
    } else if ry == qy && !ry.is_zero() {
        let two_y = ry.add(ry);
        match two_y.inv() {
            Some(di) => {
                let lam = rx.mul(rx).scale(&Fp::from_u64(3)).mul(&di);
                Some(line_from_slope(&lam, rx, ry, px, py))
            },
            None => None,
        }
    } else {
        let c00 = Fp2::new(px.clone(), Fp::zero());
        Some(Fp12::new(Fp6::new(c00, rx.neg(), Fp2::zero()), Fp6::zero()))
    }
}

/// The recursive Miller descent over the bits of `n`, most significant
/// first. Returns `None` when a line slope or an affine normalization
/// fails, which cannot happen along the orbit of a true curve point.
#[verifier::rlimit(50)]
fn miller_rec(px: &Fp, py: &Fp, qx: &Fp2, qy: &Fp2, q: &G2, n: u128) -> (r: Option<(Fp12, G2)>)
    requires
        px.wf(),
        py.wf(),
        qx.wf(),
        qy.wf(),
        q.wf(),
    ensures
        (r is Some <==> miller_rec_ok_v(px@, py@, qx@, qy@, q@, n as nat)),
        r matches Some(v) ==> (v.0@, v.1@) == miller_rec_v(px@, py@, qx@, qy@, q@, n as nat)
            && v.0.wf() && v.1.wf(),
    decreases n,
{
    proof {
        reveal_with_fuel(miller_rec_v, 2);
        reveal_with_fuel(miller_rec_ok_v, 2);
    }
    if n <= 1 {
        return Some((Fp12::one(), q.clone()));
    }
    let prev = match miller_rec(px, py, qx, qy, q, n / 2) {
        Some(v) => v,
        None => {
            return None;
        },
    };
    let (f, r) = prev;
    let ra = match r.to_affine() {
        Some(a) => a,
        None => {
            return None;
        },
    };
    let l1 = match line_eval(&ra.0, &ra.1, &ra.0, &ra.1, px, py) {
        Some(l) => l,
        None => {
            return None;
        },
    };
    let f1 = f.mul(&f).mul(&l1);
    let r1 = r.double();
    if n % 2 == 1 {
        let r1a = match r1.to_affine() {
            Some(a) => a,
            None => {
                return None;
            },
        };
        let l2 = match line_eval(&r1a.0, &r1a.1, qx, qy, px, py) {
            Some(l) => l,
            None => {
                return None;
            },
        };
        let f2 = f1.mul(&l2);
        let r2 = r1.add(q);
        Some((f2, r2))
    } else {
        Some((f1, r1))
    }
}

/// The Miller function `f_{T,Q}(P)` over the fixed ate loop count,
/// accumulating a line evaluation per doubling and per addition step.
/// Either input at infinity yields the identity at once. Succeeds
/// exactly when every normalization and line slope along the descent
/// is defined, which holds for true curve points.
pub fn miller_loop(p: &G1, q: &G2) -> (r: Option<Fp12>)
    requires
        p.wf(),
        q.wf(),
    ensures
        (r is Some <==> miller_ok_v(p@, q@)),
        g1_is_inf_v(p@) || g2_is_inf_v(q@) ==> (r matches Some(f) && f@ == fp12_one_v()),
        r matches Some(f) ==> f@ == miller_loop_v(p@, q@) && f.wf(),
{
    proof {
        reveal(miller_loop_v);
        reveal(miller_ok_v);
    }
    if p.is_infinity() || q.is_infinity() {
        return Some(Fp12::one());
    }
    let params = CurveParameters::new();
    let pa = match p.to_affine() {
        Some(a) => a,
        None => {
            return None;
        },
    };
    let qa = match q.to_affine() {
        Some(a) => a,
        None => {
            return None;
        },
    };
    match miller_rec(&pa.0, &pa.1, &qa.0, &qa.1, q, params.ate_loop_count) {
        Some(v) => Some(v.0),
        None => None,
    }
}

/// The final exponentiation to `(p^12 - 1) / r`, as the easy part
/// followed by the fixed hard-part chain. Returns `None` exactly when
/// the input is not invertible; in particular zero is rejected.
pub fn final_exponentiation(f: &Fp12) -> (r: Option<Fp12>)
    requires
        f.wf(),
    ensures
        r is Some <==> fp12_invertible_v(f@),
        r matches Some(v) ==> v@ == final_exp_v(f@) && v.wf(),
{
    proof {
        reveal(final_exp_easy_v);
        reveal(final_exp_hard_v);
        reveal(final_exp_v);
    }
    let f_p6 = f.frobenius_map(6);
    let f_inv = match f.inv() {
        Some(v) => v,
        None => {
            return None;
        },
    };
    let f1 = f_p6.mul(&f_inv);
    let f1_p2 = f1.frobenius_map(2);
    let m = f1_p2.mul(&f1);

    let u_big = big_from_u64(4965661367192848881u64);
    let fx = m.pow(&u_big);
    let fx2 = fx.pow(&u_big);
    let fx3 = fx2.pow(&u_big);
    let fp1 = m.frobenius_map(1);
    let fp2 = m.frobenius_map(2);
    let fp3 = m.frobenius_map(3);
    let fxp = fx.frobenius_map(1);
    let fx2p = fx2.frobenius_map(1);
    let fx3p = fx3.frobenius_map(1);
    let fx2p2 = fx2.frobenius_map(2);
    let y0 = fp1.mul(&fp2).mul(&fp3);
    let y1 = m.conjugate();
    let y2 = fx2p2;
    let y3 = fxp.conjugate();
    let y4 = fx.mul(&fx2p).conjugate();
    let y5 = fx2.conjugate();
    let y6 = fx3.mul(&fx3p).conjugate();
    let t0a = y6.mul(&y6).mul(&y4).mul(&y5);
    let t1a = y3.mul(&y5).mul(&t0a);
    let t0b = t0a.mul(&y2);
    let t1b = t1a.mul(&t1a).mul(&t0b);
    let t1c = t1b.mul(&t1b);
    let t0c = t1c.mul(&y1);
    let t1d = t1c.mul(&y0);
    let t0d = t0c.mul(&t0c);
    Some(t0d.mul(&t1d))
}

/// The ate pairing `e(P, Q)`: a pure function of its two inputs into the
/// degree-12 extension. Either input at infinity yields the identity and
/// skips the remaining stages. Succeeds exactly when the Miller
/// computation is defined and its output invertible; both hold for true
/// curve points, so equal inputs always yield equal outcomes.
pub fn pairing(p: &G1, q: &G2) -> (r: Option<Fp12>)
    requires
        p.wf(),
        q.wf(),
    ensures
        (r is Some <==> pairing_ok_v(p@, q@)),
        g1_is_inf_v(p@) || g2_is_inf_v(q@) ==> (r matches Some(v) && v@ == fp12_one_v()),
        r matches Some(v) ==> v@ == pairing_v(p@, q@) && v.wf(),
{
    proof {
        reveal(pairing_v);
        reveal(pairing_ok_v);
    }
    if p.is_infinity() || q.is_infinity() {
        return Some(Fp12::one());
    }
    let f = match miller_loop(p, q) {
        Some(f) => f,
        None => {
            return None;
        },
    };
    final_exponentiation(&f)
}

/// Bilinearity self-check: true exactly when both pairings are defined
/// and `e(aP, bQ) == e(P, Q)^(ab)` over the mathematical model.
pub fn check_bilinearity(p: &G1, q: &G2, a: u128, b: u128) -> (r: bool)
    requires
        p.wf(),
        q.wf(),
        a * b <= u128::MAX,
    ensures
        r == (pairing_ok_v(g1_mul_v(a as nat, p@), g2_mul_v(b as nat, q@)) && pairing_ok_v(
            p@,
            q@,
        ) && pairing_v(g1_mul_v(a as nat, p@), g2_mul_v(b as nat, q@)) == fp12_pow_v(
            pairing_v(p@, q@),
            (a * b) as nat,
        )),
{
    let ap = p.mul_u128(a);
    let bq = q.mul_scalar(&big_from_u128(b));
    let e_ab = match pairing(&ap, &bq) {
        Some(v) => v,
        None => {
            return false;
        },
    };
    let e_pq = match pairing(p, q) {
        Some(v) => v,
        None => {
            return false;
        },
    };
    let ab = a * b;
    let e_pq_ab = e_pq.pow(&big_from_u128(ab));
    e_ab == e_pq_ab
}

} // verus!
