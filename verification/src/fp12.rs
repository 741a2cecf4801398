//! The degree-12 extension: elements `c0 + c1*w` over the cubic layer with
//! `w^2 = v`, so `w` is a square root of the element adjoined below.
//! Carries the Frobenius endomorphism and exponentiation used by the
//! pairing's final exponentiation.
use vstd::prelude::*;
use num_bigint::BigUint;
use crate::bigint::{big_clone, big_is_odd, big_is_zero, big_shr1, big_value};
use crate::fp::{lemma_limbs_val, limbs_val, Fp};
use crate::fp2::{fp2_conj_v, fp2_mul_v, fp2_zero_v, lemma_fp2_mul_zero, Fp2, Fp2V};
use crate::fp6::{
    fp2_mulxi_v, fp6_add_v, fp6_inv_v, fp6_invertible_v, fp6_mul_v, fp6_neg_v, fp6_one_v,
    fp6_sub_v, fp6_wf_v, fp6_zero_v, lemma_fp2_mulxi_add, lemma_fp6_add_comm,
    lemma_fp6_add_exchange, lemma_fp6_add_zero, lemma_fp6_distrib, lemma_fp6_mul_comm,
    lemma_fp6_mul_one, lemma_fp6_mul_wf, lemma_fp6_mul_zero, Fp6, Fp6V,
};

verus! {

/// Mathematical model of a degree-12 element.
pub ghost struct Fp12V {
    pub c0: Fp6V,
    pub c1: Fp6V,
}

pub open spec fn fp12_wf_v(a: Fp12V) -> bool {
    fp6_wf_v(a.c0) && fp6_wf_v(a.c1)
}

pub open spec fn fp12_zero_v() -> Fp12V {
    Fp12V { c0: fp6_zero_v(), c1: fp6_zero_v() }
}

pub open spec fn fp12_one_v() -> Fp12V {
    Fp12V { c0: fp6_one_v(), c1: fp6_zero_v() }
}

/// Multiplication of a cubic-layer element by `v`: a coefficient rotation
/// that sends `(c0, c1, c2)` to `(xi * c2, c0, c1)`.
pub open spec fn fp6_mulnr_v(a: Fp6V) -> Fp6V {
    Fp6V { c0: fp2_mulxi_v(a.c2), c1: a.c0, c2: a.c1 }
}

pub open spec fn fp12_add_v(a: Fp12V, b: Fp12V) -> Fp12V {
    Fp12V { c0: fp6_add_v(a.c0, b.c0), c1: fp6_add_v(a.c1, b.c1) }
}

pub open spec fn fp12_sub_v(a: Fp12V, b: Fp12V) -> Fp12V {
    Fp12V { c0: fp6_sub_v(a.c0, b.c0), c1: fp6_sub_v(a.c1, b.c1) }
}

pub open spec fn fp12_neg_v(a: Fp12V) -> Fp12V {
    Fp12V { c0: fp6_neg_v(a.c0), c1: fp6_neg_v(a.c1) }
}

/// Schoolbook product under `w^2 = v`:
/// `(a0 + a1 w)(b0 + b1 w) = (a0 b0 + v a1 b1) + (a0 b1 + a1 b0) w`.
pub open spec fn fp12_mul_v(a: Fp12V, b: Fp12V) -> Fp12V {
    Fp12V {
        c0: fp6_add_v(fp6_mul_v(a.c0, b.c0), fp6_mulnr_v(fp6_mul_v(a.c1, b.c1))),
        c1: fp6_add_v(fp6_mul_v(a.c0, b.c1), fp6_mul_v(a.c1, b.c0)),
    }
}

/// Conjugation over the cubic layer: `(a0 + a1 w)* = a0 - a1 w`.
pub open spec fn fp12_conj_v(a: Fp12V) -> Fp12V {
    Fp12V { c0: a.c0, c1: fp6_neg_v(a.c1) }
}

/// The norm-like scalar `a0^2 - v a1^2` of the inversion formula.
pub open spec fn fp12_res_v(a: Fp12V) -> Fp6V {
    fp6_sub_v(fp6_mul_v(a.c0, a.c0), fp6_mulnr_v(fp6_mul_v(a.c1, a.c1)))
}

pub open spec fn fp12_invertible_v(a: Fp12V) -> bool {
    fp6_invertible_v(fp12_res_v(a))
}

/// The inverse `(a0 - a1 w) / (a0^2 - v a1^2)`.
pub open spec fn fp12_inv_v(a: Fp12V) -> Fp12V {
    Fp12V {
        c0: fp6_mul_v(a.c0, fp6_inv_v(fp12_res_v(a))),
        c1: fp6_mul_v(fp6_neg_v(a.c1), fp6_inv_v(fp12_res_v(a))),
    }
}

// ------------------------------------------------------------------
// Frobenius endomorphism.
// ------------------------------------------------------------------

/// The Frobenius coefficients `xi^(i (p - 1) / 6)` for `i = 1 .. 5`.
pub open spec fn frob_g1_v() -> Fp2V {
    Fp2V {
        c0: 8376118865763821496583973867626364092589906065868298776909617916018768340080nat,
        c1: 16469823323077808223889137241176536799009286646108169935659301613961712198316nat,
    }
}

pub open spec fn frob_g2_v() -> Fp2V {
    Fp2V {
        c0: 21575463638280843010398324269430826099269044274347216827212613867836435027261nat,
        c1: 10307601595873709700152284273816112264069230130616436755625194854815875713954nat,
    }
}

pub open spec fn frob_g3_v() -> Fp2V {
    Fp2V {
        c0: 2821565182194536844548159561693502659359617185244120367078079554186484126554nat,
        c1: 3505843767911556378687030309984248845540243509899259641013678093033130930403nat,
    }
}

pub open spec fn frob_g4_v() -> Fp2V {
    Fp2V {
        c0: 2581911344467009335267311115468803099551665605076196740867805258568234346338nat,
        c1: 19937756971775647987995932169929341994314640652964949448313374472400716661030nat,
    }
}

pub open spec fn frob_g5_v() -> Fp2V {
    Fp2V {
        c0: 685108087231508774477564247770172212460312782337200605669322048753928464687nat,
        c1: 8447204650696766136447902020341177575205426561248465145919723016860428151883nat,
    }
}

/// One application of the Frobenius endomorphism: conjugate every
/// quadratic coefficient and scale the coefficient of `w^i` by the
/// precomputed `xi^(i (p - 1) / 6)`.
pub open spec fn fp12_frob1_v(f: Fp12V) -> Fp12V {
    Fp12V {
        c0: Fp6V {
            c0: fp2_conj_v(f.c0.c0),
            c1: fp2_mul_v(fp2_conj_v(f.c0.c1), frob_g2_v()),
            c2: fp2_mul_v(fp2_conj_v(f.c0.c2), frob_g4_v()),
        },
        c1: Fp6V {
            c0: fp2_mul_v(fp2_conj_v(f.c1.c0), frob_g1_v()),
            c1: fp2_mul_v(fp2_conj_v(f.c1.c1), frob_g3_v()),
            c2: fp2_mul_v(fp2_conj_v(f.c1.c2), frob_g5_v()),
        },
    }
}

/// `power` applications of the Frobenius endomorphism, raising to `p^power`.
pub open spec fn fp12_frobk_v(f: Fp12V, k: nat) -> Fp12V
    decreases k,
{
    if k == 0 {
        f
    } else {
        fp12_frobk_v(fp12_frob1_v(f), (k - 1) as nat)
    }
}

// ------------------------------------------------------------------
// Exponentiation.
// ------------------------------------------------------------------

/// Least-significant-bit-first double-and-add accumulation.
pub open spec fn fp12_pow_tail_v(acc: Fp12V, base: Fp12V, e: nat) -> Fp12V
    decreases e,
{
    if e == 0 {
        acc
    } else {
        fp12_pow_tail_v(
            if e % 2 == 1 {
                fp12_mul_v(acc, base)
            } else {
                acc
            },
            fp12_mul_v(base, base),
            e / 2,
        )
    }
}

/// `f` raised to the natural number `e`.
pub open spec fn fp12_pow_v(f: Fp12V, e: nat) -> Fp12V {
    fp12_pow_tail_v(fp12_one_v(), f, e)
}

// ------------------------------------------------------------------
// Field laws of the degree-12 layer.
// ------------------------------------------------------------------

/// Addition is commutative.
pub proof fn lemma_fp12_add_comm(a: Fp12V, b: Fp12V)
    ensures
        fp12_add_v(a, b) == fp12_add_v(b, a),
{
    lemma_fp6_add_comm(a.c0, b.c0);
    lemma_fp6_add_comm(a.c1, b.c1);
}

/// Addition is associative.
pub proof fn lemma_fp12_add_assoc(a: Fp12V, b: Fp12V, c: Fp12V)
    ensures
        fp12_add_v(fp12_add_v(a, b), c) == fp12_add_v(a, fp12_add_v(b, c)),
{
    crate::fp6::lemma_fp6_add_assoc(a.c0, b.c0, c.c0);
    crate::fp6::lemma_fp6_add_assoc(a.c1, b.c1, c.c1);
}

/// Zero is the additive identity.
pub proof fn lemma_fp12_add_zero(a: Fp12V)
    requires
        fp12_wf_v(a),
    ensures
        fp12_add_v(a, fp12_zero_v()) == a,
{
    lemma_fp6_add_zero(a.c0);
    lemma_fp6_add_zero(a.c1);
}

/// Multiplication is commutative.
pub proof fn lemma_fp12_mul_comm(a: Fp12V, b: Fp12V)
    ensures
        fp12_mul_v(a, b) == fp12_mul_v(b, a),
{
    lemma_fp6_mul_comm(a.c0, b.c0);
    lemma_fp6_mul_comm(a.c1, b.c1);
    lemma_fp6_mul_comm(a.c0, b.c1);
    lemma_fp6_mul_comm(a.c1, b.c0);
    lemma_fp6_add_comm(fp6_mul_v(b.c1, a.c0), fp6_mul_v(b.c0, a.c1));
}

/// One is the multiplicative identity on reduced elements.
pub proof fn lemma_fp12_mul_one(a: Fp12V)
    requires
        fp12_wf_v(a),
    ensures
        fp12_mul_v(a, fp12_one_v()) == a,
{
    lemma_fp6_mul_one(a.c0);
    lemma_fp6_mul_one(a.c1);
    lemma_fp6_mul_zero(a.c0);
    lemma_fp6_mul_zero(a.c1);
    lemma_fp6_mulnr_zero();
    lemma_fp6_add_zero(a.c0);
    lemma_fp6_add_comm(fp6_zero_v(), a.c1);
    lemma_fp6_add_zero(a.c1);
}

/// Multiplication by `v` distributes over addition.
pub proof fn lemma_fp6_mulnr_add(x: Fp6V, y: Fp6V)
    requires
        fp6_wf_v(x),
        fp6_wf_v(y),
    ensures
        fp6_mulnr_v(fp6_add_v(x, y)) == fp6_add_v(fp6_mulnr_v(x), fp6_mulnr_v(y)),
{
    lemma_fp2_mulxi_add(x.c2, y.c2);
}

/// Multiplication distributes over addition on reduced elements.
pub proof fn lemma_fp12_distrib(a: Fp12V, b: Fp12V, c: Fp12V)
    requires
        fp12_wf_v(a),
        fp12_wf_v(b),
        fp12_wf_v(c),
    ensures
        fp12_mul_v(a, fp12_add_v(b, c)) == fp12_add_v(fp12_mul_v(a, b), fp12_mul_v(a, c)),
{
    lemma_fp6_distrib(a.c0, b.c0, c.c0);
    lemma_fp6_distrib(a.c1, b.c1, c.c1);
    lemma_fp6_distrib(a.c0, b.c1, c.c1);
    lemma_fp6_distrib(a.c1, b.c0, c.c0);
    let ab00 = fp6_mul_v(a.c0, b.c0);
    let ac00 = fp6_mul_v(a.c0, c.c0);
    let ab11 = fp6_mul_v(a.c1, b.c1);
    let ac11 = fp6_mul_v(a.c1, c.c1);
    lemma_fp6_mul_wf(a.c1, b.c1);
    lemma_fp6_mul_wf(a.c1, c.c1);
    lemma_fp6_mulnr_add(ab11, ac11);
    lemma_fp6_add_exchange(ab00, ac00, fp6_mulnr_v(ab11), fp6_mulnr_v(ac11));
    lemma_fp6_add_exchange(
        fp6_mul_v(a.c0, b.c1),
        fp6_mul_v(a.c0, c.c1),
        fp6_mul_v(a.c1, b.c0),
        fp6_mul_v(a.c1, c.c0),
    );
}

/// Multiplication by `v` annihilates zero.
pub proof fn lemma_fp6_mulnr_zero()
    ensures
        fp6_mulnr_v(fp6_zero_v()) == fp6_zero_v(),
{
    lemma_fp2_mul_zero(crate::fp6::fp2_xi_v());
    crate::fp2::lemma_fp2_mul_comm(fp2_zero_v(), crate::fp6::fp2_xi_v());
}

// ------------------------------------------------------------------
// Executable representation.
// ------------------------------------------------------------------

/// An element `c0 + c1*w` of the degree-12 extension.
#[derive(Debug)]
pub struct Fp12 {
    pub c0: Fp6,
    pub c1: Fp6,
}

impl View for Fp12 {
    type V = Fp12V;

    open spec fn view(&self) -> Fp12V {
        Fp12V { c0: self.c0@, c1: self.c1@ }
    }
}

impl Fp12 {
    pub open spec fn wf(&self) -> bool {
        fp12_wf_v(self@)
    }

    pub fn new(c0: Fp6, c1: Fp6) -> (r: Self)
        ensures
            r@ == (Fp12V { c0: c0@, c1: c1@ }),
    {
        Fp12 { c0, c1 }
    }

    /// The additive identity.
    pub fn zero() -> (r: Self)
        ensures
            r@ == fp12_zero_v(),
            r.wf(),
    {
        Fp12 { c0: Fp6::zero(), c1: Fp6::zero() }
    }

    /// The multiplicative identity.
    pub fn one() -> (r: Self)
        ensures
            r@ == fp12_one_v(),
            r.wf(),
    {
        Fp12 { c0: Fp6::one(), c1: Fp6::zero() }
    }

    /// The element `v` adjoined by this layer as a square.
    #[allow(dead_code)]
    fn non_residue() -> (r: Fp6)
        ensures
            r@ == (Fp6V { c0: fp2_zero_v(), c1: crate::fp2::fp2_one_v(), c2: fp2_zero_v() }),
            r.wf(),
    {
        Fp6::new(crate::fp2::Fp2::zero(), crate::fp2::Fp2::one(), crate::fp2::Fp2::zero())
    }

    /// Multiplication of a cubic-layer element by `v`: rotate the
    /// coefficients and scale the one that wraps around by `xi`.
    fn mul_by_non_residue(a: &Fp6) -> (r: Fp6)
        requires
            a.wf(),
        ensures
            r@ == fp6_mulnr_v(a@),
            r.wf(),
    {
        Fp6::new(Fp6::mul_by_non_residue(&a.c2), a.c0.clone(), a.c1.clone())
    }

    /// Componentwise addition.
    pub fn add(&self, rhs: &Fp12) -> (r: Self)
        requires
            self.wf(),
            rhs.wf(),
        ensures
            r@ == fp12_add_v(self@, rhs@),
            r.wf(),
    {
        Fp12 { c0: self.c0.add(&rhs.c0), c1: self.c1.add(&rhs.c1) }
    }

    /// Componentwise subtraction.
    pub fn sub(&self, rhs: &Fp12) -> (r: Self)
        requires
            self.wf(),
            rhs.wf(),
        ensures
            r@ == fp12_sub_v(self@, rhs@),
            r.wf(),
    {
        Fp12 { c0: self.c0.sub(&rhs.c0), c1: self.c1.sub(&rhs.c1) }
    }

    /// Componentwise negation.
    pub fn neg(&self) -> (r: Self)
        requires
            self.wf(),
        ensures
            r@ == fp12_neg_v(self@),
            r.wf(),
    {
        Fp12 { c0: self.c0.neg(), c1: self.c1.neg() }
    }

    /// Product under `w^2 = v` with four cubic-layer multiplications.
    pub fn mul(&self, rhs: &Fp12) -> (r: Self)
        requires
            self.wf(),
            rhs.wf(),
        ensures
            r@ == fp12_mul_v(self@, rhs@),
            r.wf(),
    {
        let a0_b0 = self.c0.mul(&rhs.c0);
        let a1_b1 = self.c1.mul(&rhs.c1);
        let a0_b1 = self.c0.mul(&rhs.c1);
        let a1_b0 = self.c1.mul(&rhs.c0);
        Fp12 {
            c0: a0_b0.add(&Self::mul_by_non_residue(&a1_b1)),
            c1: a0_b1.add(&a1_b0),
        }
    }

    /// Conjugation over the cubic layer.
    pub fn conjugate(&self) -> (r: Self)
        requires
            self.wf(),
        ensures
            r@ == fp12_conj_v(self@),
            r.wf(),
    {
        Fp12 { c0: self.c0.clone(), c1: self.c1.neg() }
    }

    /// Multiplicative inverse `(a0 - a1 w) / (a0^2 - v a1^2)`. Returns
    /// `None` exactly when the norm-like scalar has no cubic-layer
    /// inverse; in particular, inverting zero is an error.
    pub fn inv(&self) -> (r: Option<Self>)
        requires
            self.wf(),
        ensures
            r is Some <==> fp12_invertible_v(self@),
            r matches Some(v) ==> v@ == fp12_inv_v(self@) && v.wf(),
            self@ == fp12_zero_v() ==> r is None,
    {
        let c0_sq = self.c0.mul(&self.c0);
        let c1_sq = self.c1.mul(&self.c1);
        let t = c0_sq.sub(&Self::mul_by_non_residue(&c1_sq));
        proof {
            if self@ == fp12_zero_v() {
                lemma_fp6_mul_zero(fp6_zero_v());
                lemma_fp6_mulnr_zero();
                lemma_fp6_sub_self_zero();
            }
        }
        match t.inv() {
            Some(ti) => {
                let r0 = self.c0.mul(&ti);
                let r1 = self.c1.neg().mul(&ti);
                Some(Fp12 { c0: r0, c1: r1 })
            },
            None => None,
        }
    }

    /// One application of the Frobenius endomorphism.
    fn frobenius_once(&self) -> (r: Self)
        requires
            self.wf(),
        ensures
            r@ == fp12_frob1_v(self@),
            r.wf(),
    {
        let (g1, g2, g3, g4, g5) = frobenius_coefficients();
        Fp12 {
            c0: Fp6::new(
                self.c0.c0.conjugate(),
                self.c0.c1.conjugate().mul(&g2),
                self.c0.c2.conjugate().mul(&g4),
            ),
            c1: Fp6::new(
                self.c1.c0.conjugate().mul(&g1),
                self.c1.c1.conjugate().mul(&g3),
                self.c1.c2.conjugate().mul(&g5),
            ),
        }
    }

    /// The Frobenius endomorphism iterated `power` times, raising the
    /// element to `p^power` by coefficient scaling rather than by a
    /// large exponentiation.
    pub fn frobenius_map(&self, power: usize) -> (r: Self)
        requires
            self.wf(),
        ensures
            r@ == fp12_frobk_v(self@, power as nat),
            r.wf(),
    {
        let mut r = self.clone();
        let mut i: usize = 0;
        while i < power
            invariant
                i <= power,
                r.wf(),
                fp12_frobk_v(r@, (power - i) as nat) == fp12_frobk_v(self@, power as nat),
            decreases power - i,
        {
            r = r.frobenius_once();
            i = i + 1;
        }
        r
    }

    /// Exponentiation by an arbitrary-precision exponent,
    /// least-significant-bit-first double-and-add.
    pub fn pow(&self, exp: &BigUint) -> (r: Self)
        requires
            self.wf(),
        ensures
            r@ == fp12_pow_v(self@, big_value(*exp)),
            r.wf(),
    {
        let mut res = Self::one();
        let mut base = self.clone();
        let mut e = big_clone(exp);
        while !big_is_zero(&e)
            invariant
                res.wf(),
                base.wf(),
                fp12_pow_tail_v(res@, base@, big_value(e)) == fp12_pow_v(self@, big_value(*exp)),
            decreases big_value(e),
        {
            if big_is_odd(&e) {
                res = res.mul(&base);
            }
            base = base.mul(&base);
            e = big_shr1(&e);
        }
        res
    }
}

/// Subtracting any element from itself yields zero.
proof fn lemma_fp6_sub_self_zero()
    ensures
        fp6_sub_v(fp6_zero_v(), fp6_zero_v()) == fp6_zero_v(),
{
    crate::fp::lemma_fp_red_small(0);
}

/// The five Frobenius coefficients as runtime elements.
fn frobenius_coefficients() -> (r: (Fp2, Fp2, Fp2, Fp2, Fp2))
    ensures
        r.0@ == frob_g1_v() && r.0.wf(),
        r.1@ == frob_g2_v() && r.1.wf(),
        r.2@ == frob_g3_v() && r.2.wf(),
        r.3@ == frob_g4_v() && r.3.wf(),
        r.4@ == frob_g5_v() && r.4.wf(),
{
    proof {
        lemma_limbs_val(15423480562983756912, 6652412619979170166, 16769610461022161760, 1334392721173227487);
        lemma_limbs_val(14581793986494816940, 8392900422778406885, 11975771789798476686, 2623794231377586150);
        lemma_limbs_val(11088870908804158781, 13226160682434769676, 5479733118184829251, 3437169660107756023);
        lemma_limbs_val(1613930359396748194, 3651902652079185358, 5450706350010664852, 1642095672556236320);
        lemma_limbs_val(15876315988453495642, 15828711151707445656, 15879347695360604601, 449501266848708060);
        lemma_limbs_val(9427018508834943203, 2414067704922266578, 505728791003885355, 558513134835401882);
        lemma_limbs_val(9550480412176721762, 15218619680543796338, 9291982349918543492, 411322207813150721);
        lemma_limbs_val(13923800814728216870, 3928778152882390883, 11473624495072943250, 3176267935786044142);
        lemma_limbs_val(3360468246954731823, 4781773437820083155, 16805804752481107956, 109144015201994313);
        lemma_limbs_val(2650008764942134347, 12718389207422085824, 11709273573250211709, 1345717340070545013);
    }
    let g1 = Fp2::new(
        Fp::from_limbs(15423480562983756912, 6652412619979170166, 16769610461022161760, 1334392721173227487),
        Fp::from_limbs(14581793986494816940, 8392900422778406885, 11975771789798476686, 2623794231377586150),
    );
    let g2 = Fp2::new(
        Fp::from_limbs(11088870908804158781, 13226160682434769676, 5479733118184829251, 3437169660107756023),
        Fp::from_limbs(1613930359396748194, 3651902652079185358, 5450706350010664852, 1642095672556236320),
    );
    let g3 = Fp2::new(
        Fp::from_limbs(15876315988453495642, 15828711151707445656, 15879347695360604601, 449501266848708060),
        Fp::from_limbs(9427018508834943203, 2414067704922266578, 505728791003885355, 558513134835401882),
    );
    let g4 = Fp2::new(
        Fp::from_limbs(9550480412176721762, 15218619680543796338, 9291982349918543492, 411322207813150721),
        Fp::from_limbs(13923800814728216870, 3928778152882390883, 11473624495072943250, 3176267935786044142),
    );
    let g5 = Fp2::new(
        Fp::from_limbs(3360468246954731823, 4781773437820083155, 16805804752481107956, 109144015201994313),
        Fp::from_limbs(2650008764942134347, 12718389207422085824, 11709273573250211709, 1345717340070545013),
    );
    (g1, g2, g3, g4, g5)
}

impl Clone for Fp12 {
    /// The copy holds the same element.
    fn clone(&self) -> (r: Self)
        ensures
            r@ == self@,
    {
        Fp12 { c0: self.c0.clone(), c1: self.c1.clone() }
    }
}

impl PartialEq for Fp12 {
    /// Equality of the held elements.
    fn eq(&self, other: &Self) -> (r: bool)
        ensures
            r == (self@ == other@),
    {
        self.c0 == other.c0 && self.c1 == other.c1
    }
}

impl vstd::std_specs::cmp::PartialEqSpecImpl for Fp12 {
    open spec fn obeys_eq_spec() -> bool {
        true
    }

    open spec fn eq_spec(&self, other: &Self) -> bool {
        self@ == other@
    }
}

} // verus!
