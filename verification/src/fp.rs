//! The base prime field: canonical representatives in `[0, p)` for the
//! 254-bit curve prime `p`, carried by `num_bigint` and specified exactly
//! over the held natural numbers.
use vstd::prelude::*;
use vstd::arithmetic::div_mod::{
    lemma_add_mod_noop, lemma_add_mod_noop_right, lemma_mod_add_multiples_vanish,
    lemma_mod_bound, lemma_mul_mod_noop_general, lemma_mul_mod_noop_left,
    lemma_mul_mod_noop_right, lemma_small_mod,
    lemma_sub_mod_noop,
};
use vstd::arithmetic::mul::{
    lemma_mul_is_associative, lemma_mul_is_commutative, lemma_mul_is_distributive_add,
};
use vstd::arithmetic::power2::{lemma2_to64, lemma_pow2_adds, pow2};
use num_bigint::BigUint;
use crate::bigint::{
    big_add, big_clone, big_eq, big_from_u64, big_is_zero, big_modinv, big_mul, big_rem,
    big_shl, big_sub, big_value,
};

verus! {

/// The prime modulus of the base field.
pub open spec fn fp_modulus() -> nat {
    21888242871839275222246405745257275088696311157297823662689037894645226208583nat
}

/// Reduction of an arbitrary integer into `[0, p)`.
pub open spec fn fp_red(x: int) -> nat {
    (x % (fp_modulus() as int)) as nat
}

/// Field addition on reduced representatives.
pub open spec fn fp_add_v(a: nat, b: nat) -> nat {
    fp_red((a + b) as int)
}

/// Field subtraction on reduced representatives.
pub open spec fn fp_sub_v(a: nat, b: nat) -> nat {
    fp_red(a - b)
}

/// Field multiplication on reduced representatives.
pub open spec fn fp_mul_v(a: nat, b: nat) -> nat {
    fp_red((a * b) as int)
}

/// Field negation on reduced representatives.
pub open spec fn fp_neg_v(a: nat) -> nat {
    fp_red(0 - a)
}

/// Whether `a` has a multiplicative inverse modulo `p`.
pub open spec fn fp_invertible(a: nat) -> bool {
    exists|v: nat| v < fp_modulus() && #[trigger] ((a * v) % fp_modulus()) == 1
}

/// The inverse of `a` modulo `p` when one exists, and 0 otherwise.
pub open spec fn fp_inv_v(a: nat) -> nat {
    if fp_invertible(a) {
        choose|v: nat| v < fp_modulus() && #[trigger] ((a * v) % fp_modulus()) == 1
    } else {
        0
    }
}

pub proof fn lemma_fp_red_bound(x: int)
    ensures
        fp_red(x) < fp_modulus(),
{
    lemma_mod_bound(x, fp_modulus() as int);
}

pub proof fn lemma_fp_red_small(a: nat)
    requires
        a < fp_modulus(),
    ensures
        fp_red(a as int) == a,
{
    lemma_small_mod(a, fp_modulus());
}

/// The spec-level field operations absorb prior reductions: applying them
/// to reduced integers yields the reduction of the exact integer result.
pub proof fn lemma_fp_ops_red(x: int, y: int)
    ensures
        fp_add_v(fp_red(x), fp_red(y)) == fp_red(x + y),
        fp_sub_v(fp_red(x), fp_red(y)) == fp_red(x - y),
        fp_mul_v(fp_red(x), fp_red(y)) == fp_red(x * y),
        fp_neg_v(fp_red(x)) == fp_red(0 - x),
{
    let m = fp_modulus() as int;
    lemma_add_mod_noop(x, y, m);
    lemma_sub_mod_noop(x, y, m);
    lemma_mul_mod_noop_general(x, y, m);
    lemma_sub_mod_noop(0, x, m);
    lemma_small_mod(0, fp_modulus());
}

/// Reduction on the left argument alone also absorbs.
pub proof fn lemma_fp_red_left(x: int, y: int)
    ensures
        fp_red(fp_red(x) + y) == fp_red(x + y),
        fp_red(fp_red(x) * y) == fp_red(x * y),
{
    let m = fp_modulus() as int;
    lemma_add_mod_noop_right(y, x, m);
    lemma_mul_mod_noop_left(x, y, m);
}

/// The inverse modulo `p` is unique among reduced representatives.
pub proof fn lemma_fp_inv_unique(a: nat, v: nat, w: nat)
    requires
        v < fp_modulus(),
        w < fp_modulus(),
        (a * v) % fp_modulus() == 1,
        (a * w) % fp_modulus() == 1,
    ensures
        v == w,
{
    let m = fp_modulus() as int;
    // v = v * (a * w) = (a * v) * w = w  (mod p)
    lemma_mul_mod_noop_general(v as int, (a * w) as int, m);
    lemma_small_mod(v, fp_modulus());
    lemma_small_mod(w, fp_modulus());
    assert(v * (a * w) == (a * v) * w) by (nonlinear_arith);
    lemma_mul_mod_noop_left((a * v) as int, w as int, m);
}

/// Whenever `(a * v) % p == 1` with `v < p`, that `v` is the value of `fp_inv_v(a)`.
pub proof fn lemma_fp_inv_value(a: nat, v: nat)
    requires
        v < fp_modulus(),
        (a * v) % fp_modulus() == 1,
    ensures
        fp_invertible(a),
        fp_inv_v(a) == v,
{
    assert(fp_invertible(a));
    let w = choose|w: nat| w < fp_modulus() && #[trigger] ((a * w) % fp_modulus()) == 1;
    lemma_fp_inv_unique(a, v, w);
}

// ------------------------------------------------------------------
// Field laws of the base layer.
// ------------------------------------------------------------------

/// Addition is commutative.
pub proof fn lemma_fp_add_comm(a: nat, b: nat)
    ensures
        fp_add_v(a, b) == fp_add_v(b, a),
{
}

/// Addition is associative.
pub proof fn lemma_fp_add_assoc(a: nat, b: nat, c: nat)
    ensures
        fp_add_v(fp_add_v(a, b), c) == fp_add_v(a, fp_add_v(b, c)),
{
    let m = fp_modulus() as int;
    lemma_add_mod_noop_right((a + b) as int, c as int, m);
    assert(fp_red((fp_red((a + b) as int) + c) as int) == fp_red((a + b + c) as int)) by {
        lemma_fp_red_left((a + b) as int, c as int);
    }
    assert(fp_red((a + fp_red((b + c) as int)) as int) == fp_red((a + (b + c)) as int)) by {
        lemma_add_mod_noop_right(a as int, (b + c) as int, m);
    }
}

/// Zero is the additive identity on reduced values.
pub proof fn lemma_fp_add_zero(a: nat)
    requires
        a < fp_modulus(),
    ensures
        fp_add_v(a, 0) == a,
{
    lemma_fp_red_small(a);
}

/// Multiplication is commutative.
pub proof fn lemma_fp_mul_comm(a: nat, b: nat)
    ensures
        fp_mul_v(a, b) == fp_mul_v(b, a),
{
    lemma_mul_is_commutative(a as int, b as int);
}

/// Multiplication is associative.
pub proof fn lemma_fp_mul_assoc(a: nat, b: nat, c: nat)
    ensures
        fp_mul_v(fp_mul_v(a, b), c) == fp_mul_v(a, fp_mul_v(b, c)),
{
    let m = fp_modulus() as int;
    lemma_fp_red_left((a * b) as int, c as int);
    lemma_mul_is_associative(a as int, b as int, c as int);
    lemma_mul_mod_noop_right(a as int, (b * c) as int, m);
}

/// One is the multiplicative identity on reduced values.
pub proof fn lemma_fp_mul_one(a: nat)
    requires
        a < fp_modulus(),
    ensures
        fp_mul_v(a, 1) == a,
{
    lemma_fp_red_small(a);
}

/// Multiplication distributes over addition.
pub proof fn lemma_fp_distrib(a: nat, b: nat, c: nat)
    ensures
        fp_mul_v(a, fp_add_v(b, c)) == fp_add_v(fp_mul_v(a, b), fp_mul_v(a, c)),
{
    let m = fp_modulus() as int;
    lemma_mul_mod_noop_right(a as int, (b + c) as int, m);
    lemma_mul_is_distributive_add(a as int, b as int, c as int);
    lemma_add_mod_noop((a * b) as int, (a * c) as int, m);
}

// ------------------------------------------------------------------
// Executable representation.
// ------------------------------------------------------------------

/// The value of a four-limb little-endian 64-bit decomposition.
pub open spec fn limbs_val(l0: u64, l1: u64, l2: u64, l3: u64) -> nat {
    ((l3 * pow2(192) + l2 * pow2(128) + l1 * pow2(64) + l0) as nat)
}

proof fn lemma_pow2_chunks()
    ensures
        pow2(64) == 0x10000000000000000,
        pow2(128) == pow2(64) * pow2(64),
        pow2(192) == pow2(128) * pow2(64),
{
    lemma2_to64();
    lemma_pow2_adds(64, 64);
    lemma_pow2_adds(128, 64);
}

/// The limb decomposition spelled out with literal powers of two.
pub(crate) proof fn lemma_limbs_val(l0: u64, l1: u64, l2: u64, l3: u64)
    ensures
        limbs_val(l0, l1, l2, l3) == l3 * 0x1000000000000000000000000000000000000000000000000
            + l2 * 0x100000000000000000000000000000000 + l1 * 0x10000000000000000 + l0,
{
    lemma_pow2_chunks();
    assert(pow2(128) == 0x100000000000000000000000000000000) by (nonlinear_arith)
        requires
            pow2(128) == pow2(64) * pow2(64),
            pow2(64) == 0x10000000000000000,
    ;
    assert(pow2(192) == 0x1000000000000000000000000000000000000000000000000) by (nonlinear_arith)
        requires
            pow2(192) == pow2(128) * pow2(64),
            pow2(128) == 0x100000000000000000000000000000000,
            pow2(64) == 0x10000000000000000,
    ;
}

/// Assembles a `BigUint` from four 64-bit limbs, least significant first.
fn big_from_limbs(l0: u64, l1: u64, l2: u64, l3: u64) -> (r: BigUint)
    ensures
        big_value(r) == limbs_val(l0, l1, l2, l3),
{
    let h3 = big_from_u64(l3);
    let h2 = big_add(&big_shl(&h3, 64), &big_from_u64(l2));
    let h1 = big_add(&big_shl(&h2, 64), &big_from_u64(l1));
    let h0 = big_add(&big_shl(&h1, 64), &big_from_u64(l0));
    proof {
        lemma_pow2_chunks();
        assert((l3 * pow2(64) + l2) * pow2(64) == l3 * (pow2(64) * pow2(64)) + l2 * pow2(64))
            by (nonlinear_arith);
        assert((l3 * (pow2(64) * pow2(64)) + l2 * pow2(64) + l1) * pow2(64) == l3 * (pow2(64)
            * pow2(64) * pow2(64)) + l2 * (pow2(64) * pow2(64)) + l1 * pow2(64))
            by (nonlinear_arith);
        assert(pow2(128) * pow2(64) == pow2(64) * pow2(64) * pow2(64)) by (nonlinear_arith)
            requires
                pow2(128) == pow2(64) * pow2(64),
        ;
    }
    h0
}

/// The modulus `p` as a runtime big integer.
pub(crate) fn modulus_big() -> (r: BigUint)
    ensures
        big_value(r) == fp_modulus(),
{
    let r = big_from_limbs(
        4332616871279656263u64,
        10917124144477883021u64,
        13281191951274694749u64,
        3486998266802970665u64,
    );
    proof {
        lemma_pow2_chunks();
    }
    r
}

/// An element of the base field, held as a canonical representative in `[0, p)`.
#[derive(Debug)]
pub struct Fp {
    n: BigUint,
}

impl View for Fp {
    type V = nat;

    closed spec fn view(&self) -> nat {
        big_value(self.n)
    }
}

impl Fp {
    /// The representative is reduced.
    pub open spec fn wf(&self) -> bool {
        self@ < fp_modulus()
    }

    /// Builds an element by reducing an arbitrary natural number modulo `p`.
    pub fn new(n: BigUint) -> (r: Self)
        ensures
            r@ == big_value(n) % fp_modulus(),
            r.wf(),
    {
        let m = modulus_big();
        let red = big_rem(&n, &m);
        proof {
            lemma_mod_bound(big_value(n) as int, fp_modulus() as int);
        }
        Fp { n: red }
    }

    /// Builds an element from a reduced four-limb decomposition.
    pub(crate) fn from_limbs(l0: u64, l1: u64, l2: u64, l3: u64) -> (r: Self)
        requires
            limbs_val(l0, l1, l2, l3) < fp_modulus(),
        ensures
            r@ == limbs_val(l0, l1, l2, l3),
            r.wf(),
    {
        Fp { n: big_from_limbs(l0, l1, l2, l3) }
    }

    /// Builds a small element directly.
    pub(crate) fn from_u64(x: u64) -> (r: Self)
        requires
            x < fp_modulus(),
        ensures
            r@ == x,
            r.wf(),
    {
        Fp { n: big_from_u64(x) }
    }

    /// The additive identity.
    pub fn zero() -> (r: Self)
        ensures
            r@ == 0,
            r.wf(),
    {
        Fp { n: big_from_u64(0) }
    }

    /// The multiplicative identity.
    pub fn one() -> (r: Self)
        ensures
            r@ == 1,
            r.wf(),
    {
        Fp { n: big_from_u64(1) }
    }

    /// Zero-test on the reduced integer value.
    pub fn is_zero(&self) -> (r: bool)
        ensures
            r == (self@ == 0),
    {
        big_is_zero(&self.n)
    }

    /// Field addition.
    pub fn add(&self, rhs: &Fp) -> (r: Self)
        requires
            self.wf(),
            rhs.wf(),
        ensures
            r@ == fp_add_v(self@, rhs@),
            r.wf(),
    {
        let m = modulus_big();
        let s = big_add(&self.n, &rhs.n);
        let red = big_rem(&s, &m);
        proof {
            lemma_fp_red_bound((self@ + rhs@) as int);
        }
        Fp { n: red }
    }

    /// Field subtraction.
    pub fn sub(&self, rhs: &Fp) -> (r: Self)
        requires
            self.wf(),
            rhs.wf(),
        ensures
            r@ == fp_sub_v(self@, rhs@),
            r.wf(),
    {
        let m = modulus_big();
        let lifted = big_add(&self.n, &big_sub(&m, &rhs.n));
        let red = big_rem(&lifted, &m);
        proof {
            lemma_mod_add_multiples_vanish(self@ - rhs@, fp_modulus() as int);
            lemma_fp_red_bound(self@ - rhs@);
        }
        Fp { n: red }
    }

    /// Field multiplication.
    pub fn mul(&self, rhs: &Fp) -> (r: Self)
        requires
            self.wf(),
            rhs.wf(),
        ensures
            r@ == fp_mul_v(self@, rhs@),
            r.wf(),
    {
        let m = modulus_big();
        let prod = big_mul(&self.n, &rhs.n);
        let red = big_rem(&prod, &m);
        proof {
            lemma_fp_red_bound((self@ * rhs@) as int);
        }
        Fp { n: red }
    }

    /// Field negation.
    pub fn neg(&self) -> (r: Self)
        requires
            self.wf(),
        ensures
            r@ == fp_neg_v(self@),
            r.wf(),
    {
        let m = modulus_big();
        let lifted = big_sub(&m, &self.n);
        let red = big_rem(&lifted, &m);
        proof {
            lemma_mod_add_multiples_vanish(0 - self@, fp_modulus() as int);
            lemma_fp_red_bound(0 - self@);
        }
        Fp { n: red }
    }

    /// Multiplicative inverse. Returns `None` exactly when no inverse
    /// exists modulo `p`; in particular, inverting zero is an error.
    pub fn inv(&self) -> (r: Option<Self>)
        requires
            self.wf(),
        ensures
            r is Some <==> fp_invertible(self@),
            r matches Some(v) ==> v@ == fp_inv_v(self@) && (self@ * v@) % fp_modulus() == 1
                && (v@ * self@) % fp_modulus() == 1 && v.wf(),
            self@ == 0 ==> r is None,
    {
        let m = modulus_big();
        let res = big_modinv(&self.n, &m);
        proof {
            if self@ == 0 {
                assert forall|v: nat| v < fp_modulus() implies #[trigger] ((self@ * v) % fp_modulus()) != 1 by {
                    assert(0nat * v == 0);
                    lemma_small_mod(0, fp_modulus());
                }
            }
        }
        match res {
            Some(v) => {
                proof {
                    lemma_fp_inv_value(self@, big_value(v));
                    lemma_mul_is_commutative(self@ as int, big_value(v) as int);
                }
                Some(Fp { n: v })
            },
            None => None,
        }
    }
}

impl Clone for Fp {
    /// The copy holds the same field element.
    fn clone(&self) -> (r: Self)
        ensures
            r@ == self@,
    {
        Fp { n: big_clone(&self.n) }
    }
}

impl PartialEq for Fp {
    /// Equality of the held field elements.
    fn eq(&self, other: &Self) -> (r: bool)
        ensures
            r == (self@ == other@),
    {
        big_eq(&self.n, &other.n)
    }
}

impl vstd::std_specs::cmp::PartialEqSpecImpl for Fp {
    open spec fn obeys_eq_spec() -> bool {
        true
    }

    open spec fn eq_spec(&self, other: &Self) -> bool {
        self@ == other@
    }
}

} // verus!
