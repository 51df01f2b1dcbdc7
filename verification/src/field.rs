//! Canonical field elements of the Pallas base field, together with the
//! modular-arithmetic facts the gadget proofs rest on.
//!
//! A `Fe` holds the canonical little-endian byte encoding of a field element;
//! its mathematical value is `fe_val`, an integer in `[0, modulus())`. The
//! arithmetic itself (addition, subtraction, multiplication, inversion) is
//! done by the curve library behind small trusted wrappers; everything the
//! gadgets conclude from those operations is proved here from the wrappers'
//! contracts.

use vstd::prelude::*;
use vstd::arithmetic::div_mod::{
    lemma_add_mod_noop, lemma_fundamental_div_mod, lemma_mod_multiples_vanish,
    lemma_mul_mod_noop_general, lemma_small_mod,
};
use vstd::arithmetic::power::{lemma_pow0, lemma_pow1, lemma_pow_adds, lemma_pow_increases, pow};
use halo2_proofs::pasta::Fp;
use halo2_proofs::pasta::group::ff::{Field, PrimeField};

verus! {

/// The order of the base field of the Pallas curve, the prime field the
/// proving backend works over.
pub open spec fn pow2_128() -> int {
    0x80000000000000000000000000000000int * 2
}

pub open spec fn modulus() -> int {
    0x80000000000000000000000000000000int * 0x80000000000000000000000000000000int
        + 0x224698fc094cf91b992d30ed00000001int
}

/// Value of a byte sequence read as a little-endian base-256 number.
pub open spec fn le_val(s: Seq<u8>) -> nat
    decreases s.len(),
{
    if s.len() == 0 {
        0
    } else {
        s[0] as nat + 256 * le_val(s.skip(1))
    }
}

/// A field element in canonical form: 32 little-endian bytes whose value is
/// below the field modulus.
pub struct Fe {
    pub bytes: Vec<u8>,
}

/// The integer a field element stands for.
pub open spec fn fe_val(f: Fe) -> int {
    le_val(f.bytes@) as int
}

/// Well-formedness: exactly 32 bytes, value reduced below the modulus.
pub open spec fn fe_wf(f: Fe) -> bool {
    f.bytes@.len() == 32 && fe_val(f) < modulus()
}

/// Two integers are congruent modulo the field order.
pub open spec fn congruent(a: int, b: int) -> bool {
    a % modulus() == b % modulus()
}

pub proof fn lemma_le_val_snoc(s: Seq<u8>, b: u8)
    ensures
        le_val(s.push(b)) == le_val(s) + (b as nat) * pow(256, s.len()),
    decreases s.len(),
{
    if s.len() == 0 {
        assert(s.push(b).skip(1) =~= Seq::<u8>::empty());
        assert(le_val(Seq::<u8>::empty()) == 0);
        assert(s.push(b)[0] == b);
        assert(le_val(s.push(b)) == b as nat);
        lemma_pow0(256);
        assert((b as nat) * 1 == b as nat) by (nonlinear_arith);
    } else {
        assert(s.push(b).skip(1) =~= s.skip(1).push(b));
        lemma_le_val_snoc(s.skip(1), b);
        let p: int = pow(256, (s.len() - 1) as nat);
        assert(pow(256, s.len()) == 256 * p) by {
            lemma_pow1(256);
            lemma_pow_adds(256, 1, (s.len() - 1) as nat);
        }
        assert(le_val(s.push(b)) == s[0] as nat + 256 * (le_val(s.skip(1)) + (b as nat) * p));
        assert(256 * (le_val(s.skip(1)) + (b as nat) * p) == 256 * le_val(s.skip(1)) + (b as nat)
            * (256 * p)) by (nonlinear_arith);
    }
}

pub proof fn lemma_le_val_bound(s: Seq<u8>)
    ensures
        le_val(s) < pow(256, s.len()),
    decreases s.len(),
{
    if s.len() == 0 {
        lemma_pow0(256);
    } else {
        lemma_le_val_bound(s.skip(1));
        let p: int = pow(256, (s.len() - 1) as nat);
        assert(pow(256, s.len()) == 256 * p) by {
            lemma_pow1(256);
            lemma_pow_adds(256, 1, (s.len() - 1) as nat);
        }
        assert(le_val(s.skip(1)) <= p - 1);
        assert(256 * le_val(s.skip(1)) <= 256 * (p - 1)) by (nonlinear_arith)
            requires
                le_val(s.skip(1)) <= p - 1,
                p >= 1,
        ;
        assert(s[0] as nat + 256 * le_val(s.skip(1)) < 256 * p);
    }
}

pub proof fn lemma_le_val_split(s: Seq<u8>, k: int)
    requires
        0 <= k <= s.len(),
    ensures
        le_val(s) == le_val(s.take(k)) + pow(256, k as nat) * le_val(s.skip(k)),
    decreases k,
{
    if k == 0 {
        assert(s.take(0) =~= Seq::<u8>::empty());
        assert(s.skip(0) =~= s);
        lemma_pow0(256);
        assert(1 * le_val(s) == le_val(s)) by (nonlinear_arith);
    } else {
        lemma_le_val_split(s.skip(1), k - 1);
        assert(s.skip(1).take(k - 1) =~= s.take(k).skip(1));
        assert(s.skip(1).skip(k - 1) =~= s.skip(k));
        let p: int = pow(256, (k - 1) as nat);
        assert(pow(256, k as nat) == 256 * p) by {
            lemma_pow1(256);
            lemma_pow_adds(256, 1, (k - 1) as nat);
        }
        let lo = le_val(s.take(k).skip(1));
        let hi = le_val(s.skip(k));
        assert(le_val(s.skip(1)) == lo + p * hi);
        assert(s.take(k)[0] == s[0]);
        assert(le_val(s.take(k)) == s[0] as nat + 256 * lo);
        assert(le_val(s) == s[0] as nat + 256 * (lo + p * hi));
        assert(256 * (lo + p * hi) == 256 * lo + (256 * p) * hi) by (nonlinear_arith);
    }
}

pub proof fn lemma_le_val_zero(s: Seq<u8>)
    ensures
        le_val(s) == 0 <==> (forall|i: int| 0 <= i < s.len() ==> s[i] == 0),
    decreases s.len(),
{
    if s.len() == 0 {
    } else {
        lemma_le_val_zero(s.skip(1));
        if le_val(s) == 0 {
            assert(s[0] == 0);
            assert(256 * le_val(s.skip(1)) == 0);
            assert(le_val(s.skip(1)) == 0);
            assert forall|i: int| 0 <= i < s.len() implies s[i] == 0 by {
                if i > 0 {
                    assert(s.skip(1)[i - 1] == s[i]);
                }
            }
        }
        if forall|i: int| 0 <= i < s.len() ==> s[i] == 0 {
            assert forall|i: int| 0 <= i < s.skip(1).len() implies s.skip(1)[i] == 0 by {
                assert(s.skip(1)[i] == s[i + 1]);
            }
            assert(le_val(s.skip(1)) == 0);
        }
    }
}

/// `256^16 == 2^128`, the split point between the lower and upper half of a
/// 32-byte encoding.
pub proof fn lemma_pow256_16()
    ensures
        pow(256, 16) == pow2_128(),
{
    lemma_pow0(256);
    lemma_pow1(256);
    lemma_pow_adds(256, 1, 1);
    assert(pow(256, 2) == 0x10000);
    lemma_pow_adds(256, 2, 2);
    assert(pow(256, 4) == 0x100000000);
    lemma_pow_adds(256, 4, 4);
    assert(pow(256, 8) == 0x10000000000000000);
    lemma_pow_adds(256, 8, 8);
}

// Congruence toolkit: the gadget proofs reason about polynomial identities
// modulo the field order through these.

pub proof fn lemma_cong_add(a: int, b: int, c: int, d: int)
    requires
        congruent(a, b),
        congruent(c, d),
    ensures
        congruent(a + c, b + d),
{
    lemma_add_mod_noop(a, c, modulus());
    lemma_add_mod_noop(b, d, modulus());
}

pub proof fn lemma_cong_mul(a: int, b: int, c: int, d: int)
    requires
        congruent(a, b),
        congruent(c, d),
    ensures
        congruent(a * c, b * d),
{
    lemma_mul_mod_noop_general(a, c, modulus());
    lemma_mul_mod_noop_general(b, d, modulus());
}

/// Congruent values that are both reduced are equal.
pub proof fn lemma_cong_canon(a: int, b: int)
    requires
        0 <= a < modulus(),
        0 <= b < modulus(),
        congruent(a, b),
    ensures
        a == b,
{
    lemma_small_mod(a as nat, modulus() as nat);
    lemma_small_mod(b as nat, modulus() as nat);
}

/// A reduced value is its own remainder.
pub proof fn lemma_cong_small(a: int)
    requires
        0 <= a < modulus(),
    ensures
        a % modulus() == a,
{
    lemma_small_mod(a as nat, modulus() as nat);
}

impl Fe {
    /// Encode a 128-bit integer as a field element; exact, since the field
    /// order exceeds `2^128`.
    pub fn from_u128(x: u128) -> (r: Fe)
        ensures
            fe_wf(r),
            fe_val(r) == x as int,
    {
        let mut bytes: Vec<u8> = Vec::new();
        let mut acc: u128 = x;
        let mut i: usize = 0;
        proof {
            lemma_pow0(256);
        }
        while i < 16
            invariant
                i <= 16,
                bytes@.len() == i,
                x as nat == le_val(bytes@) + (acc as nat) * pow(256, i as nat),
            decreases 16 - i,
        {
            let b: u8 = (acc % 256) as u8;
            proof {
                lemma_le_val_snoc(bytes@, b);
                lemma_fundamental_div_mod(acc as int, 256);
                lemma_pow1(256);
                lemma_pow_adds(256, i as nat, 1);
                assert((acc as nat) * pow(256, i as nat) == (b as nat) * pow(256, i as nat) + (acc
                    as nat / 256) * (pow(256, i as nat) * 256)) by (nonlinear_arith)
                    requires
                        acc as nat == 256 * (acc as nat / 256) + b as nat,
                ;
            }
            bytes.push(b);
            acc = acc / 256;
            i = i + 1;
        }
        proof {
            lemma_pow256_16();
            assert(acc == 0) by (nonlinear_arith)
                requires
                    x as nat == le_val(bytes@) + (acc as nat) * pow(256, 16),
                    pow(256, 16) == pow2_128(),
                    x < pow2_128(),
            ;
        }
        while i < 32
            invariant
                16 <= i <= 32,
                bytes@.len() == i,
                le_val(bytes@) == x as nat,
            decreases 32 - i,
        {
            proof {
                lemma_le_val_snoc(bytes@, 0);
            }
            bytes.push(0u8);
            i = i + 1;
        }
        Fe { bytes }
    }

    /// Encode a 64-bit integer as a field element; exact.
    pub fn from_u64(x: u64) -> (r: Fe)
        ensures
            fe_wf(r),
            fe_val(r) == x as int,
    {
        Fe::from_u128(x as u128)
    }

    /// The additive identity.
    pub fn zero() -> (r: Fe)
        ensures
            fe_wf(r),
            fe_val(r) == 0,
    {
        Fe::from_u128(0)
    }

    /// The multiplicative identity.
    pub fn one() -> (r: Fe)
        ensures
            fe_wf(r),
            fe_val(r) == 1,
    {
        Fe::from_u128(1)
    }

    /// The low 128 bits of the element's integer value.
    pub fn lower_128(&self) -> (r: u128)
        requires
            fe_wf(*self),
        ensures
            r as int == fe_val(*self) % pow2_128(),
    {
        let mut acc: u128 = 0;
        let mut i: usize = 16;
        while i > 0
            invariant
                i <= 16,
                fe_wf(*self),
                acc as nat == le_val(self.bytes@.subrange(i as int, 16)),
            decreases i,
        {
            let ghost prev = self.bytes@.subrange(i as int, 16);
            i = i - 1;
            let ghost cur = self.bytes@.subrange(i as int, 16);
            proof {
                assert(cur.skip(1) =~= prev);
                assert(le_val(cur) == cur[0] as nat + 256 * le_val(prev));
                lemma_le_val_bound(prev);
                lemma_pow256_16();
                assert(256 * le_val(prev) + 255 < 256 * pow(256, (15 - i) as nat)) by (
                nonlinear_arith)
                    requires
                        le_val(prev) < pow(256, (15 - i) as nat),
                ;
                lemma_pow1(256);
                lemma_pow_adds(256, 1, (15 - i) as nat);
                lemma_pow_increases(256, (16 - i) as nat, 16);
                assert(256 * le_val(prev) + 255 < pow2_128());
                assert(cur[0] == self.bytes@[i as int]);
            }
            acc = acc * 256 + (self.bytes[i] as u128);
        }
        proof {
            lemma_le_val_split(self.bytes@, 16);
            assert(self.bytes@.subrange(0, 16) =~= self.bytes@.take(16));
            lemma_pow256_16();
            let m: int = pow2_128();
            let lo = le_val(self.bytes@.take(16)) as int;
            let hi = le_val(self.bytes@.skip(16)) as int;
            lemma_le_val_bound(self.bytes@.take(16));
            lemma_mod_multiples_vanish(hi, lo, m);
            lemma_small_mod(lo as nat, m as nat);
            assert(fe_val(*self) == m * hi + lo);
        }
        acc
    }

    /// Whether the element is the additive identity.
    pub fn is_zero_value(&self) -> (r: bool)
        requires
            fe_wf(*self),
        ensures
            r <==> fe_val(*self) == 0,
    {
        let mut i: usize = 0;
        let mut all: bool = true;
        while i < 32
            invariant
                i <= 32,
                fe_wf(*self),
                all <==> (forall|j: int| 0 <= j < i ==> self.bytes@[j] == 0),
            decreases 32 - i,
        {
            if self.bytes[i] != 0u8 {
                all = false;
            }
            i = i + 1;
        }
        proof {
            lemma_le_val_zero(self.bytes@);
        }
        all
    }
}

/// Relies on the Pallas base field's `Add` impl: addition modulo the field
/// order, with `PrimeField::{from_repr, to_repr}` converting canonical
/// little-endian bytes.
#[verifier::external_body]
pub(crate) fn fe_add(a: &Fe, b: &Fe) -> (r: Fe)
    requires
        fe_wf(*a),
        fe_wf(*b),
    ensures
        fe_wf(r),
        fe_val(r) == (fe_val(*a) + fe_val(*b)) % modulus(),
{
    let x = Fp::from_repr(a.bytes.as_slice().try_into().unwrap()).unwrap();
    let y = Fp::from_repr(b.bytes.as_slice().try_into().unwrap()).unwrap();
    Fe { bytes: (x + y).to_repr().to_vec() }
}

/// Relies on the Pallas base field's `Sub` impl: subtraction modulo the field
/// order, with `PrimeField::{from_repr, to_repr}` converting canonical
/// little-endian bytes.
#[verifier::external_body]
pub(crate) fn fe_sub(a: &Fe, b: &Fe) -> (r: Fe)
    requires
        fe_wf(*a),
        fe_wf(*b),
    ensures
        fe_wf(r),
        fe_val(r) == (fe_val(*a) - fe_val(*b)) % modulus(),
{
    let x = Fp::from_repr(a.bytes.as_slice().try_into().unwrap()).unwrap();
    let y = Fp::from_repr(b.bytes.as_slice().try_into().unwrap()).unwrap();
    Fe { bytes: (x - y).to_repr().to_vec() }
}

/// Relies on the Pallas base field's `Mul` impl: multiplication modulo the
/// field order, with `PrimeField::{from_repr, to_repr}` converting canonical
/// little-endian bytes.
#[verifier::external_body]
pub(crate) fn fe_mul(a: &Fe, b: &Fe) -> (r: Fe)
    requires
        fe_wf(*a),
        fe_wf(*b),
    ensures
        fe_wf(r),
        fe_val(r) == (fe_val(*a) * fe_val(*b)) % modulus(),
{
    let x = Fp::from_repr(a.bytes.as_slice().try_into().unwrap()).unwrap();
    let y = Fp::from_repr(b.bytes.as_slice().try_into().unwrap()).unwrap();
    Fe { bytes: (x * y).to_repr().to_vec() }
}

/// Relies on `Field::invert` for the Pallas base field: the multiplicative
/// inverse as `Some`, and `None` exactly at the additive identity, which this
/// wrapper maps to zero (the completeness-preserving convention of the
/// is-zero gate).
#[verifier::external_body]
pub(crate) fn fe_invert_or_zero(a: &Fe) -> (r: Fe)
    requires
        fe_wf(*a),
    ensures
        fe_wf(r),
        fe_val(*a) == 0 ==> fe_val(r) == 0,
        fe_val(*a) != 0 ==> (fe_val(*a) * fe_val(r)) % modulus() == 1,
{
    let x = Fp::from_repr(a.bytes.as_slice().try_into().unwrap()).unwrap();
    let inv = x.invert().unwrap_or(Fp::zero());
    Fe { bytes: inv.to_repr().to_vec() }
}

} // verus!
