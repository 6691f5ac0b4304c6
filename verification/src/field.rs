//! Elements of the BLS12-381 scalar field and the arithmetic on them.
//!
//! A [`Scalar`] stores the canonical little-endian encoding of a field element.
//! Contracts speak of its value, a natural number below [`modulus`]; the
//! arithmetic itself is carried out by the `bls12_381` crate.

use vstd::prelude::*;
use crate::algebra::{lemma_finv_is, lemma_fpow_bound, lemma_reduce_bound};

verus! {

/// The order `q` of the scalar field, a 255-bit prime.
pub open spec fn modulus() -> nat {
    0x73eda753299d7d483339d80809a1d80553bda402fffe5bfeffffffff00000001nat
}

/// The representative of `x` modulo `q` in `[0, q)`.
pub open spec fn reduce(x: int) -> nat {
    (x % (modulus() as int)) as nat
}

/// Field addition on values.
pub open spec fn fadd(a: nat, b: nat) -> nat {
    reduce((a + b) as int)
}

/// Field subtraction on values.
pub open spec fn fsub(a: nat, b: nat) -> nat {
    reduce(a - b)
}

/// Field negation on values.
pub open spec fn fneg(a: nat) -> nat {
    reduce(-(a as int))
}

/// Field multiplication on values.
pub open spec fn fmul(a: nat, b: nat) -> nat {
    reduce((a * b) as int)
}

/// The multiplicative inverse of `a`: the canonical value whose product with
/// `a` is one. Zero has none, and the function says nothing of it.
pub open spec fn finv(a: nat) -> nat {
    choose|r: nat| r < modulus() && fmul(a, r) == 1
}

/// `base` raised to the power `exp` in the field.
pub open spec fn fpow(base: nat, exp: nat) -> nat
    decreases exp,
{
    if exp == 0 {
        1
    } else {
        fmul(base, fpow(base, (exp - 1) as nat))
    }
}

/// The number that a little-endian byte string encodes.
pub open spec fn le_value(bytes: Seq<u8>) -> nat
    decreases bytes.len(),
{
    if bytes.len() == 0 {
        0
    } else {
        bytes[0] as nat + 256 * le_value(bytes.drop_first())
    }
}

/// The number that four little-endian 64-bit limbs encode.
pub open spec fn limbs_value(limbs: Seq<u64>) -> nat
    recommends
        limbs.len() == 4,
{
    limbs[0] as nat + 0x1_0000_0000_0000_0000nat * (limbs[1] as nat
        + 0x1_0000_0000_0000_0000nat * (limbs[2] as nat + 0x1_0000_0000_0000_0000nat
        * (limbs[3] as nat)))
}

/// An element of the scalar field, held as its 32-byte little-endian encoding.
#[derive(Clone, Copy, Debug, PartialEq, Eq)]
pub struct Scalar {
    bytes: [u8; 32],
}

impl View for Scalar {
    type V = nat;

    /// The integer that the stored bytes encode.
    closed spec fn view(&self) -> nat {
        le_value(self.bytes@)
    }
}

impl Scalar {
    /// The encoding is canonical: the value lies below the field order.
    pub open spec fn wf(&self) -> bool {
        self@ < modulus()
    }

    /// The canonical little-endian encoding of the element.
    pub fn to_bytes(&self) -> (out: [u8; 32])
        ensures
            le_value(out@) == self@,
    {
        self.bytes
    }

    /// The element with the given little-endian encoding, if the encoding is
    /// canonical.
    pub fn from_bytes(bytes: &[u8; 32]) -> (r: Option<Scalar>)
        ensures
            r is Some <==> le_value(bytes@) < modulus(),
            r matches Some(element) ==> element.wf() && element@ == le_value(bytes@),
    {
        scalar_from_bytes(bytes)
    }

    /// The field element congruent to `value`.
    pub fn from_u64(value: u64) -> (r: Scalar)
        ensures
            r.wf(),
            r@ == value,
    {
        scalar_from_u64(value)
    }

    /// The additive identity.
    pub fn zero() -> (r: Scalar)
        ensures
            r.wf(),
            r@ == 0,
    {
        scalar_zero()
    }

    /// The multiplicative identity.
    pub fn one() -> (r: Scalar)
        ensures
            r.wf(),
            r@ == 1,
    {
        scalar_one()
    }

    /// The sum of two elements.
    pub fn plus(&self, rhs: &Scalar) -> (r: Scalar)
        requires
            self.wf(),
            rhs.wf(),
        ensures
            r.wf(),
            r@ == fadd(self@, rhs@),
    {
        proof {
            lemma_reduce_bound((self@ + rhs@) as int);
        }
        scalar_add(self, rhs)
    }

    /// The difference of two elements.
    pub fn minus(&self, rhs: &Scalar) -> (r: Scalar)
        requires
            self.wf(),
            rhs.wf(),
        ensures
            r.wf(),
            r@ == fsub(self@, rhs@),
    {
        proof {
            lemma_reduce_bound(self@ - rhs@);
        }
        scalar_sub(self, rhs)
    }

    /// The product of two elements.
    pub fn times(&self, rhs: &Scalar) -> (r: Scalar)
        requires
            self.wf(),
            rhs.wf(),
        ensures
            r.wf(),
            r@ == fmul(self@, rhs@),
    {
        proof {
            lemma_reduce_bound((self@ * rhs@) as int);
        }
        scalar_mul(self, rhs)
    }

    /// The additive inverse of the element.
    pub fn negated(&self) -> (r: Scalar)
        requires
            self.wf(),
        ensures
            r.wf(),
            r@ == fneg(self@),
    {
        proof {
            lemma_reduce_bound(-(self@ as int));
        }
        scalar_neg(self)
    }

    /// The multiplicative inverse of the element; zero has none.
    pub fn inverse(&self) -> (r: Option<Scalar>)
        requires
            self.wf(),
        ensures
            r is None <==> self@ == 0,
            r matches Some(inv) ==> inv.wf() && fmul(self@, inv@) == 1 && inv@ == finv(self@),
    {
        let r = scalar_invert(self);
        proof {
            if let Some(inv) = r {
                lemma_finv_is(self@, inv@);
            }
        }
        r
    }

    /// The element raised to a 64-bit exponent.
    pub fn pow(&self, exp: u64) -> (r: Scalar)
        requires
            self.wf(),
        ensures
            r.wf(),
            r@ == fpow(self@, exp as nat),
    {
        let limbs: [u64; 4] = [exp, 0, 0, 0];
        proof {
            lemma_fpow_bound(self@, exp as nat);
        }
        scalar_pow_vartime(self, &limbs)
    }

    /// Whether two elements have the same value.
    pub fn equals(&self, other: &Scalar) -> (r: bool)
        ensures
            r == (self@ == other@),
    {
        let mut i: usize = 0;
        while i < 32
            invariant
                i <= 32,
                forall|j: int| 0 <= j < i ==> self.bytes@[j] == other.bytes@[j],
            decreases 32 - i,
        {
            if self.bytes[i] != other.bytes[i] {
                proof {
                    if self@ == other@ {
                        lemma_le_value_injective(self.bytes@, other.bytes@);
                    }
                }
                return false;
            }
            i += 1;
        }
        proof {
            assert(self.bytes@ =~= other.bytes@);
        }
        true
    }
}

/// Two byte strings of one length that encode the same number are equal.
pub proof fn lemma_le_value_injective(a: Seq<u8>, b: Seq<u8>)
    requires
        a.len() == b.len(),
        le_value(a) == le_value(b),
    ensures
        a =~= b,
    decreases a.len(),
{
    if a.len() > 0 {
        let x: int = le_value(a.drop_first()) as int;
        let y: int = le_value(b.drop_first()) as int;
        assert(a[0] as int + 256 * x == b[0] as int + 256 * y);
        assert(x == y && a[0] == b[0]);
        lemma_le_value_injective(a.drop_first(), b.drop_first());
        assert forall|j: int| 0 <= j < a.len() implies a[j] == b[j] by {
            if j > 0 {
                assert(a.drop_first()[j - 1] == b.drop_first()[j - 1]);
            }
        }
    }
}

/// Calls `bls12_381::Scalar::zero`, the additive identity of the field.
#[verifier::external_body]
pub(crate) fn scalar_zero() -> (r: Scalar)
    ensures
        r@ == 0,
{
    Scalar { bytes: bls12_381::Scalar::zero().to_bytes() }
}

/// Calls `bls12_381::Scalar::one`, the multiplicative identity of the field.
#[verifier::external_body]
pub(crate) fn scalar_one() -> (r: Scalar)
    ensures
        r@ == 1,
{
    Scalar { bytes: bls12_381::Scalar::one().to_bytes() }
}

/// Calls `bls12_381::Scalar::from` on a `u64`: the element whose value is that
/// integer, which is always below the field order.
#[verifier::external_body]
pub(crate) fn scalar_from_u64(value: u64) -> (r: Scalar)
    ensures
        r@ == value,
{
    Scalar { bytes: bls12_381::Scalar::from(value).to_bytes() }
}

/// Calls `bls12_381::Scalar::from_bytes`, which reads a little-endian encoding
/// and fails exactly when the number it encodes is not below the field order.
#[verifier::external_body]
pub(crate) fn scalar_from_bytes(bytes: &[u8; 32]) -> (r: Option<Scalar>)
    ensures
        r is Some <==> le_value(bytes@) < modulus(),
        r matches Some(element) ==> element@ == le_value(bytes@),
{
    let element: Option<bls12_381::Scalar> = bls12_381::Scalar::from_bytes(bytes).into();
    match element {
        Some(x) => Some(Scalar { bytes: x.to_bytes() }),
        None => None,
    }
}

/// Calls the `+` of `bls12_381::Scalar`: the sum modulo the field order.
#[verifier::external_body]
pub(crate) fn scalar_add(a: &Scalar, b: &Scalar) -> (r: Scalar)
    requires
        a.wf(),
        b.wf(),
    ensures
        r@ == fadd(a@, b@),
{
    let x = bls12_381::Scalar::from_bytes(&a.bytes).unwrap();
    let y = bls12_381::Scalar::from_bytes(&b.bytes).unwrap();
    Scalar { bytes: (x + y).to_bytes() }
}

/// Calls the `-` of `bls12_381::Scalar`: the difference modulo the field order.
#[verifier::external_body]
pub(crate) fn scalar_sub(a: &Scalar, b: &Scalar) -> (r: Scalar)
    requires
        a.wf(),
        b.wf(),
    ensures
        r@ == fsub(a@, b@),
{
    let x = bls12_381::Scalar::from_bytes(&a.bytes).unwrap();
    let y = bls12_381::Scalar::from_bytes(&b.bytes).unwrap();
    Scalar { bytes: (x - y).to_bytes() }
}

/// Calls the `*` of `bls12_381::Scalar`: the product modulo the field order.
#[verifier::external_body]
pub(crate) fn scalar_mul(a: &Scalar, b: &Scalar) -> (r: Scalar)
    requires
        a.wf(),
        b.wf(),
    ensures
        r@ == fmul(a@, b@),
{
    let x = bls12_381::Scalar::from_bytes(&a.bytes).unwrap();
    let y = bls12_381::Scalar::from_bytes(&b.bytes).unwrap();
    Scalar { bytes: (x * y).to_bytes() }
}

/// Calls `bls12_381::Scalar::neg`: the additive inverse modulo the field order.
#[verifier::external_body]
pub(crate) fn scalar_neg(a: &Scalar) -> (r: Scalar)
    requires
        a.wf(),
    ensures
        r@ == fneg(a@),
{
    let x = bls12_381::Scalar::from_bytes(&a.bytes).unwrap();
    Scalar { bytes: x.neg().to_bytes() }
}

/// Calls `bls12_381::Scalar::invert`, which fails on zero and on every other
/// element returns the one whose product with it is one.
#[verifier::external_body]
pub(crate) fn scalar_invert(a: &Scalar) -> (r: Option<Scalar>)
    requires
        a.wf(),
    ensures
        match r {
            Some(inverse) => inverse.wf() && fmul(a@, inverse@) == 1,
            None => a@ == 0,
        },
{
    let x = bls12_381::Scalar::from_bytes(&a.bytes).unwrap();
    let inverse: Option<bls12_381::Scalar> = x.invert().into();
    match inverse {
        Some(y) => Some(Scalar { bytes: y.to_bytes() }),
        None => None,
    }
}

/// Calls `bls12_381::Scalar::pow_vartime`: the element raised to the exponent
/// that the four limbs encode, least significant limb first.
#[verifier::external_body]
pub(crate) fn scalar_pow_vartime(a: &Scalar, by: &[u64; 4]) -> (r: Scalar)
    requires
        a.wf(),
    ensures
        r@ == fpow(a@, limbs_value(by@)),
{
    let x = bls12_381::Scalar::from_bytes(&a.bytes).unwrap();
    Scalar { bytes: x.pow_vartime(by).to_bytes() }
}

/// The multiplicative generator of the field that `bls12_381` fixes.
pub open spec fn multiplicative_generator() -> nat {
    7
}

/// The odd cofactor `t` of the field's multiplicative group: `q - 1 = t * 2^32`.
pub open spec fn odd_cofactor() -> nat {
    0x73eda753299d7d483339d80809a1d80553bda402fffe5bfeffffffffnat
}

/// Calls `root_of_unity` of `ff::PrimeField` on `bls12_381::Scalar`: the
/// multiplicative generator raised to the odd cofactor of the group order.
#[verifier::external_body]
pub(crate) fn scalar_root_of_unity() -> (r: Scalar)
    ensures
        r@ == fpow(multiplicative_generator(), odd_cofactor()),
{
    Scalar { bytes: <bls12_381::Scalar as ff::PrimeField>::root_of_unity().to_bytes() }
}

} // verus!
