//! Laws of the arithmetic modulo the field order, proved over the integers.

use vstd::prelude::*;
use vstd::arithmetic::div_mod::*;
use vstd::arithmetic::mul::*;
use crate::field::{fadd, finv, fmul, fneg, fpow, fsub, modulus, reduce};

verus! {

/// A reduced value lies below the field order.
pub proof fn lemma_reduce_bound(x: int)
    ensures
        reduce(x) < modulus(),
        reduce(reduce(x) as int) == reduce(x),
{
    lemma_mod_bound(x, modulus() as int);
    lemma_small_mod(reduce(x), modulus());
}

/// A value below the field order is its own representative.
pub proof fn lemma_reduce_canonical(a: nat)
    requires
        a < modulus(),
    ensures
        reduce(a as int) == a,
{
    lemma_small_mod(a, modulus());
}

/// Reducing a summand first does not change the reduced sum.
pub proof fn lemma_reduce_add(a: int, b: int)
    ensures
        reduce(reduce(a) + b) == reduce(a + b),
        reduce(a + reduce(b)) == reduce(a + b),
        reduce((reduce(a) + reduce(b)) as int) == reduce(a + b),
{
    let m: int = modulus() as int;
    lemma_add_mod_noop(a, b, m);
    lemma_add_mod_noop(a % m, b, m);
    lemma_add_mod_noop(a, b % m, m);
    lemma_mod_twice(a, m);
    lemma_mod_twice(b, m);
}

/// Reducing the minuend or the subtrahend first does not change the reduced
/// difference.
pub proof fn lemma_reduce_sub(a: int, b: int)
    ensures
        reduce(reduce(a) - b) == reduce(a - b),
        reduce(a - reduce(b)) == reduce(a - b),
        reduce(reduce(a) - reduce(b)) == reduce(a - b),
{
    let m: int = modulus() as int;
    lemma_sub_mod_noop(a, b, m);
    lemma_sub_mod_noop(a % m, b, m);
    lemma_sub_mod_noop(a, b % m, m);
    lemma_mod_twice(a, m);
    lemma_mod_twice(b, m);
}

/// Reducing a factor first does not change the reduced product.
pub proof fn lemma_reduce_mul(a: int, b: int)
    ensures
        reduce(reduce(a) * b) == reduce(a * b),
        reduce(a * reduce(b)) == reduce(a * b),
        reduce((reduce(a) * reduce(b)) as int) == reduce(a * b),
{
    let m: int = modulus() as int;
    lemma_mul_mod_noop_general(a, b, m);
}

/// A sum is congruent to the sum of integers congruent to its summands.
pub proof fn lemma_fadd_cong(a: nat, b: nat, x: int, y: int)
    requires
        reduce(a as int) == reduce(x),
        reduce(b as int) == reduce(y),
    ensures
        fadd(a, b) == reduce(x + y),
        reduce(fadd(a, b) as int) == reduce(x + y),
{
    lemma_reduce_add(a as int, b as int);
    lemma_reduce_add(x, y);
    lemma_reduce_bound(x + y);
}

/// A difference is congruent to the difference of integers congruent to its
/// operands.
pub proof fn lemma_fsub_cong(a: nat, b: nat, x: int, y: int)
    requires
        reduce(a as int) == reduce(x),
        reduce(b as int) == reduce(y),
    ensures
        fsub(a, b) == reduce(x - y),
        reduce(fsub(a, b) as int) == reduce(x - y),
{
    lemma_reduce_sub(a as int, b as int);
    lemma_reduce_sub(x, y);
    lemma_reduce_bound(x - y);
}

/// A product is congruent to the product of integers congruent to its factors.
pub proof fn lemma_fmul_cong(a: nat, b: nat, x: int, y: int)
    requires
        reduce(a as int) == reduce(x),
        reduce(b as int) == reduce(y),
    ensures
        fmul(a, b) == reduce(x * y),
        reduce(fmul(a, b) as int) == reduce(x * y),
{
    lemma_reduce_mul(a as int, b as int);
    lemma_reduce_mul(x, y);
    lemma_reduce_bound(x * y);
}

/// A negation is congruent to the negation of an integer congruent to its
/// operand.
pub proof fn lemma_fneg_cong(a: nat, x: int)
    requires
        reduce(a as int) == reduce(x),
    ensures
        fneg(a) == reduce(-x),
        reduce(fneg(a) as int) == reduce(-x),
{
    lemma_reduce_sub(0, a as int);
    lemma_reduce_sub(0, x);
    lemma_reduce_bound(-x);
}

/// Zero is neutral for field addition.
pub proof fn lemma_fadd_zero(a: nat)
    requires
        a < modulus(),
    ensures
        fadd(a, 0) == a,
        fadd(0, a) == a,
{
    lemma_reduce_canonical(a);
}

/// Field multiplication is commutative.
pub proof fn lemma_fmul_comm(a: nat, b: nat)
    ensures
        fmul(a, b) == fmul(b, a),
{
    lemma_mul_is_commutative(a as int, b as int);
}

/// Field multiplication is associative.
pub proof fn lemma_fmul_assoc(a: nat, b: nat, c: nat)
    ensures
        fmul(fmul(a, b), c) == fmul(a, fmul(b, c)),
{
    lemma_reduce_mul((a * b) as int, c as int);
    lemma_reduce_mul(a as int, (b * c) as int);
    lemma_mul_is_associative(a as int, b as int, c as int);
}

/// One is neutral for field multiplication.
pub proof fn lemma_fmul_one(a: nat)
    requires
        a < modulus(),
    ensures
        fmul(a, 1) == a,
        fmul(1, a) == a,
{
    lemma_reduce_canonical(a);
}

/// Zero annihilates under field multiplication.
pub proof fn lemma_fmul_zero(a: nat)
    ensures
        fmul(a, 0) == 0,
        fmul(0, a) == 0,
{
}

/// Two canonical values whose difference is zero are equal.
pub proof fn lemma_fsub_zero_iff_equal(a: nat, b: nat)
    requires
        a < modulus(),
        b < modulus(),
    ensures
        fsub(a, b) == 0 <==> a == b,
{
    let m: int = modulus() as int;
    if fsub(a, b) == 0 && a != b {
        if a > b {
            lemma_small_mod((a - b) as nat, modulus());
        } else {
            lemma_mod_add_multiples_vanish(a - b, m);
            lemma_small_mod((a - b + m) as nat, modulus());
        }
    }
}

/// Every power is a canonical value.
pub proof fn lemma_fpow_bound(base: nat, exp: nat)
    ensures
        fpow(base, exp) < modulus(),
    decreases exp,
{
    if exp > 0 {
        lemma_reduce_bound((base * fpow(base, (exp - 1) as nat)) as int);
    }
}

/// The first power of a canonical value is the value itself.
pub proof fn lemma_fpow_one(base: nat)
    requires
        base < modulus(),
    ensures
        fpow(base, 1) == base,
{
    reveal_with_fuel(fpow, 2);
    lemma_fmul_one(base);
}

/// Exponents add when powers of one base are multiplied.
pub proof fn lemma_fpow_add(base: nat, e1: nat, e2: nat)
    ensures
        fpow(base, e1 + e2) == fmul(fpow(base, e1), fpow(base, e2)),
    decreases e1,
{
    if e1 == 0 {
        lemma_fpow_bound(base, e2);
        lemma_fmul_one(fpow(base, e2));
    } else {
        lemma_fpow_add(base, (e1 - 1) as nat, e2);
        assert((e1 + e2 - 1) as nat == (e1 - 1) as nat + e2);
        lemma_fmul_assoc(base, fpow(base, (e1 - 1) as nat), fpow(base, e2));
    }
}

/// Every power of one is one.
pub proof fn lemma_fpow_of_one(exp: nat)
    ensures
        fpow(1, exp) == 1,
    decreases exp,
{
    if exp > 0 {
        lemma_fpow_of_one((exp - 1) as nat);
    }
}

/// Exponents multiply when a power is raised to a power.
pub proof fn lemma_fpow_mul(base: nat, e1: nat, e2: nat)
    ensures
        fpow(fpow(base, e1), e2) == fpow(base, e1 * e2),
    decreases e2,
{
    if e2 == 0 {
        assert(e1 * e2 == 0) by (nonlinear_arith)
            requires
                e2 == 0,
        ;
    } else {
        lemma_fpow_mul(base, e1, (e2 - 1) as nat);
        assert(e1 * e2 == e1 + e1 * (e2 - 1)) by (nonlinear_arith);
        assert(e1 * (e2 - 1) >= 0) by (nonlinear_arith)
            requires
                e2 >= 1,
                e1 >= 0,
        ;
        lemma_fpow_add(base, e1, (e1 * (e2 - 1)) as nat);
    }
}

/// A power of a product is the product of the powers.
pub proof fn lemma_fpow_of_product(a: nat, b: nat, exp: nat)
    ensures
        fpow(fmul(a, b), exp) == fmul(fpow(a, exp), fpow(b, exp)),
    decreases exp,
{
    if exp == 0 {
        lemma_fmul_one(1);
    } else {
        let e: nat = (exp - 1) as nat;
        lemma_fpow_of_product(a, b, e);
        let pa: nat = fpow(a, e);
        let pb: nat = fpow(b, e);
        // (a b)(pa pb) == (a pa)(b pb)
        lemma_fmul_assoc(a, b, fmul(pa, pb));
        lemma_fmul_assoc(b, pa, pb);
        lemma_fmul_comm(b, pa);
        lemma_fmul_assoc(pa, b, pb);
        lemma_fmul_assoc(a, pa, fmul(b, pb));
    }
}

/// An element has at most one inverse.
pub proof fn lemma_inverse_unique(a: nat, r1: nat, r2: nat)
    requires
        r1 < modulus(),
        r2 < modulus(),
        fmul(a, r1) == 1,
        fmul(a, r2) == 1,
    ensures
        r1 == r2,
{
    lemma_fmul_one(r1);
    lemma_fmul_one(r2);
    lemma_fmul_comm(r1, a);
    lemma_fmul_assoc(r1, a, r2);
}

/// A canonical value whose product with `a` is one is the inverse of `a`.
pub proof fn lemma_finv_is(a: nat, r: nat)
    requires
        r < modulus(),
        fmul(a, r) == 1,
    ensures
        finv(a) == r,
{
    let chosen = finv(a);
    lemma_inverse_unique(a, chosen, r);
}

} // verus!
