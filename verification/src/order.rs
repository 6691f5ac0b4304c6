//! The order of the domain generator, and why no two points of the extended
//! coset coincide.

use vstd::prelude::*;
use vstd::arithmetic::div_mod::lemma_fundamental_div_mod_converse;
use vstd::arithmetic::mul::lemma_mul_is_commutative;
use vstd::arithmetic::power2::{
    lemma2_to64, lemma_pow2_adds, lemma_pow2_pos, lemma_pow2_unfold, pow2,
};
use crate::algebra::{
    lemma_fmul_assoc, lemma_fmul_one, lemma_fpow_add, lemma_fpow_bound, lemma_fpow_mul,
    lemma_fpow_of_one, lemma_fpow_of_product, lemma_fpow_one,
};
use crate::domain::{
    coset_point, coset_points, coset_scale, lemma_eval_vanishing, vanishing_coefficients, domain_generator, domain_size, lemma_log_size_is_least, log_size,
    root_of_unity,
};
use crate::field::{fmul, fpow, modulus};
use crate::interpolation::pairwise_distinct;
use crate::polynomial::poly_eval;
use crate::roots::{
    lemma_root_of_unity_order, lemma_seven_to_the_two_to_32, lemma_thirteen_to_the_two_to_32,
};

verus! {

/// Raising to two exponents in turn gives the same in either order.
pub proof fn lemma_fpow_swap(base: nat, e1: nat, e2: nat)
    ensures
        fpow(fpow(base, e1), e2) == fpow(fpow(base, e2), e1),
{
    lemma_fpow_mul(base, e1, e2);
    lemma_fpow_mul(base, e2, e1);
    lemma_mul_is_commutative(e1 as int, e2 as int);
}

/// An element whose square is one is its own odd powers.
proof fn lemma_odd_power_of_involution(z: nat, half: nat)
    requires
        z < modulus(),
        fmul(z, z) == 1,
    ensures
        fpow(z, 2 * half + 1) == z,
    decreases half,
{
    if half == 0 {
        lemma_fpow_one(z);
    } else {
        lemma_odd_power_of_involution(z, (half - 1) as nat);
        // z^(2 half + 1) == z * (z * z^(2 half - 1))
        reveal_with_fuel(fpow, 3);
        assert(fpow(z, 2 * half + 1) == fmul(z, fmul(z, fpow(z, (2 * half - 1) as nat))));
        assert((2 * half - 1) as nat == 2 * ((half - 1) as nat) + 1);
        lemma_fmul_one(z);
    }
}

/// An element with an odd power equal to one and a power-of-two power equal
/// to one is one.
pub proof fn lemma_odd_order_is_trivial(x: nat, j: nat, d: nat)
    requires
        x < modulus(),
        d % 2 == 1,
        fpow(x, d) == 1,
        fpow(x, pow2(j)) == 1,
    ensures
        x == 1,
    decreases j,
{
    if j == 0 {
        lemma2_to64();
        lemma_fpow_one(x);
    } else {
        let lower: nat = pow2((j - 1) as nat);
        let z: nat = fpow(x, lower);
        lemma_fpow_bound(x, lower);
        lemma_pow2_unfold(j);
        lemma_fpow_add(x, lower, lower);
        assert(fmul(z, z) == 1);
        lemma_fpow_swap(x, lower, d);
        lemma_fpow_of_one(lower);
        assert(fpow(z, d) == 1);
        let half: nat = d / 2;
        assert(d == 2 * half + 1);
        lemma_odd_power_of_involution(z, half);
        assert(z == 1);
        lemma_odd_order_is_trivial(x, (j - 1) as nat, d);
    }
}

/// An element of order dividing `2^k` that has a smaller positive exponent
/// with power one has order dividing `2^(k - 1)` already.
pub proof fn lemma_order_halves(x: nat, k: nat, d: nat)
    requires
        x < modulus(),
        k >= 1,
        0 < d < pow2(k),
        fpow(x, pow2(k)) == 1,
        fpow(x, d) == 1,
    ensures
        fpow(x, pow2((k - 1) as nat)) == 1,
    decreases k,
{
    if d % 2 == 1 {
        lemma_odd_order_is_trivial(x, k, d);
        lemma_fpow_of_one(pow2((k - 1) as nat));
    } else {
        let half: nat = d / 2;
        assert(d == 2 * half);
        lemma_pow2_unfold(k);
        lemma2_to64();
        let square: nat = fpow(x, 2);
        lemma_fpow_bound(x, 2);
        let lower: nat = pow2((k - 1) as nat);
        lemma_fpow_mul(x, 2, lower);
        lemma_fpow_mul(x, 2, half);
        assert(fpow(square, lower) == 1);
        assert(fpow(square, half) == 1);
        // k == 1 would leave no room for an even d
        assert(k >= 2);
        lemma_order_halves(square, (k - 1) as nat, half);
        lemma_pow2_unfold((k - 1) as nat);
        lemma_fpow_mul(x, 2, pow2((k - 2) as nat));
    }
}

/// The generator of the domain for `n` gates has the size of the domain as
/// its order: that power of it is one, and no smaller positive power is.
pub proof fn lemma_generator_order(n: nat)
    requires
        n >= 1,
        log_size(n) <= 32,
    ensures
        domain_generator(n) < modulus(),
        fpow(domain_generator(n), domain_size(n)) == 1,
        forall|d: nat| 0 < d < domain_size(n) ==> #[trigger] fpow(domain_generator(n), d) != 1,
{
    let k: nat = log_size(n);
    let omega: nat = domain_generator(n);
    let cofactor: nat = pow2((32 - k) as nat);
    lemma_root_of_unity_order();
    lemma_fpow_bound(root_of_unity(), cofactor);
    lemma_fpow_mul(root_of_unity(), cofactor, pow2(k));
    lemma_pow2_adds((32 - k) as nat, k);
    assert forall|d: nat| 0 < d < domain_size(n) implies #[trigger] fpow(omega, d) != 1 by {
        if fpow(omega, d) == 1 {
            lemma2_to64();
            assert(k >= 1);
            lemma_order_halves(omega, k, d);
            lemma_fpow_mul(root_of_unity(), cofactor, pow2((k - 1) as nat));
            lemma_pow2_adds((32 - k) as nat, (k - 1) as nat);
            assert(fpow(root_of_unity(), pow2(31)) == 1);
        }
    }
}

/// Two powers of the domain generator with different exponents between one
/// and the size of the domain are different.
pub proof fn lemma_domain_powers_distinct(n: nat, a: nat, b: nat)
    requires
        n >= 1,
        log_size(n) <= 32,
        1 <= a < b <= domain_size(n),
    ensures
        fpow(domain_generator(n), a) != fpow(domain_generator(n), b),
{
    let omega: nat = domain_generator(n);
    let size: nat = domain_size(n);
    lemma_generator_order(n);
    if fpow(omega, a) == fpow(omega, b) {
        // multiply both by omega^(size - a)
        let rest: nat = (size - a) as nat;
        lemma_fpow_add(omega, a, rest);
        lemma_fpow_add(omega, b, rest);
        lemma_fpow_add(omega, size, (b - a) as nat);
        assert(b + rest == size + (b - a) as nat);
        lemma_fpow_bound(omega, (b - a) as nat);
        lemma_fmul_one(fpow(omega, (b - a) as nat));
        assert(fpow(omega, (b - a) as nat) == 1);
    }
}

/// A power of the domain generator, raised to the size of the domain, is one.
proof fn lemma_domain_power_in_subgroup(n: nat, a: nat)
    requires
        n >= 1,
        log_size(n) <= 32,
    ensures
        fpow(fpow(domain_generator(n), a), domain_size(n)) == 1,
{
    lemma_generator_order(n);
    lemma_fpow_swap(domain_generator(n), a, domain_size(n));
    lemma_fpow_of_one(a);
}

/// The 2^32-th power of a coset constant times a power of the domain
/// generator is the 2^32-th power of the constant.
proof fn lemma_coset_point_power(n: nat, scale: nat, a: nat)
    requires
        n >= 1,
        log_size(n) <= 32,
    ensures
        fpow(fmul(scale, fpow(domain_generator(n), a)), pow2(32)) == fpow(scale, pow2(32)),
{
    let k: nat = log_size(n);
    let size: nat = domain_size(n);
    let cofactor: nat = pow2((32 - k) as nat);
    let power: nat = fpow(domain_generator(n), a);
    lemma_domain_power_in_subgroup(n, a);
    lemma_pow2_adds(k, (32 - k) as nat);
    // power^(2^32) == (power^size)^cofactor == 1
    lemma_fpow_mul(power, size, cofactor);
    lemma_fpow_of_one(cofactor);
    lemma_fpow_of_product(scale, power, pow2(32));
    lemma_fpow_bound(scale, pow2(32));
    lemma_fmul_one(fpow(scale, pow2(32)));
}

/// A coset constant can be taken off a product again: seven and thirteen have
/// inverses.
proof fn lemma_scale_cancels(class: int, x: nat, y: nat)
    requires
        0 <= class < 3,
        x < modulus(),
        y < modulus(),
        fmul(coset_scale(class), x) == fmul(coset_scale(class), y),
    ensures
        x == y,
{
    let scale: nat = coset_scale(class);
    let inverse: nat = if class == 0 {
        1
    } else if class == 1 {
        0x211f5460e7519182_57c7624b7077624a_aa362edc49241a48_db6db6db24924925nat
    } else {
        0x6217dc5a0f85429f_8dce7bb808267bb5_bd02ed3d9d88753a_3b13b13a3b13b13cnat
    };
    assert(fmul(inverse, scale) == 1) by {
        if class == 0 {
            lemma_fundamental_div_mod_converse(1, modulus() as int, 0, 1);
        } else if class == 1 {
            lemma_fundamental_div_mod_converse((inverse * 7) as int, modulus() as int, 2, 1);
        } else {
            lemma_fundamental_div_mod_converse((inverse * 13) as int, modulus() as int, 11, 1);
        }
    }
    lemma_fmul_assoc(inverse, scale, x);
    lemma_fmul_assoc(inverse, scale, y);
    lemma_fmul_one(x);
    lemma_fmul_one(y);
}

/// No two points of the extended coset coincide: within a class the powers
/// of the generator differ, and the constants `1`, `K1`, `K2` keep the three
/// classes apart, because their 2^32-th powers differ.
pub proof fn lemma_coset_points_differ(n: nat, v: int, w: int)
    requires
        n >= 1,
        log_size(n) <= 32,
        0 <= v < 3 * n,
        0 <= w < 3 * n,
        v != w,
    ensures
        coset_point(domain_generator(n), n, v) != coset_point(domain_generator(n), n, w),
{
    let omega: nat = domain_generator(n);
    let (cv, pv): (int, int) = (v / (n as int), v % (n as int));
    let (cw, pw): (int, int) = (w / (n as int), w % (n as int));
    vstd::arithmetic::div_mod::lemma_fundamental_div_mod(v, n as int);
    vstd::arithmetic::div_mod::lemma_fundamental_div_mod(w, n as int);
    assert(0 <= cv < 3 && 0 <= cw < 3) by (nonlinear_arith)
        requires
            cv == v / (n as int),
            cw == w / (n as int),
            0 <= v < 3 * n,
            0 <= w < 3 * n,
            n >= 1,
    ;
    let a: nat = (pv + 1) as nat;
    let b: nat = (pw + 1) as nat;
    lemma_fpow_bound(omega, a);
    lemma_fpow_bound(omega, b);
    lemma_log_size_is_least(n);
    if coset_point(omega, n, v) == coset_point(omega, n, w) {
        if cv == cw {
            lemma_scale_cancels(cv, fpow(omega, a), fpow(omega, b));
            assert(pv != pw) by (nonlinear_arith)
                requires
                    v == n * cv + pv,
                    w == n * cw + pw,
                    cv == cw,
                    v != w,
            ;
            if a < b {
                lemma_domain_powers_distinct(n, a, b);
            } else {
                lemma_domain_powers_distinct(n, b, a);
            }
        } else {
            lemma_coset_point_power(n, coset_scale(cv), a);
            lemma_coset_point_power(n, coset_scale(cw), b);
            lemma_fpow_of_one(pow2(32));
            lemma_seven_to_the_two_to_32();
            lemma_thirteen_to_the_two_to_32();
        }
    }
}

/// The extended coset of a supported domain holds no point twice.
pub proof fn lemma_extended_coset_is_distinct(n: nat)
    requires
        n >= 1,
        log_size(n) <= 32,
    ensures
        pairwise_distinct(coset_points(domain_generator(n), n)),
{
    let points = coset_points(domain_generator(n), n);
    assert forall|v: int, w: int|
        0 <= v < points.len() && 0 <= w < points.len() && v != w implies #[trigger] points[v]
        != #[trigger] points[w] by {
        lemma_coset_points_differ(n, v, w);
    }
}

/// The vanishing polynomial of the domain for `n` gates is zero at every
/// power of the generator of the domain, and so at the generator itself.
pub proof fn lemma_vanishing_on_domain(n: nat, i: nat)
    requires
        n >= 1,
        log_size(n) <= 32,
    ensures
        poly_eval(
            vanishing_coefficients(domain_size(n)),
            fpow(domain_generator(n), i),
        ) == 0,
        poly_eval(vanishing_coefficients(domain_size(n)), domain_generator(n)) == 0,
{
    lemma_pow2_pos(log_size(n));
    lemma_generator_order(n);
    lemma_domain_power_in_subgroup(n, i);
    lemma_eval_vanishing(domain_size(n), fpow(domain_generator(n), i));
    lemma_eval_vanishing(domain_size(n), domain_generator(n));
}

} // verus!
