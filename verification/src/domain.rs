//! The evaluation domain: a root of unity whose order is the least power of
//! two that holds every gate, its powers, the three cosets that tell the left,
//! right and output wires apart, and the polynomial that vanishes on it.

use vstd::prelude::*;
use vstd::arithmetic::power2::{lemma_pow2_pos, lemma_pow2_strictly_increases, lemma_pow2_unfold, pow2};
use crate::algebra::{
    lemma_fadd_cong, lemma_fmul_zero, lemma_fneg_cong, lemma_fpow_bound, lemma_fsub_cong,
    lemma_reduce_canonical,
};
use crate::field::{
    fadd, fmul, fneg, fpow, fsub, multiplicative_generator, odd_cofactor, scalar_root_of_unity,
    Scalar,
};
use crate::polynomial::{poly_eval, Polynomial};

verus! {

/// The largest supported exponent of the domain size: the field has roots of
/// unity of order `2^k` for `k` up to this.
pub const MAX_LOG_SIZE: u32 = 32;

/// The 2^32-th root of unity from which every domain generator is derived: the
/// multiplicative generator raised to the odd cofactor of the group order.
pub open spec fn root_of_unity() -> nat {
    fpow(multiplicative_generator(), odd_cofactor())
}

/// The least `k` with `2^k >= n`.
pub open spec fn log_size(n: nat) -> nat
    decreases n,
{
    if n <= 1 {
        0
    } else {
        1 + log_size((n + 1) / 2)
    }
}

/// The size of the domain for `n` gates: the least power of two that is at
/// least `n`.
pub open spec fn domain_size(n: nat) -> nat {
    pow2(log_size(n))
}

/// The generator of the domain for `n` gates: the fixed root of unity raised
/// to `2^(32 - k)`, where `2^k` is the size of the domain.
pub open spec fn domain_generator(n: nat) -> nat {
    fpow(root_of_unity(), pow2((32 - log_size(n)) as nat))
}

/// The constant that scales the coset of a wire class: one for the left
/// wires, `K1 = 7` for the right wires and `K2 = 13` for the output wires.
pub open spec fn coset_scale(class: int) -> nat {
    if class == 0 {
        1
    } else if class == 1 {
        7
    } else {
        13
    }
}

/// The point of the extended coset at position `w`, for `n` gates and the
/// generator `omega`: the power `omega^(i + 1)` for the position `i = w % n`
/// within the class, scaled by the constant of the class `w / n`.
pub open spec fn coset_point(omega: nat, n: nat, w: int) -> nat {
    fmul(coset_scale(w / (n as int)), fpow(omega, (w % (n as int) + 1) as nat))
}

/// The points of the extended coset for `n` gates and the generator `omega`:
/// the coset of the left wires, then that of the right wires, then that of
/// the output wires.
pub open spec fn coset_points(omega: nat, n: nat) -> Seq<nat> {
    Seq::new(3 * n, |w: int| coset_point(omega, n, w))
}

/// The coefficients of `X^size - 1`.
pub open spec fn vanishing_coefficients(size: nat) -> Seq<nat> {
    Seq::new(
        size + 1,
        |i: int|
            if i == size {
                1nat
            } else if i == 0 {
                fneg(1)
            } else {
                0nat
            },
    )
}

/// The coefficients of `X^degree`.
pub open spec fn monomial(degree: nat) -> Seq<nat> {
    Seq::new(
        degree + 1,
        |i: int|
            if i == degree {
                1nat
            } else {
                0nat
            },
    )
}

/// `log_size(n)` is the least exponent whose power of two reaches `n`.
pub proof fn lemma_log_size_is_least(n: nat)
    requires
        n >= 1,
    ensures
        pow2(log_size(n)) >= n,
        n >= 2 ==> log_size(n) >= 1 && pow2((log_size(n) - 1) as nat) < n,
    decreases n,
{
    lemma_pow2_pos(0);
    if n >= 2 {
        let half: nat = (n + 1) / 2;
        lemma_log_size_is_least(half);
        lemma_pow2_unfold(log_size(n));
        if half >= 2 {
            lemma_pow2_unfold(log_size(half));
        } else {
            assert(pow2(0) == 1) by {
                vstd::arithmetic::power2::lemma2_to64();
            }
        }
    } else {
        assert(pow2(0) == 1) by {
            vstd::arithmetic::power2::lemma2_to64();
        }
    }
}

/// A count that fits under `2^k` has a domain exponent of at most `k`.
pub proof fn lemma_log_size_bound(n: nat, k: nat)
    requires
        n <= pow2(k),
    ensures
        log_size(n) <= k,
    decreases n,
{
    if n >= 2 {
        if k == 0 {
            assert(pow2(0) == 1) by {
                vstd::arithmetic::power2::lemma2_to64();
            }
        } else {
            lemma_pow2_unfold(k);
            lemma_log_size_bound((n + 1) / 2, (k - 1) as nat);
        }
    }
}

/// `X^degree` takes the value `x^degree` at `x`.
pub proof fn lemma_eval_monomial(degree: nat, x: nat)
    ensures
        poly_eval(monomial(degree), x) == fpow(x, degree),
    decreases degree,
{
    let p = monomial(degree);
    if degree == 0 {
        assert(p.drop_first() =~= Seq::<nat>::empty());
        assert(poly_eval(p.drop_first(), x) == 0);
        lemma_fmul_zero(x);
        lemma_reduce_canonical(1);
        assert(poly_eval(p, x) == fadd(1, fmul(x, 0)));
    } else {
        lemma_eval_monomial((degree - 1) as nat, x);
        assert(p.drop_first() =~= monomial((degree - 1) as nat));
        lemma_fpow_bound(x, degree);
        lemma_reduce_canonical(fpow(x, degree));
        assert(poly_eval(p, x) == fadd(0, fmul(x, fpow(x, (degree - 1) as nat))));
        assert(fpow(x, degree) == fmul(x, fpow(x, (degree - 1) as nat)));
    }
}

/// `X^size - 1` takes the value `x^size - 1` at `x`.
pub proof fn lemma_eval_vanishing(size: nat, x: nat)
    requires
        size >= 1,
    ensures
        poly_eval(vanishing_coefficients(size), x) == fsub(fpow(x, size), 1),
{
    let p = vanishing_coefficients(size);
    assert(p.drop_first() =~= monomial((size - 1) as nat));
    lemma_eval_monomial((size - 1) as nat, x);
    let power: nat = fpow(x, size);
    lemma_fneg_cong(1, 1);
    lemma_fadd_cong(fneg(1), power, -1, power as int);
    lemma_fsub_cong(power, 1, power as int, 1);
}

/// The least `k` with `2^k >= n`.
pub fn log_size_of(n: usize) -> (k: u32)
    ensures
        k == log_size(n as nat),
        k <= 64,
{
    let mut rest: usize = n;
    let mut k: u32 = 0;
    proof {
        vstd::arithmetic::power2::lemma2_to64();
        lemma_log_size_bound(n as nat, 64);
    }
    while rest > 1
        invariant
            log_size(n as nat) == k + log_size(rest as nat),
            log_size(n as nat) <= 64,
        decreases rest,
    {
        rest = rest / 2 + rest % 2;
        k += 1;
    }
    k
}

/// The power of two with exponent `k`.
pub fn power_of_two(k: u32) -> (r: u64)
    requires
        k <= 63,
    ensures
        r == pow2(k as nat),
{
    let mut r: u64 = 1;
    let mut i: u32 = 0;
    proof {
        vstd::arithmetic::power2::lemma2_to64();
    }
    while i < k
        invariant
            i <= k,
            k <= 63,
            r == pow2(i as nat),
        decreases k - i,
    {
        proof {
            lemma_pow2_unfold((i + 1) as nat);
            if i + 1 < 63 {
                lemma_pow2_strictly_increases((i + 1) as nat, 63);
            }
            vstd::arithmetic::power2::lemma2_to64_rest();
        }
        r = 2 * r;
        i += 1;
    }
    r
}

/// The root of unity of order 2^32 that generates every domain.
pub fn primitive_root() -> (r: Scalar)
    ensures
        r.wf(),
        r@ == root_of_unity(),
{
    proof {
        lemma_fpow_bound(multiplicative_generator(), odd_cofactor());
    }
    scalar_root_of_unity()
}

/// The polynomial `X^size - 1`, which vanishes at every point whose `size`-th
/// power is one.
pub fn vanishing_polynomial(size: usize) -> (r: Polynomial)
    requires
        1 <= size < usize::MAX,
    ensures
        r.wf(),
        r@ == vanishing_coefficients(size as nat),
        forall|x: nat| #[trigger] poly_eval(r@, x) == fsub(fpow(x, size as nat), 1),
{
    let zero = Scalar::zero();
    let one = Scalar::one();
    let mut coefficients: Vec<Scalar> = Vec::new();
    coefficients.push(one.negated());
    let mut i: usize = 1;
    while i < size
        invariant
            1 <= i <= size,
            size < usize::MAX,
            zero.wf(),
            zero@ == 0,
            coefficients@.len() == i,
            coefficients@[0]@ == fneg(1),
            forall|j: int| 0 <= j < i ==> (#[trigger] coefficients@[j]).wf(),
            forall|j: int| 1 <= j < i ==> (#[trigger] coefficients@[j])@ == 0,
        decreases size - i,
    {
        coefficients.push(zero);
        i += 1;
    }
    coefficients.push(one);
    let r = Polynomial(coefficients);
    proof {
        assert(r@ =~= vanishing_coefficients(size as nat));
        assert forall|x: nat| #[trigger] poly_eval(r@, x) == fsub(fpow(x, size as nat), 1) by {
            lemma_eval_vanishing(size as nat, x);
        }
    }
    r
}

} // verus!
