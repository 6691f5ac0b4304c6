//! The wire permutation: a mapping from wire ids to wire ids whose cycles tie
//! together the wires that must carry one value.

use vstd::prelude::*;

verus! {

/// The mapping is defined exactly on the wires below `n`, and maps them to
/// wires below `n`.
pub open spec fn is_total(perm: Map<usize, usize>, n: nat) -> bool {
    &&& forall|w: usize| perm.contains_key(w) <==> w < n
    &&& forall|w: usize| w < n ==> #[trigger] perm[w] < n
}

/// No two wires below `n` share a target.
pub open spec fn is_injective(perm: Map<usize, usize>, n: nat) -> bool {
    forall|u: usize, v: usize| u < n && v < n && #[trigger] perm[u] == #[trigger] perm[v] ==> u == v
}

/// Some wire below `n` is mapped to `w`.
pub open spec fn has_source(perm: Map<usize, usize>, n: nat, w: usize) -> bool {
    exists|u: usize| u < n && #[trigger] perm[u] == w
}

/// Every wire below `n` is the target of a wire below `n`.
pub open spec fn is_surjective(perm: Map<usize, usize>, n: nat) -> bool {
    forall|w: usize| w < n ==> #[trigger] has_source(perm, n, w)
}

/// The mapping is a bijection on the wires below `n`: each of them appears
/// exactly once as a target.
pub open spec fn is_bijection(perm: Map<usize, usize>, n: nat) -> bool {
    is_total(perm, n) && is_injective(perm, n) && is_surjective(perm, n)
}

/// The mapping with three more wires, `n`, `n + 1` and `n + 2`, each mapped to
/// itself.
pub open spec fn extended_by_gate(perm: Map<usize, usize>, n: usize) -> Map<usize, usize>
    recommends
        n + 3 <= usize::MAX,
{
    perm.insert(n, n).insert((n + 1) as usize, (n + 1) as usize).insert(
        (n + 2) as usize,
        (n + 2) as usize,
    )
}

/// The mapping after the wire `u` has been connected to the wire `v`: `u` now
/// points to `v`, and `v` takes over the old successor of `u`.
pub open spec fn spliced(perm: Map<usize, usize>, u: usize, v: usize) -> Map<usize, usize> {
    perm.insert(u, v).insert(v, perm[u])
}

/// The wire reached from `start` after `steps` applications of the mapping.
pub open spec fn iterate(perm: Map<usize, usize>, start: usize, steps: nat) -> usize
    decreases steps,
{
    if steps == 0 {
        start
    } else {
        iterate(perm, perm[start], (steps - 1) as nat)
    }
}

/// Following the mapping from `start` leads to `goal` in some number of steps.
pub open spec fn reaches(perm: Map<usize, usize>, start: usize, goal: usize) -> bool {
    exists|steps: nat| iterate(perm, start, steps) == goal
}

/// The wire lies on a cycle: following the mapping from it leads back to it.
pub open spec fn on_cycle(perm: Map<usize, usize>, wire: usize) -> bool {
    exists|steps: nat| steps > 0 && iterate(perm, wire, steps) == wire
}

/// Following the mapping from `u` passes `v` and `w` before it first comes
/// back to `u`.
pub open spec fn on_one_cycle(perm: Map<usize, usize>, u: usize, v: usize, w: usize) -> bool {
    exists|a: nat, b: nat, back: nat|
        {
            &&& 0 < a < back
            &&& 0 < b < back
            &&& #[trigger] iterate(perm, u, a) == v
            &&& #[trigger] iterate(perm, u, b) == w
            &&& #[trigger] iterate(perm, u, back) == u
            &&& forall|s: nat| 0 < s < back ==> iterate(perm, u, s) != u
        }
}

/// Adding the three wires of a gate keeps the mapping total.
pub proof fn lemma_gate_keeps_total(perm: Map<usize, usize>, n: usize)
    requires
        is_total(perm, n as nat),
        n + 3 <= usize::MAX,
    ensures
        is_total(extended_by_gate(perm, n), (n + 3) as nat),
{
}

/// Adding the three wires of a gate, each mapped to itself, keeps a bijection
/// a bijection.
pub proof fn lemma_gate_keeps_bijection(perm: Map<usize, usize>, n: usize)
    requires
        is_bijection(perm, n as nat),
        n + 3 <= usize::MAX,
    ensures
        is_bijection(extended_by_gate(perm, n), (n + 3) as nat),
{
    let next = extended_by_gate(perm, n);
    assert forall|w: usize| w < n + 3 implies #[trigger] has_source(next, (n + 3) as nat, w) by {
        if w < n {
            assert(has_source(perm, n as nat, w));
            let u = choose|u: usize| u < n && #[trigger] perm[u] == w;
            assert(next[u] == w);
        } else {
            assert(next[w] == w);
        }
    }
}

/// Connecting two existing wires keeps the mapping total.
pub proof fn lemma_splice_keeps_total(perm: Map<usize, usize>, n: nat, u: usize, v: usize)
    requires
        is_total(perm, n),
        u < n,
        v < n,
    ensures
        is_total(spliced(perm, u, v), n),
{
}

/// Connecting `u` to `v` keeps a bijection a bijection exactly when `v` was
/// mapped to itself, or `u` and `v` are one wire.
pub proof fn lemma_splice_bijection(perm: Map<usize, usize>, n: nat, u: usize, v: usize)
    requires
        is_bijection(perm, n),
        u < n,
        v < n,
    ensures
        is_bijection(spliced(perm, u, v), n) <==> (u == v || perm[v] == v),
{
    let next = spliced(perm, u, v);
    if u == v {
        assert(next =~= perm);
    } else if perm[v] == v {
        assert forall|a: usize, b: usize|
            a < n && b < n && #[trigger] next[a] == #[trigger] next[b] implies a == b by {
            if a == u && b != u {
                // next[b] == v, and only v itself pointed to v before
                if b == v {
                    assert(perm[u] == perm[v]);
                } else {
                    assert(perm[b] == perm[v]);
                }
            } else if b == u && a != u {
                if a == v {
                    assert(perm[u] == perm[v]);
                } else {
                    assert(perm[a] == perm[v]);
                }
            } else if a == v && b != v {
                assert(perm[b] == perm[u]);
            } else if b == v && a != v {
                assert(perm[a] == perm[u]);
            } else if a != b {
                assert(perm[a] == perm[b]);
            }
        }
        assert forall|w: usize| w < n implies #[trigger] has_source(next, n, w) by {
            if w == v {
                assert(next[u] == w);
            } else if w == perm[u] {
                assert(next[v] == w);
            } else {
                assert(has_source(perm, n, w));
                let a = choose|a: usize| a < n && #[trigger] perm[a] == w;
                assert(a != u);
                assert(a != v);
                assert(next[a] == w);
            }
        }
    } else {
        // v keeps its old predecessor and gains u: two wires point to v
        assert(has_source(perm, n, v));
        let t = choose|t: usize| t < n && #[trigger] perm[t] == v;
        if t == u {
            // then nothing points to the old successor of v any more
            let old_target = perm[v];
            if is_surjective(next, n) {
                assert(has_source(next, n, old_target));
                let a = choose|a: usize| a < n && #[trigger] next[a] == old_target;
                if a == u {
                } else if a == v {
                    assert(perm[u] == perm[v]);
                } else {
                    assert(perm[a] == perm[v]);
                }
            }
        } else {
            assert(t != v);
            assert(next[t] == v && next[u] == v);
        }
    }
}

/// Following the old mapping from the old successor of `u` leads back to `u`
/// without passing `v` or `w` on the way.
pub open spec fn returns_avoiding(perm: Map<usize, usize>, u: usize, v: usize, w: usize) -> bool {
    exists|steps: nat| #[trigger] path_avoids(perm, perm[u], u, v, w, steps)
}

/// Following the mapping from `start` leads to `goal` in `steps` steps, and
/// none of the wires passed before is `v` or `w`.
pub open spec fn path_avoids(
    perm: Map<usize, usize>,
    start: usize,
    goal: usize,
    v: usize,
    w: usize,
    steps: nat,
) -> bool {
    &&& iterate(perm, start, steps) == goal
    &&& forall|s: nat| s < steps ==> #[trigger] iterate(perm, start, s) != v && iterate(
        perm,
        start,
        s,
    ) != w
}

/// Steps add: going `a` steps and then `b` more is going `a + b` steps.
pub proof fn lemma_iterate_add(perm: Map<usize, usize>, start: usize, a: nat, b: nat)
    ensures
        iterate(perm, start, a + b) == iterate(perm, iterate(perm, start, a), b),
    decreases a,
{
    if a > 0 {
        lemma_iterate_add(perm, perm[start], (a - 1) as nat, b);
        assert((a + b - 1) as nat == (a - 1) as nat + b);
    }
}

/// A wire that comes back to itself has a first time at which it does.
pub proof fn lemma_first_return(perm: Map<usize, usize>, wire: usize, steps: nat) -> (first: nat)
    requires
        steps > 0,
        iterate(perm, wire, steps) == wire,
    ensures
        0 < first <= steps,
        iterate(perm, wire, first) == wire,
        forall|s: nat| 0 < s < first ==> iterate(perm, wire, s) != wire,
    decreases steps,
{
    if exists|s: nat| 0 < s < steps && iterate(perm, wire, s) == wire {
        let s = choose|s: nat| 0 < s < steps && iterate(perm, wire, s) == wire;
        lemma_first_return(perm, wire, s)
    } else {
        steps
    }
}

/// Where two mappings agree everywhere but on `u`, `v` and `w`, a path of the
/// first that leads to `u` and avoids `v` and `w` gives a path of the second
/// that leads to `u`.
proof fn lemma_path_carries_over(
    perm: Map<usize, usize>,
    next: Map<usize, usize>,
    start: usize,
    u: usize,
    v: usize,
    w: usize,
    steps: nat,
) -> (taken: nat)
    requires
        forall|x: usize| x != u && x != v && x != w ==> #[trigger] next[x] == perm[x],
        path_avoids(perm, start, u, v, w, steps),
        u != v,
        u != w,
    ensures
        taken <= steps,
        iterate(next, start, taken) == u,
    decreases steps,
{
    if start == u {
        0
    } else {
        assert(iterate(perm, start, 0) == start);
        assert(steps > 0);
        assert(start != v && start != w);
        assert forall|s: nat| s < steps - 1 implies #[trigger] iterate(perm, perm[start], s) != v
            && iterate(perm, perm[start], s) != w by {
            assert(iterate(perm, start, s + 1) == iterate(perm, perm[start], s));
        }
        let rest = lemma_path_carries_over(perm, next, perm[start], u, v, w, (steps - 1) as nat);
        rest + 1
    }
}

/// Connecting `u` to `v` and then `v` to `w` puts the three wires on one
/// cycle: following the mapping from `u` passes `v`, then `w`, and comes back
/// to `u` only after both.
///
/// This holds for three different wires whenever the old path from the
/// successor of `u` back to `u` does not pass `v` or `w`, as it does when
/// `v` and `w` are fresh.
pub proof fn lemma_chained_connections_form_cycle(
    perm: Map<usize, usize>,
    n: nat,
    u: usize,
    v: usize,
    w: usize,
)
    requires
        is_total(perm, n),
        u < n,
        v < n,
        w < n,
        u != v,
        v != w,
        u != w,
        returns_avoiding(perm, u, v, w),
    ensures
        ({
            let next = spliced(spliced(perm, u, v), v, w);
            &&& next[u] == v
            &&& next[v] == w
            &&& next[w] == perm[u]
            &&& on_one_cycle(next, u, v, w)
        }),
{
    let next = spliced(spliced(perm, u, v), v, w);
    let steps = choose|steps: nat| #[trigger] path_avoids(perm, perm[u], u, v, w, steps);
    let taken = lemma_path_carries_over(perm, next, perm[u], u, v, w, steps);
    reveal_with_fuel(iterate, 4);
    lemma_iterate_add(next, u, 3, taken);
    assert(iterate(next, u, 1) == v);
    assert(iterate(next, u, 2) == w);
    assert(iterate(next, u, 3) == perm[u]);
    let back = lemma_first_return(next, u, 3 + taken);
    assert(back != 1 && back != 2);
    assert(iterate(next, u, 1nat) == v && iterate(next, u, 2nat) == w && iterate(next, u, back)
        == u);
}

/// A wire that is mapped to itself is where every path from it stays.
pub proof fn lemma_fixed_point_stays(perm: Map<usize, usize>, wire: usize, steps: nat)
    requires
        perm[wire] == wire,
    ensures
        iterate(perm, wire, steps) == wire,
    decreases steps,
{
    if steps > 0 {
        lemma_fixed_point_stays(perm, wire, (steps - 1) as nat);
    }
}

/// A wire on a cycle comes back to itself without passing a wire that is
/// mapped to itself: fresh wires stand in nobody's way.
pub proof fn lemma_fresh_wires_are_avoided(perm: Map<usize, usize>, u: usize, v: usize, w: usize)
    requires
        on_cycle(perm, u),
        perm[v] == v,
        perm[w] == w,
        u != v,
        u != w,
    ensures
        returns_avoiding(perm, u, v, w),
{
    let steps = choose|steps: nat| steps > 0 && iterate(perm, u, steps) == u;
    let rest: nat = (steps - 1) as nat;
    assert(iterate(perm, perm[u], rest) == u);
    assert forall|s: nat| s < rest implies #[trigger] iterate(perm, perm[u], s) != v && iterate(
        perm,
        perm[u],
        s,
    ) != w by {
        let here = iterate(perm, perm[u], s);
        lemma_iterate_add(perm, perm[u], s, (rest - s) as nat);
        assert(s + (rest - s) as nat == rest);
        if here == v {
            lemma_fixed_point_stays(perm, v, (rest - s) as nat);
        }
        if here == w {
            lemma_fixed_point_stays(perm, w, (rest - s) as nat);
        }
    }
    assert(path_avoids(perm, perm[u], u, v, w, rest));
}

/// Among more than `n` numbers below `n`, two are equal.
pub proof fn lemma_pigeonhole(s: Seq<int>, n: nat) -> (pair: (int, int))
    requires
        s.len() > n,
        forall|i: int| 0 <= i < s.len() ==> 0 <= #[trigger] s[i] < n,
    ensures
        0 <= pair.0 < pair.1 < s.len(),
        s[pair.0] == s[pair.1],
    decreases n,
{
    if n == 0 {
        let first: int = s[0];
        assert(0 <= first < n);
        (0, 0)
    } else {
        let top: int = n - 1;
        if exists|p: int| 0 <= p < s.len() && s[p] == top {
            let p = choose|p: int| 0 <= p < s.len() && s[p] == top;
            if exists|q: int| 0 <= q < s.len() && q != p && s[q] == top {
                let q = choose|q: int| 0 <= q < s.len() && q != p && s[q] == top;
                if p < q {
                    (p, q)
                } else {
                    (q, p)
                }
            } else {
                let rest = s.remove(p);
                assert forall|i: int| 0 <= i < rest.len() implies 0 <= #[trigger] rest[i] < n
                    - 1 by {
                    if i < p {
                        assert(rest[i] == s[i]);
                    } else {
                        assert(rest[i] == s[i + 1]);
                    }
                }
                let (a, b) = lemma_pigeonhole(rest, (n - 1) as nat);
                let i: int = if a < p {
                    a
                } else {
                    a + 1
                };
                let j: int = if b < p {
                    b
                } else {
                    b + 1
                };
                (i, j)
            }
        } else {
            lemma_pigeonhole(s, (n - 1) as nat)
        }
    }
}

/// Following a total mapping never leaves the wires below `n`.
pub proof fn lemma_iterate_stays(perm: Map<usize, usize>, n: nat, start: usize, steps: nat)
    requires
        is_total(perm, n),
        start < n,
    ensures
        iterate(perm, start, steps) < n,
    decreases steps,
{
    if steps > 0 {
        lemma_iterate_stays(perm, n, perm[start], (steps - 1) as nat);
    }
}

/// Where an injective mapping brings a wire to one place after `i` and after
/// `j` steps, it brings the wire back to itself after `j - i` steps.
proof fn lemma_peel(perm: Map<usize, usize>, n: nat, wire: usize, i: nat, j: nat)
    requires
        is_total(perm, n),
        is_injective(perm, n),
        wire < n,
        i <= j,
        iterate(perm, wire, i) == iterate(perm, wire, j),
    ensures
        iterate(perm, wire, (j - i) as nat) == wire,
    decreases i,
{
    if i > 0 {
        let a = iterate(perm, wire, (i - 1) as nat);
        let b = iterate(perm, wire, (j - 1) as nat);
        lemma_iterate_add(perm, wire, (i - 1) as nat, 1);
        lemma_iterate_add(perm, wire, (j - 1) as nat, 1);
        lemma_iterate_stays(perm, n, wire, (i - 1) as nat);
        lemma_iterate_stays(perm, n, wire, (j - 1) as nat);
        reveal_with_fuel(iterate, 2);
        assert(perm[a] == perm[b]);
        lemma_peel(perm, n, wire, (i - 1) as nat, (j - 1) as nat);
    }
}

/// Every wire of a bijection lies on a cycle.
pub proof fn lemma_bijection_has_cycles(perm: Map<usize, usize>, n: nat, wire: usize)
    requires
        is_bijection(perm, n),
        wire < n,
    ensures
        on_cycle(perm, wire),
{
    let orbit = Seq::new(n + 1, |k: int| iterate(perm, wire, k as nat) as int);
    assert forall|k: int| 0 <= k < orbit.len() implies 0 <= #[trigger] orbit[k] < n by {
        lemma_iterate_stays(perm, n, wire, k as nat);
    }
    let (i, j) = lemma_pigeonhole(orbit, n);
    lemma_peel(perm, n, wire, i as nat, j as nat);
    assert(iterate(perm, wire, (j - i) as nat) == wire);
}

/// In a bijection, connecting `u` to a fresh wire `v` and then `v` to a
/// fresh wire `w` keeps the mapping a bijection and puts the three wires on
/// one cycle. A wire is fresh while it is mapped to itself.
pub proof fn lemma_chained_fresh_connections(
    perm: Map<usize, usize>,
    n: nat,
    u: usize,
    v: usize,
    w: usize,
)
    requires
        is_bijection(perm, n),
        u < n,
        v < n,
        w < n,
        u != v,
        v != w,
        u != w,
        perm[v] == v,
        perm[w] == w,
    ensures
        is_bijection(spliced(spliced(perm, u, v), v, w), n),
        on_one_cycle(spliced(spliced(perm, u, v), v, w), u, v, w),
{
    lemma_bijection_has_cycles(perm, n, u);
    lemma_fresh_wires_are_avoided(perm, u, v, w);
    lemma_chained_connections_form_cycle(perm, n, u, v, w);
    lemma_splice_bijection(perm, n, u, v);
    lemma_splice_bijection(spliced(perm, u, v), n, v, w);
}

} // verus!
