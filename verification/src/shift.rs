//! How far an auxiliary constant must be shifted to cover a bound.
//!
//! Before a subtraction `a - b` every limb of `a` receives an auxiliary
//! constant that is at least as large as the bound of the matching limb of
//! `b`. The constants come from one base tuple, doubled as often as the
//! neediest limb asks for; every limb is doubled equally often, so the
//! shifted tuple stays a power-of-two multiple of the base tuple.

use crate::bignum::{
    big_bits,
    big_clone,
    big_from_u64,
    big_gt,
    big_shl,
    big_value,
    big_values,
};
use num_bigint::BigUint;
use vstd::arithmetic::power2::{
    lemma2_to64,
    lemma_pow2_adds,
    lemma_pow2_pos,
    lemma_pow2_unfold,
    pow2,
};
use vstd::prelude::*;

verus! {

/// How far `aux` lies below `bound`; zero once it has reached it.
pub open spec fn gap(bound: nat, aux: nat) -> nat {
    if bound > aux {
        (bound - aux) as nat
    } else {
        0
    }
}

/// The number of doublings after which `aux` is no longer below `bound`.
/// A zero `aux` never gets there and asks for none.
pub open spec fn required_shift(bound: nat, aux: nat) -> nat
    decreases gap(bound, aux),
{
    if aux == 0 || bound <= aux {
        0
    } else {
        1 + required_shift(bound, 2 * aux)
    }
}

/// The largest [`required_shift`] among the first `n` positions.
pub open spec fn max_shift_upto(bounds: Seq<nat>, aux: Seq<nat>, n: nat) -> nat
    decreases n,
{
    if n == 0 {
        0
    } else {
        let before = max_shift_upto(bounds, aux, (n - 1) as nat);
        let here = required_shift(bounds[n - 1], aux[n - 1]);
        if here > before {
            here
        } else {
            before
        }
    }
}

/// The one shift that is applied to every limb of the base tuple: the largest
/// shift that any position requires, and zero where none requires one.
/// Positions are those that both tuples have.
pub open spec fn aux_shift_spec(bounds: Seq<nat>, aux: Seq<nat>) -> nat {
    max_shift_upto(
        bounds,
        aux,
        if bounds.len() <= aux.len() {
            bounds.len()
        } else {
            aux.len()
        },
    )
}

/// The base tuple after `shift` doublings of every limb.
pub open spec fn shifted_aux(aux: Seq<nat>, shift: nat) -> Seq<nat> {
    Seq::new(aux.len(), |i: int| aux[i] * pow2(shift))
}

/// `required_shift` is the least number of doublings that lifts a positive
/// `aux` to `bound`: that many reach it, and any fewer stay strictly below.
pub proof fn lemma_required_shift_is_least(bound: nat, aux: nat)
    requires
        aux > 0,
    ensures
        aux * pow2(required_shift(bound, aux)) >= bound,
        forall|k: nat| k < required_shift(bound, aux) ==> aux * #[trigger] pow2(k) < bound,
    decreases gap(bound, aux),
{
    lemma2_to64();
    if bound <= aux {
        assert(aux * pow2(0) == aux) by (nonlinear_arith)
            requires
                pow2(0) == 1,
        ;
    } else {
        lemma_required_shift_is_least(bound, 2 * aux);
        let rest = required_shift(bound, 2 * aux);
        lemma_pow2_unfold(rest + 1);
        assert(aux * pow2(rest + 1) == (2 * aux) * pow2(rest)) by (nonlinear_arith)
            requires
                pow2(rest + 1) == 2 * pow2(rest),
        ;
        assert forall|k: nat| k < 1 + rest implies aux * #[trigger] pow2(k) < bound by {
            if k == 0 {
                assert(aux * pow2(0) == aux) by (nonlinear_arith)
                    requires
                        pow2(0) == 1,
                ;
            } else {
                let j = (k - 1) as nat;
                lemma_pow2_unfold(k);
                assert(aux * pow2(k) == (2 * aux) * pow2(j)) by (nonlinear_arith)
                    requires
                        pow2(k) == 2 * pow2(j),
                ;
                assert((2 * aux) * pow2(j) < bound);
            }
        }
    }
}

/// Doubling further never loses the bound: once `aux * 2^k` has reached
/// `bound`, so has `aux * 2^m` for every `m >= k`.
pub proof fn lemma_shift_monotonic(bound: nat, aux: nat, k: nat, m: nat)
    requires
        k <= m,
        aux * pow2(k) >= bound,
    ensures
        aux * pow2(m) >= bound,
{
    let d = (m - k) as nat;
    lemma_pow2_adds(k, d);
    lemma_pow2_pos(d);
    assert(aux * pow2(m) >= aux * pow2(k)) by (nonlinear_arith)
        requires
            pow2(m) == pow2(k) * pow2(d),
            pow2(d) > 0,
    ;
}

/// The applied shift is the maximum of the shifts that the positions require:
/// no position requires more, and with at least one position some position
/// requires exactly that much.
pub proof fn lemma_aux_shift_is_max(bounds: Seq<nat>, aux: Seq<nat>, n: nat)
    ensures
        forall|i: int|
            0 <= i < n ==> required_shift(#[trigger] bounds[i], aux[i]) <= max_shift_upto(
                bounds,
                aux,
                n,
            ),
        n > 0 ==> exists|i: int|
            0 <= i < n && required_shift(#[trigger] bounds[i], aux[i]) == max_shift_upto(
                bounds,
                aux,
                n,
            ),
        n == 0 ==> max_shift_upto(bounds, aux, n) == 0,
    decreases n,
{
    if n > 0 {
        let m = (n - 1) as nat;
        lemma_aux_shift_is_max(bounds, aux, m);
        let before = max_shift_upto(bounds, aux, m);
        let here = required_shift(bounds[n - 1], aux[n - 1]);
        if here > before || m == 0 {
            assert(required_shift(bounds[n - 1], aux[n - 1]) == max_shift_upto(bounds, aux, n));
        } else {
            let w = choose|i: int|
                0 <= i < m && required_shift(#[trigger] bounds[i], aux[i]) == before;
            assert(required_shift(bounds[w], aux[w]) == max_shift_upto(bounds, aux, n));
        }
    }
}

/// After the applied shift every limb of the auxiliary tuple covers the bound
/// at its position, provided that no base constant is zero.
pub proof fn lemma_shifted_aux_covers(bounds: Seq<nat>, aux: Seq<nat>)
    requires
        bounds.len() == aux.len(),
        forall|i: int| 0 <= i < aux.len() ==> #[trigger] aux[i] > 0,
    ensures
        forall|i: int|
            0 <= i < bounds.len() ==> #[trigger] shifted_aux(
                aux,
                aux_shift_spec(bounds, aux),
            )[i] >= bounds[i],
{
    let shift = aux_shift_spec(bounds, aux);
    lemma_aux_shift_is_max(bounds, aux, bounds.len());
    assert forall|i: int| 0 <= i < bounds.len() implies #[trigger] shifted_aux(aux, shift)[i]
        >= bounds[i] by {
        lemma_required_shift_is_least(bounds[i], aux[i]);
        lemma_shift_monotonic(bounds[i], aux[i], required_shift(bounds[i], aux[i]), shift);
    }
}

/// Counts the doublings that lift `aux` to `bound`: `aux` is doubled while
/// `bound` is strictly greater. A zero `aux` is left alone.
///
/// A positive `aux` has passed `bound` at the latest after as many doublings
/// as `bound` has bits, which keeps the count within `u64`.
pub fn count_doublings(bound: &BigUint, aux: &BigUint) -> (k: u64)
    ensures
        k == required_shift(big_value(*bound), big_value(*aux)),
{
    let ghost b = big_value(*bound);
    let ghost a = big_value(*aux);
    let zero = big_from_u64(0);
    if !big_gt(aux, &zero) {
        return 0;
    }
    let limit = big_bits(bound);
    let mut cur = big_clone(aux);
    let mut k: u64 = 0;
    proof {
        lemma2_to64();
        assert(a * pow2(0) == a) by (nonlinear_arith)
            requires
                pow2(0) == 1,
        ;
    }
    while k < limit && big_gt(bound, &cur)
        invariant
            b == big_value(*bound),
            a > 0,
            k <= limit,
            big_value(cur) == a * pow2(k as nat),
            required_shift(b, a) == k + required_shift(b, big_value(cur)),
        decreases limit - k,
    {
        proof {
            lemma2_to64();
            lemma_pow2_pos(k as nat);
            assert(a * pow2(k as nat) > 0) by (nonlinear_arith)
                requires
                    a >= 1,
                    pow2(k as nat) > 0,
            ;
            lemma_pow2_unfold((k + 1) as nat);
            assert(a * pow2((k + 1) as nat) == 2 * (a * pow2(k as nat))) by (nonlinear_arith)
                requires
                    pow2((k + 1) as nat) == 2 * pow2(k as nat),
            ;
        }
        let ghost before = big_value(cur);
        cur = big_shl(&cur, 1);
        assert(big_value(cur) == 2 * before) by (nonlinear_arith)
            requires
                big_value(cur) == before * pow2(1),
                pow2(1) == 2,
        ;
        k = k + 1;
    }
    proof {
        if k == limit {
            lemma_pow2_pos(k as nat);
            assert(pow2(k as nat) <= a * pow2(k as nat)) by (nonlinear_arith)
                requires
                    a >= 1,
                    pow2(k as nat) > 0,
            ;
        }
    }
    k
}

/// `a` shifted left by a count that may exceed what one machine-word shift
/// can take: the shift is applied in steps, and no bit is lost.
pub fn shift_left(a: &BigUint, n: u64) -> (r: BigUint)
    ensures
        big_value(r) == big_value(*a) * pow2(n as nat),
{
    let mut r = big_clone(a);
    let mut left: u64 = n;
    proof {
        lemma2_to64();
        assert(big_value(r) * pow2(0) == big_value(r)) by (nonlinear_arith)
            requires
                pow2(0) == 1,
        ;
    }
    while left > 0
        invariant
            left <= n,
            big_value(r) == big_value(*a) * pow2((n - left) as nat),
        decreases left,
    {
        let step: u32 = if left > 0xffff_ffff {
            0xffff_ffff
        } else {
            left as u32
        };
        let ghost done = (n - left) as nat;
        let ghost before = big_value(r);
        r = big_shl(&r, step as usize);
        proof {
            lemma_pow2_adds(done, step as nat);
            assert(big_value(r) == big_value(*a) * pow2(done + step as nat)) by (nonlinear_arith)
                requires
                    big_value(r) == before * pow2(step as nat),
                    before == big_value(*a) * pow2(done),
                    pow2(done + step as nat) == pow2(done) * pow2(step as nat),
            ;
        }
        left = left - step as u64;
    }
    r
}

/// The shift that [`aux_shift_spec`] names, for bounds and base constants
/// given as big integers.
pub fn aux_shift_of(bounds: &Vec<BigUint>, aux: &Vec<BigUint>) -> (shift: u64)
    ensures
        shift == aux_shift_spec(big_values(bounds@), big_values(aux@)),
{
    let n = if bounds.len() <= aux.len() {
        bounds.len()
    } else {
        aux.len()
    };
    let mut max_shift: u64 = 0;
    let mut i: usize = 0;
    while i < n
        invariant
            i <= n,
            n <= bounds@.len(),
            n <= aux@.len(),
            max_shift == max_shift_upto(big_values(bounds@), big_values(aux@), i as nat),
        decreases n - i,
    {
        let shift = count_doublings(&bounds[i], &aux[i]);
        if shift > max_shift {
            max_shift = shift;
        }
        i = i + 1;
    }
    max_shift
}

} // verus!
