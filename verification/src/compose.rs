//! Positional composition of limbs into one natural number.
//!
//! A tuple of limbs `l[0], l[1], ..` with limb width `b` stands for
//! `l[0] + l[1] * 2^b + l[2] * 2^(2b) + ..`. Nothing asks the limbs to stay
//! below `2^b`: bounds that have grown past the limb width compose by the
//! same formula.

use crate::bignum::{big_add, big_from_u64, big_shl, big_value, big_values};
use num_bigint::BigUint;
use vstd::arithmetic::mul::lemma_mul_is_distributive_add;
use vstd::arithmetic::power2::{lemma2_to64, lemma_pow2_adds, pow2};
use vstd::prelude::*;

verus! {

/// The number that `limbs` stand for in base `2^bit_len`, least significant
/// limb first: limb `i` has the weight `2^(bit_len * i)`.
pub open spec fn compose_spec(limbs: Seq<nat>, bit_len: nat) -> nat
    decreases limbs.len(),
{
    if limbs.len() == 0 {
        0
    } else {
        compose_spec(limbs.drop_last(), bit_len) + limbs.last() * pow2(
            bit_len * ((limbs.len() - 1) as nat),
        )
    }
}

/// Putting a limb in front of a tuple moves every other limb up by one
/// position: `compose([x] + s) == x + 2^bit_len * compose(s)`.
pub proof fn lemma_compose_prepend(x: nat, s: Seq<nat>, bit_len: nat)
    ensures
        compose_spec(seq![x] + s, bit_len) == x + pow2(bit_len) * compose_spec(s, bit_len),
    decreases s.len(),
{
    let xs = seq![x] + s;
    if s.len() == 0 {
        assert(xs.drop_last() =~= Seq::<nat>::empty());
        assert(xs.last() == x);
        assert(compose_spec(xs.drop_last(), bit_len) == 0);
        assert(bit_len * 0 == 0) by (nonlinear_arith);
        assert(pow2(0) == 1) by {
            lemma2_to64();
        }
        assert(x * pow2(bit_len * ((xs.len() - 1) as nat)) == x) by (nonlinear_arith)
            requires
                pow2(bit_len * ((xs.len() - 1) as nat)) == 1,
        ;
        assert(pow2(bit_len) * 0 == 0) by (nonlinear_arith);
    } else {
        let n = s.len();
        let front = s.drop_last();
        let top = s.last();
        assert(xs.drop_last() =~= seq![x] + front);
        assert(xs.last() == top);
        lemma_compose_prepend(x, front, bit_len);
        let low = (bit_len * ((n - 1) as nat)) as nat;
        let high = (bit_len * n) as nat;
        assert(high == bit_len + low) by (nonlinear_arith)
            requires
                n >= 1,
                low == bit_len * (n - 1),
                high == bit_len * n,
        ;
        lemma_pow2_adds(bit_len, low);
        assert(pow2(bit_len) * (top * pow2(low)) == top * pow2(high)) by (nonlinear_arith)
            requires
                pow2(high) == pow2(bit_len) * pow2(low),
        ;
        lemma_mul_is_distributive_add(
            pow2(bit_len) as int,
            compose_spec(front, bit_len) as int,
            (top * pow2(low)) as int,
        );
        assert(compose_spec(s, bit_len) == compose_spec(front, bit_len) + top * pow2(low));
        assert(compose_spec(xs, bit_len) == compose_spec(seq![x] + front, bit_len) + top * pow2(
            high,
        ));
    }
}

/// Composition is monotonic: a tuple that is nowhere larger than another
/// composes to a number that is no larger. So limbs that keep to their bounds
/// compose to a value that keeps to the composed bound.
pub proof fn lemma_compose_monotonic(small: Seq<nat>, large: Seq<nat>, bit_len: nat)
    requires
        small.len() == large.len(),
        forall|i: int| 0 <= i < small.len() ==> small[i] <= large[i],
    ensures
        compose_spec(small, bit_len) <= compose_spec(large, bit_len),
    decreases small.len(),
{
    if small.len() > 0 {
        lemma_compose_monotonic(small.drop_last(), large.drop_last(), bit_len);
        let weight = pow2(bit_len * ((small.len() - 1) as nat));
        assert(small.last() * weight <= large.last() * weight) by (nonlinear_arith)
            requires
                small.last() <= large.last(),
        ;
    }
}

/// Composes big integers as limbs of `bit_len` bits each, least significant
/// first. The result is the positional sum of [`compose_spec`]; limbs wider
/// than `bit_len` bits overlap their neighbours by plain addition.
pub fn compose(input: Vec<BigUint>, bit_len: usize) -> (r: BigUint)
    ensures
        big_value(r) == compose_spec(big_values(input@), bit_len as nat),
{
    let ghost limbs = big_values(input@);
    let mut acc = big_from_u64(0);
    let mut i: usize = input.len();
    assert(limbs.subrange(i as int, limbs.len() as int) =~= Seq::<nat>::empty());
    while i > 0
        invariant
            i <= input.len(),
            limbs == big_values(input@),
            big_value(acc) == compose_spec(
                limbs.subrange(i as int, limbs.len() as int),
                bit_len as nat,
            ),
        decreases i,
    {
        i = i - 1;
        let shifted = big_shl(&acc, bit_len);
        let ghost tail = limbs.subrange(i + 1, limbs.len() as int);
        proof {
            lemma_compose_prepend(limbs[i as int], tail, bit_len as nat);
            assert(seq![limbs[i as int]] + tail =~= limbs.subrange(i as int, limbs.len() as int));
            assert(big_value(shifted) == pow2(bit_len as nat) * compose_spec(tail, bit_len as nat))
                by (nonlinear_arith)
                requires
                    big_value(shifted) == big_value(acc) * pow2(bit_len as nat),
                    big_value(acc) == compose_spec(tail, bit_len as nat),
            ;
        }
        acc = big_add(&shifted, &input[i]);
    }
    assert(limbs.subrange(0, limbs.len() as int) =~= limbs);
    acc
}

} // verus!
