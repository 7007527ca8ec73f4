//! A committed integer: limbs with their bounds, the native projection that
//! cross-checks them, and the shared parameters.

use crate::bignum::{big_value, big_values};
use crate::compose::{compose, compose_spec, lemma_compose_monotonic};
use crate::limb::{without_bound, AssignedLimb, AssignedLimbView};
use crate::rns::{Integer, IntegerView, Limb, Rns, RnsView};
use crate::shift::{
    aux_shift_of,
    aux_shift_spec,
    lemma_aux_shift_is_max,
    lemma_shifted_aux_covers,
    required_shift,
    shift_left,
    shifted_aux,
};
use crate::value::{AssignedValue, AssignedValueView};
use num_bigint::BigUint;
use std::rc::Rc;
use vstd::arithmetic::div_mod::lemma_small_mod;
use vstd::arithmetic::power2::pow2;
use vstd::prelude::*;

verus! {

/// What an assigned integer stands for.
pub struct AssignedIntegerView<C> {
    /// The limbs, least significant first.
    pub limbs: Seq<AssignedLimbView<C>>,
    /// The value in the native field.
    pub native: AssignedValueView<C>,
    /// The parameters shared by all integers of the instantiation.
    pub rns: RnsView,
}

impl<C> AssignedIntegerView<C> {
    /// The bound of each limb.
    pub open spec fn max_vals(self) -> Seq<nat> {
        Seq::new(self.limbs.len(), |i: int| self.limbs[i].max_val)
    }

    /// The bound of the whole integer: the bounds of the limbs, composed
    /// like limbs.
    pub open spec fn max_val(self, bit_len: nat) -> nat {
        compose_spec(self.max_vals(), bit_len)
    }

    /// Whether every limb holds a witness.
    pub open spec fn fully_assigned(self) -> bool {
        forall|i: int| 0 <= i < self.limbs.len() ==> (#[trigger] self.limbs[i]).value is Some
    }

    /// The witness of each limb. It says nothing of a limb without one.
    pub open spec fn limb_values(self) -> Seq<nat> {
        Seq::new(self.limbs.len(), |i: int| self.limbs[i].value.unwrap())
    }

    /// The witness integer behind the limbs: present when every limb holds a
    /// witness, absent as a whole when any limb does not.
    pub open spec fn integer(self) -> Option<IntegerView> {
        if self.fully_assigned() {
            Some(IntegerView { limbs: self.limb_values(), rns: self.rns })
        } else {
            None
        }
    }

    /// Whether the native projection is the one that the limbs determine:
    /// every limb holds a witness, and the witnesses compose, in base
    /// `2^bit_len`, to a number whose residue is the native value.
    pub open spec fn native_consistent(self, bit_len: nat) -> bool {
        &&& self.fully_assigned()
        &&& self.native.value == Some(self.rns.to_native(compose_spec(self.limb_values(), bit_len)))
    }

    /// Whether this is what assigning `integer` gives when the limbs receive
    /// the bounds `max_vals`: every limb holds the matching limb of the
    /// integer as its witness and the matching bound, and the native value is
    /// the integer's projection. Cells are left open.
    pub open spec fn assigns(self, integer: IntegerView, max_vals: Seq<nat>, bit_len: nat) -> bool {
        &&& self.rns == integer.rns
        &&& self.limbs.len() == integer.limbs.len()
        &&& self.limbs.len() == max_vals.len()
        &&& forall|i: int|
            0 <= i < self.limbs.len() ==> (#[trigger] self.limbs[i]).value == Some(
                integer.limbs[i],
            ) && self.limbs[i].max_val == max_vals[i]
        &&& self.native.value == Some(integer.native(bit_len))
    }

    /// The shift that the auxiliary tuple needs to cover every limb's bound.
    pub open spec fn aux_shift(self) -> nat {
        aux_shift_spec(self.max_vals(), self.rns.base_aux)
    }

    /// The auxiliary integer: every base constant shifted by
    /// [`Self::aux_shift`] and projected into the native field.
    pub open spec fn aux(self) -> IntegerView {
        IntegerView {
            limbs: Seq::new(
                self.rns.base_aux.len(),
                |i: int| self.rns.to_native(shifted_aux(self.rns.base_aux, self.aux_shift())[i]),
            ),
            rns: self.rns,
        }
    }
}

/// An integer committed to the constraint system: `NUMBER_OF_LIMBS` limbs of
/// `BIT_LEN_LIMB` bits with their bounds, and the value in the native field.
#[derive(Debug)]
pub struct AssignedInteger<C, const NUMBER_OF_LIMBS: usize, const BIT_LEN_LIMB: usize> {
    /// The limbs of the emulated integer, least significant first.
    limbs: [AssignedLimb<C>; NUMBER_OF_LIMBS],
    /// The integer's value in the native field.
    native_value: AssignedValue<C>,
    /// The parameters, shared with every other integer of the instantiation.
    rns: Rc<Rns<NUMBER_OF_LIMBS, BIT_LEN_LIMB>>,
}

/// What a tuple of assigned limbs stands for, position by position.
pub open spec fn limb_views<C>(limbs: Seq<AssignedLimb<C>>) -> Seq<AssignedLimbView<C>> {
    Seq::new(limbs.len(), |i: int| limbs[i]@)
}

impl<C, const NUMBER_OF_LIMBS: usize, const BIT_LEN_LIMB: usize> View for AssignedInteger<
    C,
    NUMBER_OF_LIMBS,
    BIT_LEN_LIMB,
> {
    type V = AssignedIntegerView<C>;

    closed spec fn view(&self) -> AssignedIntegerView<C> {
        AssignedIntegerView {
            limbs: limb_views(self.limbs@),
            native: self.native_value@,
            rns: self.rns@,
        }
    }
}

impl<C: Copy, const NUMBER_OF_LIMBS: usize, const BIT_LEN_LIMB: usize> AssignedInteger<
    C,
    NUMBER_OF_LIMBS,
    BIT_LEN_LIMB,
> {
    /// Assembles an integer from its limbs and its native projection. That
    /// the two agree is not checked here: it is for whoever emits the
    /// constraints to ensure.
    pub fn new(
        rns: Rc<Rns<NUMBER_OF_LIMBS, BIT_LEN_LIMB>>,
        limbs: &[AssignedLimb<C>; NUMBER_OF_LIMBS],
        native_value: AssignedValue<C>,
    ) -> (r: Self)
        ensures
            r@ == (AssignedIntegerView {
                limbs: limb_views(limbs@),
                native: native_value@,
                rns: rns@,
            }),
    {
        let r = AssignedInteger { limbs: limbs.clone(), native_value, rns };
        assert(r@.limbs =~= limb_views(limbs@));
        r
    }

    /// The bound of each limb, least significant first.
    pub fn max_vals(&self) -> (r: Vec<BigUint>)
        ensures
            r@.len() == NUMBER_OF_LIMBS,
            big_values(r@) == self@.max_vals(),
    {
        let mut r: Vec<BigUint> = Vec::new();
        let mut i: usize = 0;
        while i < NUMBER_OF_LIMBS
            invariant
                i <= NUMBER_OF_LIMBS,
                r@.len() == i,
                forall|j: int| 0 <= j < i ==> big_value(#[trigger] r@[j]) == self.limbs@[j]@.max_val,
            decreases NUMBER_OF_LIMBS - i,
        {
            r.push(self.limbs[i].max_val());
            i = i + 1;
        }
        assert(big_values(r@) =~= self@.max_vals());
        r
    }

    /// The bound of the whole integer: the positional composition, in base
    /// `2^BIT_LEN_LIMB`, of the bounds of the limbs.
    pub fn max_val(&self) -> (r: BigUint)
        ensures
            big_value(r) == self@.max_val(BIT_LEN_LIMB as nat),
    {
        compose(self.max_vals(), BIT_LEN_LIMB)
    }

    /// The limb at `idx` as a plain committed value, without its bound.
    pub fn limb(&self, idx: usize) -> (r: AssignedValue<C>)
        requires
            idx < NUMBER_OF_LIMBS,
        ensures
            self@.limbs.len() == NUMBER_OF_LIMBS,
            r@ == without_bound(self@.limbs[idx as int]),
    {
        AssignedValue::from(&self.limbs[idx])
    }

    /// The limbs with their bounds.
    pub fn limbs(&self) -> (r: [AssignedLimb<C>; NUMBER_OF_LIMBS])
        ensures
            limb_views(r@) == self@.limbs,
    {
        let r = self.limbs.clone();
        assert(limb_views(r@) =~= self@.limbs);
        r
    }

    /// The value in the native field, which checks on the limbs.
    pub fn native(&self) -> (r: AssignedValue<C>)
        ensures
            r@ == self@.native,
    {
        self.native_value.clone()
    }

    /// The witness integer behind the limbs. It is there only if every limb
    /// holds a witness: one unassigned limb makes the whole integer absent,
    /// however many of the others are known.
    pub fn integer(&self) -> (r: Option<Integer<NUMBER_OF_LIMBS, BIT_LEN_LIMB>>)
        ensures
            self@.limbs.len() == NUMBER_OF_LIMBS,
            r is Some <==> self@.fully_assigned(),
            match r {
                Some(integer) => Some(integer@),
                None => None,
            } == self@.integer(),
    {
        let mut limbs: Vec<Limb> = Vec::new();
        let mut i: usize = 0;
        while i < NUMBER_OF_LIMBS
            invariant
                i <= NUMBER_OF_LIMBS,
                limbs@.len() == i,
                forall|j: int| 0 <= j < i ==> self.limbs@[j]@.value == Some(#[trigger] limbs@[j]@),
            decreases NUMBER_OF_LIMBS - i,
        {
            match self.limbs[i].limb() {
                Some(limb) => {
                    limbs.push(limb);
                },
                None => {
                    assert(self@.limbs[i as int].value is None);
                    return None;
                },
            }
            i = i + 1;
        }
        let ghost found = limbs@;
        let integer = Integer::new(limbs, Rc::clone(&self.rns)).unwrap();
        assert forall|j: int| 0 <= j < NUMBER_OF_LIMBS implies (#[trigger] self@.limbs[j]).value
            == Some(integer@.limbs[j]) by {
            assert(self.limbs@[j]@.value == Some(found[j]@));
        }
        assert(integer@.limbs =~= self@.limb_values());
        Some(integer)
    }

    /// The number of doublings that the base auxiliary tuple needs: the
    /// largest number that any limb requires for its constant to reach the
    /// limb's bound, and zero if no limb requires any. After that many
    /// doublings every constant covers the bound at its position.
    pub fn aux_shift(&self) -> (shift: u64)
        ensures
            shift == self@.aux_shift(),
            self@.limbs.len() == NUMBER_OF_LIMBS,
            self@.rns.wf(NUMBER_OF_LIMBS as nat),
            forall|i: int|
                0 <= i < NUMBER_OF_LIMBS ==> required_shift(
                    (#[trigger] self@.limbs[i]).max_val,
                    self@.rns.base_aux[i],
                ) <= shift,
            exists|i: int|
                0 <= i < NUMBER_OF_LIMBS && required_shift(
                    (#[trigger] self@.limbs[i]).max_val,
                    self@.rns.base_aux[i],
                ) == shift,
            forall|i: int|
                0 <= i < NUMBER_OF_LIMBS ==> #[trigger] self@.rns.base_aux[i] * pow2(shift as nat)
                    >= self@.limbs[i].max_val,
    {
        let base_aux = self.rns.base_aux();
        let max_vals = self.max_vals();
        proof {
            let bounds = self@.max_vals();
            let aux = self@.rns.base_aux;
            lemma_aux_shift_is_max(bounds, aux, NUMBER_OF_LIMBS as nat);
            assert forall|i: int| 0 <= i < NUMBER_OF_LIMBS implies required_shift(
                (#[trigger] self@.limbs[i]).max_val,
                aux[i],
            ) <= self@.aux_shift() by {
                assert(required_shift(bounds[i], aux[i]) <= self@.aux_shift());
            }
            let w = choose|i: int|
                0 <= i < NUMBER_OF_LIMBS && required_shift(#[trigger] bounds[i], aux[i])
                    == self@.aux_shift();
            assert(required_shift(self@.limbs[w].max_val, aux[w]) == self@.aux_shift());
            lemma_shifted_aux_covers(self@.max_vals(), self@.rns.base_aux);
            assert forall|i: int| 0 <= i < NUMBER_OF_LIMBS implies #[trigger] self@.rns.base_aux[i]
                * pow2(self@.aux_shift()) >= self@.limbs[i].max_val by {
                assert(shifted_aux(self@.rns.base_aux, self@.aux_shift())[i] >= self@.max_vals()[i]);
            }
        }
        aux_shift_of(&max_vals, &base_aux)
    }

    /// The auxiliary integer that is added before a subtraction so that no
    /// limb can underflow: every base constant shifted left by
    /// [`Self::aux_shift`], the same shift for all limbs, and taken into the
    /// native field.
    pub fn make_aux(&self) -> (r: Integer<NUMBER_OF_LIMBS, BIT_LEN_LIMB>)
        ensures
            r@ == self@.aux(),
    {
        let base_aux = self.rns.base_aux();
        let max_shift = self.aux_shift();
        let mut limbs: Vec<Limb> = Vec::new();
        let mut i: usize = 0;
        while i < NUMBER_OF_LIMBS
            invariant
                i <= NUMBER_OF_LIMBS,
                limbs@.len() == i,
                base_aux@.len() == NUMBER_OF_LIMBS,
                big_values(base_aux@) == self@.rns.base_aux,
                max_shift == self@.aux_shift(),
                forall|j: int|
                    0 <= j < i ==> (#[trigger] limbs@[j])@ == self@.rns.to_native(
                        self@.rns.base_aux[j] * pow2(max_shift as nat),
                    ),
            decreases NUMBER_OF_LIMBS - i,
        {
            let shifted = shift_left(&base_aux[i], max_shift);
            assert(big_value(base_aux@[i as int]) == big_values(base_aux@)[i as int]);
            limbs.push(Limb::new(self.rns.to_native(&shifted)));
            i = i + 1;
        }
        let r = Integer::new(limbs, Rc::clone(&self.rns)).unwrap();
        assert(r@.limbs =~= self@.aux().limbs);
        r
    }
}

/// One unassigned limb hides the whole integer, whatever the other limbs
/// hold.
pub proof fn lemma_unassigned_limb_hides_integer<C>(a: AssignedIntegerView<C>, i: int)
    requires
        0 <= i < a.limbs.len(),
        a.limbs[i].value is None,
    ensures
        a.integer() is None,
{
}

/// Reading the witness integer off a fully assigned integer and assigning it
/// again with the same bounds gives back the same limb values, the same
/// bounds and the same witness integer; and the same native projection,
/// provided that the projection agreed with the limbs in the first place.
pub proof fn lemma_integer_round_trip<C>(
    a: AssignedIntegerView<C>,
    b: AssignedIntegerView<C>,
    bit_len: nat,
)
    requires
        a.fully_assigned(),
        b.assigns(a.integer().unwrap(), a.max_vals(), bit_len),
    ensures
        b.fully_assigned(),
        b.limb_values() == a.limb_values(),
        b.max_vals() == a.max_vals(),
        b.integer() == a.integer(),
        a.native_consistent(bit_len) ==> b.native.value == a.native.value,
{
    assert(b.limb_values() =~= a.limb_values());
    assert(b.max_vals() =~= a.max_vals());
}

/// Limbs that keep to their bounds make an integer that keeps to the bound
/// of the whole.
pub proof fn lemma_value_within_max_val<C>(a: AssignedIntegerView<C>, bit_len: nat)
    requires
        a.fully_assigned(),
        forall|i: int| 0 <= i < a.limbs.len() ==> (#[trigger] a.limbs[i]).within_bound(),
    ensures
        a.integer().unwrap().value(bit_len) <= a.max_val(bit_len),
{
    lemma_compose_monotonic(a.limb_values(), a.max_vals(), bit_len);
}

/// Where the shift leaves a constant below the native modulus, the limb of
/// the auxiliary integer is the shifted constant itself, and it covers the
/// bound at its position.
pub proof fn lemma_aux_covers_below_modulus<C>(a: AssignedIntegerView<C>, i: int)
    requires
        a.rns.wf(a.limbs.len()),
        0 <= i < a.limbs.len(),
        a.rns.base_aux[i] * pow2(a.aux_shift()) < a.rns.native_modulus,
    ensures
        a.aux().limbs[i] == a.rns.base_aux[i] * pow2(a.aux_shift()),
        a.aux().limbs[i] >= a.limbs[i].max_val,
{
    let shifted = shifted_aux(a.rns.base_aux, a.aux_shift());
    lemma_shifted_aux_covers(a.max_vals(), a.rns.base_aux);
    assert(shifted[i] >= a.max_vals()[i]);
    lemma_small_mod(shifted[i], a.rns.native_modulus);
}

impl<C: Copy, const NUMBER_OF_LIMBS: usize, const BIT_LEN_LIMB: usize> Clone for AssignedInteger<
    C,
    NUMBER_OF_LIMBS,
    BIT_LEN_LIMB,
> {
    fn clone(&self) -> (r: Self)
        ensures
            r@ == self@,
    {
        let r = AssignedInteger {
            limbs: self.limbs.clone(),
            native_value: self.native_value.clone(),
            rns: Rc::clone(&self.rns),
        };
        assert(r@.limbs =~= self@.limbs);
        r
    }
}

} // verus!
