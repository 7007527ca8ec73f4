//! The shared parameters of one residue-number-system instantiation, and the
//! witness integers that are built against them.
//!
//! A native-field element is held as its canonical representative, a big
//! integer below the native modulus. How the parameters are derived from a
//! foreign modulus is not this crate's business: [`Rns`] carries the constants
//! that the bound bookkeeping reads and checks only that they are usable.

use crate::bignum::{big_clone, big_from_u64, big_gt, big_rem, big_value, big_values};
use crate::compose::{compose, compose_spec};
use num_bigint::BigUint;
use std::rc::Rc;
use vstd::prelude::*;

verus! {

/// One limb of a witness integer: a native-field element, read as a natural
/// number.
#[derive(Debug)]
pub struct Limb {
    value: BigUint,
}

impl View for Limb {
    type V = nat;

    closed spec fn view(&self) -> nat {
        big_value(self.value)
    }
}

/// The values of a sequence of limbs, position by position.
pub open spec fn limb_values(limbs: Seq<Limb>) -> Seq<nat> {
    Seq::new(limbs.len(), |i: int| limbs[i]@)
}

impl Limb {
    /// The limb that holds `value`.
    pub fn new(value: BigUint) -> (r: Self)
        ensures
            r@ == big_value(value),
    {
        Limb { value }
    }

    /// The limb's value as a big integer.
    pub fn value(&self) -> (r: BigUint)
        ensures
            big_value(r) == self@,
    {
        big_clone(&self.value)
    }
}

impl Clone for Limb {
    fn clone(&self) -> (r: Self)
        ensures
            r@ == self@,
    {
        Limb { value: big_clone(&self.value) }
    }
}

/// What the bound bookkeeping reads of an instantiation's parameters.
pub struct RnsView {
    /// The modulus of the native field.
    pub native_modulus: nat,
    /// The base auxiliary constant of each limb position.
    pub base_aux: Seq<nat>,
}

impl RnsView {
    /// Parameters are usable for `number_of_limbs` limbs when there is at
    /// least one limb, the native modulus is positive, and there is one
    /// positive base auxiliary constant for each limb position.
    pub open spec fn wf(self, number_of_limbs: nat) -> bool {
        &&& number_of_limbs > 0
        &&& self.native_modulus > 0
        &&& self.base_aux.len() == number_of_limbs
        &&& forall|i: int| 0 <= i < self.base_aux.len() ==> #[trigger] self.base_aux[i] > 0
    }

    /// The native-field element that the natural number `e` projects to.
    pub open spec fn to_native(self, e: nat) -> nat {
        e % self.native_modulus
    }
}

/// The parameters that every integer of one instantiation shares: the limb
/// count and the limb width as type parameters, the native modulus, and the
/// base auxiliary constants that make subtraction safe.
#[derive(Debug)]
pub struct Rns<const NUMBER_OF_LIMBS: usize, const BIT_LEN_LIMB: usize> {
    native_modulus: BigUint,
    base_aux: Vec<BigUint>,
}

impl<const NUMBER_OF_LIMBS: usize, const BIT_LEN_LIMB: usize> View for Rns<
    NUMBER_OF_LIMBS,
    BIT_LEN_LIMB,
> {
    type V = RnsView;

    closed spec fn view(&self) -> RnsView {
        RnsView {
            native_modulus: big_value(self.native_modulus),
            base_aux: big_values(self.base_aux@),
        }
    }
}

impl<const NUMBER_OF_LIMBS: usize, const BIT_LEN_LIMB: usize> Rns<NUMBER_OF_LIMBS, BIT_LEN_LIMB> {
    #[verifier::type_invariant]
    spec fn inv(self) -> bool {
        self@.wf(NUMBER_OF_LIMBS as nat)
    }

    /// Takes the constants of an instantiation. They are refused, with
    /// `None`, unless `NUMBER_OF_LIMBS` is at least one, the native modulus
    /// is positive and `base_aux` holds exactly `NUMBER_OF_LIMBS` constants,
    /// all positive.
    pub fn new(native_modulus: BigUint, base_aux: Vec<BigUint>) -> (r: Option<Self>)
        ensures
            r is Some <==> (RnsView {
                native_modulus: big_value(native_modulus),
                base_aux: big_values(base_aux@),
            }).wf(NUMBER_OF_LIMBS as nat),
            r matches Some(rns) ==> rns@ == (RnsView {
                native_modulus: big_value(native_modulus),
                base_aux: big_values(base_aux@),
            }),
    {
        let zero = big_from_u64(0);
        if !big_gt(&native_modulus, &zero) {
            return None;
        }
        if NUMBER_OF_LIMBS == 0 || base_aux.len() != NUMBER_OF_LIMBS {
            return None;
        }
        let ghost aux = big_values(base_aux@);
        let mut i: usize = 0;
        while i < base_aux.len()
            invariant
                i <= base_aux@.len(),
                aux == big_values(base_aux@),
                big_value(zero) == 0,
                forall|j: int| 0 <= j < i ==> #[trigger] aux[j] > 0,
            decreases base_aux@.len() - i,
        {
            if !big_gt(&base_aux[i], &zero) {
                assert(!(aux[i as int] > 0));
                return None;
            }
            i = i + 1;
        }
        Some(Rns { native_modulus, base_aux })
    }

    /// The modulus of the native field. It is positive.
    pub fn native_modulus(&self) -> (r: BigUint)
        ensures
            big_value(r) == self@.native_modulus,
            self@.wf(NUMBER_OF_LIMBS as nat),
    {
        proof {
            use_type_invariant(self);
        }
        big_clone(&self.native_modulus)
    }

    /// The base auxiliary constants, one for each limb position and none of
    /// them zero.
    pub fn base_aux(&self) -> (r: Vec<BigUint>)
        ensures
            big_values(r@) == self@.base_aux,
            self@.wf(NUMBER_OF_LIMBS as nat),
    {
        proof {
            use_type_invariant(self);
        }
        let mut r: Vec<BigUint> = Vec::new();
        let mut i: usize = 0;
        while i < self.base_aux.len()
            invariant
                i <= self.base_aux@.len(),
                r@.len() == i,
                forall|j: int| 0 <= j < i ==> big_value(#[trigger] r@[j]) == big_value(self.base_aux@[j]),
            decreases self.base_aux@.len() - i,
        {
            r.push(big_clone(&self.base_aux[i]));
            i = i + 1;
        }
        assert(big_values(r@) =~= self@.base_aux);
        r
    }

    /// Projects a big integer into the native field: the remainder of its
    /// division by the native modulus.
    pub fn to_native(&self, e: &BigUint) -> (r: BigUint)
        ensures
            big_value(r) == self@.to_native(big_value(*e)),
    {
        proof {
            use_type_invariant(self);
        }
        big_rem(e, &self.native_modulus)
    }
}

/// What a witness integer stands for: the values of its limbs, least
/// significant first, and the parameters it was built against.
pub struct IntegerView {
    pub limbs: Seq<nat>,
    pub rns: RnsView,
}

impl IntegerView {
    /// The natural number that the limbs compose to.
    pub open spec fn value(self, bit_len: nat) -> nat {
        compose_spec(self.limbs, bit_len)
    }

    /// The value's projection into the native field.
    pub open spec fn native(self, bit_len: nat) -> nat {
        self.rns.to_native(self.value(bit_len))
    }
}

/// A witness integer: one foreign-field element as `NUMBER_OF_LIMBS` limbs of
/// `BIT_LEN_LIMB` bits, not yet committed to a constraint system.
#[derive(Debug)]
pub struct Integer<const NUMBER_OF_LIMBS: usize, const BIT_LEN_LIMB: usize> {
    limbs: Vec<Limb>,
    rns: Rc<Rns<NUMBER_OF_LIMBS, BIT_LEN_LIMB>>,
}

impl<const NUMBER_OF_LIMBS: usize, const BIT_LEN_LIMB: usize> View for Integer<
    NUMBER_OF_LIMBS,
    BIT_LEN_LIMB,
> {
    type V = IntegerView;

    closed spec fn view(&self) -> IntegerView {
        IntegerView { limbs: limb_values(self.limbs@), rns: self.rns@ }
    }
}

impl<const NUMBER_OF_LIMBS: usize, const BIT_LEN_LIMB: usize> Integer<
    NUMBER_OF_LIMBS,
    BIT_LEN_LIMB,
> {
    #[verifier::type_invariant]
    spec fn inv(self) -> bool {
        self.limbs@.len() == NUMBER_OF_LIMBS
    }

    /// Assembles an integer from exactly `NUMBER_OF_LIMBS` limbs. Any other
    /// number of limbs is refused with `None`: limbs are neither cut off nor
    /// filled up.
    pub fn new(limbs: Vec<Limb>, rns: Rc<Rns<NUMBER_OF_LIMBS, BIT_LEN_LIMB>>) -> (r: Option<Self>)
        ensures
            r is Some <==> limbs@.len() == NUMBER_OF_LIMBS,
            r matches Some(integer) ==> integer@ == (IntegerView {
                limbs: limb_values(limbs@),
                rns: rns@,
            }),
    {
        if limbs.len() == NUMBER_OF_LIMBS {
            Some(Integer { limbs, rns })
        } else {
            None
        }
    }

    /// The limb at position `idx`.
    pub fn limb(&self, idx: usize) -> (r: Limb)
        requires
            idx < NUMBER_OF_LIMBS,
        ensures
            self@.limbs.len() == NUMBER_OF_LIMBS,
            r@ == self@.limbs[idx as int],
    {
        proof {
            use_type_invariant(self);
        }
        self.limbs[idx].clone()
    }

    /// The values of all limbs, least significant first.
    pub fn limbs(&self) -> (r: Vec<BigUint>)
        ensures
            r@.len() == NUMBER_OF_LIMBS,
            big_values(r@) == self@.limbs,
    {
        proof {
            use_type_invariant(self);
        }
        let mut r: Vec<BigUint> = Vec::new();
        let mut i: usize = 0;
        while i < self.limbs.len()
            invariant
                i <= self.limbs@.len(),
                r@.len() == i,
                forall|j: int| 0 <= j < i ==> big_value(#[trigger] r@[j]) == self.limbs@[j]@,
            decreases self.limbs@.len() - i,
        {
            r.push(self.limbs[i].value());
            i = i + 1;
        }
        assert(big_values(r@) =~= self@.limbs);
        r
    }

    /// The parameters that the integer was built against.
    pub fn rns(&self) -> (r: Rc<Rns<NUMBER_OF_LIMBS, BIT_LEN_LIMB>>)
        ensures
            r@ == self@.rns,
    {
        Rc::clone(&self.rns)
    }

    /// The natural number that the integer stands for.
    pub fn value(&self) -> (r: BigUint)
        ensures
            big_value(r) == self@.value(BIT_LEN_LIMB as nat),
    {
        compose(self.limbs(), BIT_LEN_LIMB)
    }

    /// The integer's projection into the native field.
    pub fn native(&self) -> (r: BigUint)
        ensures
            big_value(r) == self@.native(BIT_LEN_LIMB as nat),
    {
        let value = self.value();
        self.rns.to_native(&value)
    }
}

impl<const NUMBER_OF_LIMBS: usize, const BIT_LEN_LIMB: usize> Clone for Integer<
    NUMBER_OF_LIMBS,
    BIT_LEN_LIMB,
> {
    fn clone(&self) -> (r: Self)
        ensures
            r@ == self@,
    {
        proof {
            use_type_invariant(self);
        }
        let limbs = self.limbs.clone();
        assert(limb_values(limbs@) =~= limb_values(self.limbs@));
        Integer { limbs, rns: Rc::clone(&self.rns) }
    }
}

} // verus!
