//! A witness integer that is about to be assigned, or the empty place of one.

use crate::bignum::big_value_opt;
use crate::rns::{Integer, IntegerView};
use crate::value::UnassignedValue;
use num_bigint::BigUint;
use vstd::prelude::*;
use vstd::std_specs::convert::FromSpecImpl;

verus! {

/// Witness integer that is about to be assigned. It is absent as a whole
/// while a circuit is laid out without witnesses.
#[derive(Debug)]
pub struct UnassignedInteger<const NUMBER_OF_LIMBS: usize, const BIT_LEN_LIMB: usize>(
    Option<Integer<NUMBER_OF_LIMBS, BIT_LEN_LIMB>>,
);

/// What an integer that may be absent stands for.
pub open spec fn integer_view_opt<const NUMBER_OF_LIMBS: usize, const BIT_LEN_LIMB: usize>(
    integer: Option<Integer<NUMBER_OF_LIMBS, BIT_LEN_LIMB>>,
) -> Option<IntegerView> {
    match integer {
        Some(e) => Some(e@),
        None => None,
    }
}

impl<const NUMBER_OF_LIMBS: usize, const BIT_LEN_LIMB: usize> View for UnassignedInteger<
    NUMBER_OF_LIMBS,
    BIT_LEN_LIMB,
> {
    type V = Option<IntegerView>;

    closed spec fn view(&self) -> Option<IntegerView> {
        integer_view_opt(self.0)
    }
}

impl<const NUMBER_OF_LIMBS: usize, const BIT_LEN_LIMB: usize> UnassignedInteger<
    NUMBER_OF_LIMBS,
    BIT_LEN_LIMB,
> {
    /// Wraps an integer that may be absent.
    pub fn new(integer: Option<Integer<NUMBER_OF_LIMBS, BIT_LEN_LIMB>>) -> (r: Self)
        ensures
            r@ == integer_view_opt(integer),
    {
        UnassignedInteger(integer)
    }

    /// Returns value in big-integer form to calculate further witnesses.
    pub fn value(&self) -> (r: Option<BigUint>)
        ensures
            big_value_opt(r) == match self@ {
                Some(e) => Some(e.value(BIT_LEN_LIMB as nat)),
                None => None::<nat>,
            },
    {
        match &self.0 {
            Some(e) => Some(e.value()),
            None => None,
        }
    }

    /// Returns the limb at `idx` as an unassigned value. Where an integer is
    /// present, `idx` must name one of its limbs.
    pub fn limb(&self, idx: usize) -> (r: UnassignedValue)
        requires
            self@ is Some ==> idx < NUMBER_OF_LIMBS,
        ensures
            r@ == match self@ {
                Some(e) => Some(e.limbs[idx as int]),
                None => None::<nat>,
            },
    {
        match &self.0 {
            Some(e) => UnassignedValue::new(Some(e.limb(idx).value())),
            None => UnassignedValue::new(None),
        }
    }

    /// Returns the unassigned value under the native modulus.
    pub fn native(&self) -> (r: UnassignedValue)
        ensures
            r@ == match self@ {
                Some(e) => Some(e.native(BIT_LEN_LIMB as nat)),
                None => None::<nat>,
            },
    {
        match &self.0 {
            Some(e) => UnassignedValue::new(Some(e.native())),
            None => UnassignedValue::new(None),
        }
    }
}

impl<const NUMBER_OF_LIMBS: usize, const BIT_LEN_LIMB: usize> From<
    Option<Integer<NUMBER_OF_LIMBS, BIT_LEN_LIMB>>,
> for UnassignedInteger<NUMBER_OF_LIMBS, BIT_LEN_LIMB> {
    fn from(integer: Option<Integer<NUMBER_OF_LIMBS, BIT_LEN_LIMB>>) -> (r: Self)
        ensures
            r@ == integer_view_opt(integer),
    {
        UnassignedInteger(integer)
    }
}

impl<const NUMBER_OF_LIMBS: usize, const BIT_LEN_LIMB: usize> FromSpecImpl<
    Option<Integer<NUMBER_OF_LIMBS, BIT_LEN_LIMB>>,
> for UnassignedInteger<NUMBER_OF_LIMBS, BIT_LEN_LIMB> {
    open spec fn obeys_from_spec() -> bool {
        true
    }

    closed spec fn from_spec(integer: Option<Integer<NUMBER_OF_LIMBS, BIT_LEN_LIMB>>) -> Self {
        UnassignedInteger(integer)
    }
}

impl<const NUMBER_OF_LIMBS: usize, const BIT_LEN_LIMB: usize> Clone for UnassignedInteger<
    NUMBER_OF_LIMBS,
    BIT_LEN_LIMB,
> {
    fn clone(&self) -> (r: Self)
        ensures
            r@ == self@,
    {
        match &self.0 {
            Some(e) => UnassignedInteger(Some(e.clone())),
            None => UnassignedInteger(None),
        }
    }
}

} // verus!
