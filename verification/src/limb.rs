//! A committed limb together with the bound on its value.
//!
//! The bound is not derived from the witness. It is a ledger of its own that
//! every operation on limbs updates from the bounds of its operands, so that
//! the need for a reduction can be decided without looking at any witness.

use crate::bignum::{big_add, big_clone, big_gt, big_value, big_value_opt};
use crate::rns::Limb;
use crate::value::{AssignedValue, AssignedValueView};
use num_bigint::BigUint;
use vstd::prelude::*;
use vstd::std_specs::convert::FromSpecImpl;

verus! {

/// What an assigned limb stands for.
pub struct AssignedLimbView<C> {
    /// The witness, where one is known.
    pub value: Option<nat>,
    /// The cell that holds the limb.
    pub cell: C,
    /// The largest value that the limb may have taken.
    pub max_val: nat,
}

impl<C> AssignedLimbView<C> {
    /// Whether the witness, where there is one, keeps to the bound. No
    /// constructor checks this: the bound is the caller's claim.
    pub open spec fn within_bound(self) -> bool {
        self.value matches Some(v) ==> v <= self.max_val
    }
}

/// A limb of a non-native integer: a committed value and the maximum that the
/// value may have reached.
#[derive(Debug)]
pub struct AssignedLimb<C> {
    /// The witness, absent in a circuit that is laid out without one.
    value: Option<Limb>,
    /// Where the limb lives in the constraint system.
    cell: C,
    /// The bound that overflow tracking and reduction go by.
    max_val: BigUint,
}

/// The value of a limb that may be absent.
pub open spec fn limb_value_opt(limb: Option<Limb>) -> Option<nat> {
    match limb {
        Some(l) => Some(l@),
        None => None,
    }
}

impl<C> View for AssignedLimb<C> {
    type V = AssignedLimbView<C>;

    closed spec fn view(&self) -> AssignedLimbView<C> {
        AssignedLimbView {
            value: limb_value_opt(self.value),
            cell: self.cell,
            max_val: big_value(self.max_val),
        }
    }
}

impl<C: Copy> AssignedLimb<C> {
    /// A limb from a fresh witness, the cell it was committed to, and the
    /// bound that the caller vouches for.
    pub fn new(cell: C, value: Option<BigUint>, max_val: BigUint) -> (r: Self)
        ensures
            r@ == (AssignedLimbView {
                value: big_value_opt(value),
                cell,
                max_val: big_value(max_val),
            }),
    {
        let value = match value {
            Some(v) => Some(Limb::new(v)),
            None => None,
        };
        AssignedLimb { value, cell, max_val }
    }

    /// A limb from a value that is committed already, with the bound that the
    /// caller expects of it.
    pub fn from(assigned: AssignedValue<C>, max_val: BigUint) -> (r: Self)
        ensures
            r@ == (AssignedLimbView {
                value: assigned@.value,
                cell: assigned@.cell,
                max_val: big_value(max_val),
            }),
    {
        let value = match assigned.value() {
            Some(v) => Some(Limb::new(v)),
            None => None,
        };
        let cell = assigned.cell();
        AssignedLimb { value, cell, max_val }
    }

    /// The witness as a native-field element, or `None` where the limb is
    /// unassigned.
    pub fn value(&self) -> (r: Option<BigUint>)
        ensures
            big_value_opt(r) == self@.value,
    {
        match &self.value {
            Some(l) => Some(l.value()),
            None => None,
        }
    }

    /// The cell that holds the limb.
    pub fn cell(&self) -> (r: C)
        ensures
            r == self@.cell,
    {
        self.cell
    }

    /// The witness as a limb, or `None` where the limb is unassigned.
    pub fn limb(&self) -> (r: Option<Limb>)
        ensures
            limb_value_opt(r) == self@.value,
    {
        match &self.value {
            Some(l) => Some(l.clone()),
            None => None,
        }
    }

    /// The current bound.
    pub fn max_val(&self) -> (r: BigUint)
        ensures
            big_value(r) == self@.max_val,
    {
        big_clone(&self.max_val)
    }

    /// Whether the witness, where there is one, keeps to the bound. The
    /// constructors take the bound on trust; this is the check that they
    /// leave to the caller.
    pub fn within_bound(&self) -> (r: bool)
        ensures
            r == self@.within_bound(),
    {
        match &self.value {
            Some(l) => !big_gt(&l.value(), &self.max_val),
            None => true,
        }
    }

    /// The bound of the sum of this limb and `other`.
    pub fn add(&self, other: &Self) -> (r: BigUint)
        ensures
            big_value(r) == self@.max_val + other@.max_val,
    {
        big_add(&self.max_val, &other.max_val)
    }

    /// The bound of the double of this limb.
    pub fn mul2(&self) -> (r: BigUint)
        ensures
            big_value(r) == self@.max_val + self@.max_val,
    {
        big_add(&self.max_val, &self.max_val)
    }

    /// The bound of the triple of this limb.
    pub fn mul3(&self) -> (r: BigUint)
        ensures
            big_value(r) == 3 * self@.max_val,
    {
        let twice = big_add(&self.max_val, &self.max_val);
        big_add(&twice, &self.max_val)
    }

    /// The bound of this limb plus the constant `other`.
    pub fn add_big(&self, other: BigUint) -> (r: BigUint)
        ensures
            big_value(r) == self@.max_val + big_value(other),
    {
        big_add(&self.max_val, &other)
    }

    /// The bound of this limb plus a constant that is given as a native-field
    /// element: the element enters with its integer value.
    pub fn add_fe(&self, other: BigUint) -> (r: BigUint)
        ensures
            big_value(r) == self@.max_val + big_value(other),
    {
        self.add_big(other)
    }
}

impl<C: Copy> Clone for AssignedLimb<C> {
    fn clone(&self) -> (r: Self)
        ensures
            r@ == self@,
    {
        AssignedLimb { value: self.limb(), cell: self.cell, max_val: big_clone(&self.max_val) }
    }
}

/// What is left of a limb when its bound is dropped.
pub open spec fn without_bound<C>(limb: AssignedLimbView<C>) -> AssignedValueView<C> {
    AssignedValueView { value: limb.value, cell: limb.cell }
}

/// An assigned limb can be taken for a plain committed value. Value and cell
/// stay as they are and the bound is dropped: whoever converts gives the
/// overflow ledger up, and no bound can be had back from the result.
impl<C: Copy> From<AssignedLimb<C>> for AssignedValue<C> {
    fn from(limb: AssignedLimb<C>) -> (r: Self)
        ensures
            r@ == without_bound(limb@),
    {
        AssignedValue::new(limb.cell(), limb.value())
    }
}

impl<C: Copy> FromSpecImpl<AssignedLimb<C>> for AssignedValue<C> {
    /// The result is pinned by what it stands for, not as a value: the
    /// witness is a copy.
    open spec fn obeys_from_spec() -> bool {
        false
    }

    open spec fn from_spec(limb: AssignedLimb<C>) -> Self {
        choose|v: AssignedValue<C>| v@ == without_bound(limb@)
    }
}

/// As for the limb itself, from a reference to it.
impl<'a, C: Copy> From<&'a AssignedLimb<C>> for AssignedValue<C> {
    fn from(limb: &'a AssignedLimb<C>) -> (r: Self)
        ensures
            r@ == without_bound(limb@),
    {
        AssignedValue::new(limb.cell(), limb.value())
    }
}

impl<'a, C: Copy> FromSpecImpl<&'a AssignedLimb<C>> for AssignedValue<C> {
    open spec fn obeys_from_spec() -> bool {
        false
    }

    open spec fn from_spec(limb: &'a AssignedLimb<C>) -> Self {
        choose|v: AssignedValue<C>| v@ == without_bound(limb@)
    }
}

} // verus!
