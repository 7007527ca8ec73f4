//! Native-field values as the constraint system hands them over: committed
//! to a cell, or not yet committed at all.
//!
//! The cell is a location token of the constraint system. This crate carries
//! it along and never looks inside, so its type is a parameter.

use crate::bignum::{big_clone, big_value_opt};
use num_bigint::BigUint;
use vstd::prelude::*;

verus! {

/// A copy of a big integer that may be absent.
pub(crate) fn clone_opt(value: &Option<BigUint>) -> (r: Option<BigUint>)
    ensures
        big_value_opt(r) == big_value_opt(*value),
{
    match value {
        Some(v) => Some(big_clone(v)),
        None => None,
    }
}

/// What a committed value stands for: the witness, where one is known, and
/// the cell that holds it.
pub struct AssignedValueView<C> {
    pub value: Option<nat>,
    pub cell: C,
}

/// A native-field value that has been committed to the cell `cell`. The
/// witness is absent while a circuit is laid out without one.
#[derive(Debug)]
pub struct AssignedValue<C> {
    value: Option<BigUint>,
    cell: C,
}

impl<C> View for AssignedValue<C> {
    type V = AssignedValueView<C>;

    closed spec fn view(&self) -> AssignedValueView<C> {
        AssignedValueView { value: big_value_opt(self.value), cell: self.cell }
    }
}

impl<C: Copy> AssignedValue<C> {
    /// The value `value`, committed to `cell`.
    pub fn new(cell: C, value: Option<BigUint>) -> (r: Self)
        ensures
            r@ == (AssignedValueView { value: big_value_opt(value), cell }),
    {
        AssignedValue { value, cell }
    }

    /// The witness, or `None` where the value is unassigned.
    pub fn value(&self) -> (r: Option<BigUint>)
        ensures
            big_value_opt(r) == self@.value,
    {
        clone_opt(&self.value)
    }

    /// The cell that holds the value.
    pub fn cell(&self) -> (r: C)
        ensures
            r == self@.cell,
    {
        self.cell
    }
}

impl<C: Copy> Clone for AssignedValue<C> {
    fn clone(&self) -> (r: Self)
        ensures
            r@ == self@,
    {
        AssignedValue { value: clone_opt(&self.value), cell: self.cell }
    }
}

/// A native-field value that is about to be committed: the witness alone,
/// which may be absent.
#[derive(Debug)]
pub struct UnassignedValue {
    value: Option<BigUint>,
}

impl View for UnassignedValue {
    type V = Option<nat>;

    closed spec fn view(&self) -> Option<nat> {
        big_value_opt(self.value)
    }
}

impl UnassignedValue {
    /// Wraps a witness that may be absent.
    pub fn new(value: Option<BigUint>) -> (r: Self)
        ensures
            r@ == big_value_opt(value),
    {
        UnassignedValue { value }
    }

    /// The witness, or `None` where there is none.
    pub fn value(&self) -> (r: Option<BigUint>)
        ensures
            big_value_opt(r) == self@,
    {
        clone_opt(&self.value)
    }
}

impl Clone for UnassignedValue {
    fn clone(&self) -> (r: Self)
        ensures
            r@ == self@,
    {
        UnassignedValue { value: clone_opt(&self.value) }
    }
}

} // verus!
