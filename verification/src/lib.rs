//! Overflow-bound bookkeeping for foreign-field integers that are held as
//! tuples of native-field limbs.
//!
//! A foreign-field element lives in a constraint system as a tuple of limbs
//! of the native field. Every limb carries, beside its value, an upper bound
//! on that value; every operation derives the bound of its result from the
//! bounds of its operands. The bounds tell when an integer must be reduced
//! before it can be used again, and how large an auxiliary constant a
//! subtraction needs so that no limb falls below zero.

pub mod assigned;
pub mod bignum;
pub mod compose;
pub mod limb;
pub mod rns;
pub mod shift;
pub mod unassigned;
pub mod value;

pub use assigned::{AssignedInteger, AssignedIntegerView};
pub use limb::{AssignedLimb, AssignedLimbView};
pub use rns::{Integer, IntegerView, Limb, Rns, RnsView};
pub use unassigned::UnassignedInteger;
pub use value::{AssignedValue, AssignedValueView, UnassignedValue};

use vstd::prelude::*;

verus! {

/// A range check decomposes a limb into at most this many lookup limbs: a
/// limb of 68 bits, say, into four of 17 bits.
pub const NUMBER_OF_LOOKUP_LIMBS: usize = 4;

} // verus!
