//! The element type of a tensor.
use vstd::prelude::*;

verus! {

/// A number that tensors can hold: it can be copied, added, multiplied and
/// put through the logistic function.
///
/// Each operation is a function of its operands: the `spec_` functions say
/// which, and the executable ones compute exactly that. Nothing else is asked
/// of the arithmetic. No algebraic law is assumed, so whatever this library
/// proves holds of rounding arithmetic as well, operation for operation and in
/// the order in which the contracts write them.
pub trait Scalar: Copy {
    /// The additive identity that sums start from.
    spec fn spec_zero() -> Self;

    /// The sum of `self` and `rhs`.
    spec fn spec_plus(self, rhs: Self) -> Self;

    /// The product of `self` and `rhs`.
    spec fn spec_times(self, rhs: Self) -> Self;

    /// The logistic function at `self`: `1 / (1 + exp(-self))`.
    spec fn spec_sigmoid(self) -> Self;

    fn zero() -> (r: Self)
        ensures
            r == Self::spec_zero(),
    ;

    fn plus(self, rhs: Self) -> (r: Self)
        ensures
            r == self.spec_plus(rhs),
    ;

    fn times(self, rhs: Self) -> (r: Self)
        ensures
            r == self.spec_times(rhs),
    ;

    fn sigmoid(self) -> (r: Self)
        ensures
            r == self.spec_sigmoid(),
    ;
}

/// The sigmoid-weighted linear unit: `z * sigmoid(z)`.
pub open spec fn spec_silu<T: Scalar>(z: T) -> T {
    z.spec_times(z.spec_sigmoid())
}

/// One gated element: `silu(gate) * value`.
pub open spec fn spec_gated<T: Scalar>(gate: T, value: T) -> T {
    spec_silu(gate).spec_times(value)
}

/// Computes `z * sigmoid(z)`.
pub fn silu<T: Scalar>(z: T) -> (r: T)
    ensures
        r == spec_silu(z),
{
    z.times(z.sigmoid())
}

/// Computes `silu(gate) * value`.
pub fn gated<T: Scalar>(gate: T, value: T) -> (r: T)
    ensures
        r == spec_gated(gate, value),
{
    silu(gate).times(value)
}

/// The scalar with a single value.
///
/// A tensor over it carries its shape and nothing else: weights can be bound
/// and the shape of an activation followed through a block without any
/// arithmetic being done.
#[derive(Debug, Clone, Copy, PartialEq, Eq)]
pub struct Meta;

impl Scalar for Meta {
    open spec fn spec_zero() -> Self {
        Meta
    }

    open spec fn spec_plus(self, rhs: Self) -> Self {
        Meta
    }

    open spec fn spec_times(self, rhs: Self) -> Self {
        Meta
    }

    open spec fn spec_sigmoid(self) -> Self {
        Meta
    }

    fn zero() -> (r: Self) {
        Meta
    }

    fn plus(self, rhs: Self) -> (r: Self) {
        Meta
    }

    fn times(self, rhs: Self) -> (r: Self) {
        Meta
    }

    fn sigmoid(self) -> (r: Self) {
        Meta
    }
}

} // verus!
