//! Conversion of `cgmath` vectors into `std140` values.
//!
//! A uniform block that a shader reads is laid out by the std140 rules. The
//! `std140` crate offers one type for each scalar and vector of that layout;
//! `cgmath` offers the vectors that host code computes with. [`AsStd140`]
//! takes a value of the second kind to the value of the first kind that holds
//! the same components in the same order.
//!
//! The conversions cover the signed, unsigned and Boolean vectors of one to
//! four components. No component changes its scalar kind on the way.

use vstd::prelude::*;

pub mod boolean;
pub mod signed;
pub mod types;
pub mod unsigned;

verus! {

/// Implemented for types that can be represented as `std140` values.
pub trait AsStd140 {
    /// The `std140` type that this type converts to.
    type Std140;

    /// The `std140` value that `self` converts to.
    spec fn as_std140_spec(&self) -> Self::Std140;

    /// Converts this value into a `std140` value.
    ///
    /// The result is a fresh value and a function of `self` alone.
    fn as_std140(&self) -> (out: Self::Std140)
        ensures
            out == self.as_std140_spec(),
    ;
}

/// A conversion is a function of its input: equal inputs have equal outputs.
pub proof fn lemma_equal_inputs_equal_outputs<T: AsStd140>(a: T, b: T)
    requires
        a == b,
    ensures
        a.as_std140_spec() == b.as_std140_spec(),
{
}

} // verus!
