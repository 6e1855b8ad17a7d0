//! Vectors of Booleans.
//!
//! A std140 Boolean is no bit: it fills 32 bits, as an unsigned integer does.
//! `std140::boolean` has one variant for each truth value, and its own
//! `From<bool>` picks the variant. Every component goes through that
//! conversion by itself.

use crate::AsStd140;
use vstd::prelude::*;

verus! {

/// The std140 Boolean that stands for `b`.
pub open spec fn std140_bool(b: bool) -> std140::boolean {
    if b {
        std140::boolean::True
    } else {
        std140::boolean::False
    }
}

/// `From<bool>` for `std140::boolean`, which this crate does not verify.
///
/// Its body is a `match` on the argument: `true` gives `boolean::True` and
/// `false` gives `boolean::False`. It cannot fail.
pub assume_specification[ <std140::boolean as From<bool>>::from ](value: bool) -> (stored:
    std140::boolean)
    ensures
        stored == std140_bool(value),
;

/// A Boolean is stored as the unsigned integer 1 where it is true and as 0
/// where it is false.
pub proof fn lemma_bool_stored_as_one_or_zero(b: bool)
    ensures
        std140_bool(b) as u32 == (if b {
            1u32
        } else {
            0u32
        }),
{
}

/// The stored Boolean tells the truth value: it is `True` exactly where the
/// Boolean is true, so two Booleans are stored alike only where they are
/// equal.
pub proof fn lemma_bool_read_back(a: bool, b: bool)
    ensures
        std140_bool(a) is True <==> a,
        std140_bool(a) == std140_bool(b) <==> a == b,
{
}

impl AsStd140 for cgmath::Vector1<bool> {
    type Std140 = std140::boolean;

    open spec fn as_std140_spec(&self) -> std140::boolean {
        std140_bool(self.x)
    }

    fn as_std140(&self) -> (out: std140::boolean)
        ensures
            out == std140_bool(self.x),
    {
        self.x.into()
    }
}

impl AsStd140 for cgmath::Vector2<bool> {
    type Std140 = std140::bvec2;

    open spec fn as_std140_spec(&self) -> std140::bvec2 {
        std140::bvec2(std140_bool(self.x), std140_bool(self.y))
    }

    fn as_std140(&self) -> (out: std140::bvec2)
        ensures
            out.0 == std140_bool(self.x),
            out.1 == std140_bool(self.y),
    {
        std140::bvec2(self.x.into(), self.y.into())
    }
}

impl AsStd140 for cgmath::Vector3<bool> {
    type Std140 = std140::bvec3;

    open spec fn as_std140_spec(&self) -> std140::bvec3 {
        std140::bvec3(std140_bool(self.x), std140_bool(self.y), std140_bool(self.z))
    }

    fn as_std140(&self) -> (out: std140::bvec3)
        ensures
            out.0 == std140_bool(self.x),
            out.1 == std140_bool(self.y),
            out.2 == std140_bool(self.z),
    {
        std140::bvec3(self.x.into(), self.y.into(), self.z.into())
    }
}

impl AsStd140 for cgmath::Vector4<bool> {
    type Std140 = std140::bvec4;

    open spec fn as_std140_spec(&self) -> std140::bvec4 {
        std140::bvec4(
            std140_bool(self.x),
            std140_bool(self.y),
            std140_bool(self.z),
            std140_bool(self.w),
        )
    }

    fn as_std140(&self) -> (out: std140::bvec4)
        ensures
            out.0 == std140_bool(self.x),
            out.1 == std140_bool(self.y),
            out.2 == std140_bool(self.z),
            out.3 == std140_bool(self.w),
    {
        std140::bvec4(self.x.into(), self.y.into(), self.z.into(), self.w.into())
    }
}

} // verus!
