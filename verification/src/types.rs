//! The types of `cgmath` and `std140` that the conversions read and build.
//!
//! Each declaration makes one type of another crate known to Verus. Verus
//! then reads the type's own definition: the named fields of a `cgmath`
//! vector, the positional fields of a `std140` vector, the two variants of
//! the `std140` Boolean. Nothing is claimed about them here.

use vstd::prelude::*;

verus! {

#[verifier::external_type_specification]
#[verifier::reject_recursive_types(S)]
pub struct ExVector1<S>(cgmath::Vector1<S>);

#[verifier::external_type_specification]
#[verifier::reject_recursive_types(S)]
pub struct ExVector2<S>(cgmath::Vector2<S>);

#[verifier::external_type_specification]
#[verifier::reject_recursive_types(S)]
pub struct ExVector3<S>(cgmath::Vector3<S>);

#[verifier::external_type_specification]
#[verifier::reject_recursive_types(S)]
pub struct ExVector4<S>(cgmath::Vector4<S>);

#[verifier::external_type_specification]
pub struct ExInt(std140::int);

#[verifier::external_type_specification]
pub struct ExIvec2(std140::ivec2);

#[verifier::external_type_specification]
pub struct ExIvec3(std140::ivec3);

#[verifier::external_type_specification]
pub struct ExIvec4(std140::ivec4);

#[verifier::external_type_specification]
pub struct ExUint(std140::uint);

#[verifier::external_type_specification]
pub struct ExUvec2(std140::uvec2);

#[verifier::external_type_specification]
pub struct ExUvec3(std140::uvec3);

#[verifier::external_type_specification]
pub struct ExUvec4(std140::uvec4);

#[verifier::external_type_specification]
pub struct ExBoolean(std140::boolean);

#[verifier::external_type_specification]
pub struct ExBvec2(std140::bvec2);

#[verifier::external_type_specification]
pub struct ExBvec3(std140::bvec3);

#[verifier::external_type_specification]
pub struct ExBvec4(std140::bvec4);

} // verus!
