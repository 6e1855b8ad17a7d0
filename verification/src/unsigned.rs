//! Vectors of 32-bit unsigned integers.

use crate::AsStd140;
use vstd::prelude::*;

verus! {

impl AsStd140 for cgmath::Vector1<u32> {
    type Std140 = std140::uint;

    open spec fn as_std140_spec(&self) -> std140::uint {
        std140::uint(self.x)
    }

    fn as_std140(&self) -> (out: std140::uint)
        ensures
            out.0 == self.x,
    {
        std140::uint(self.x)
    }
}

impl AsStd140 for cgmath::Vector2<u32> {
    type Std140 = std140::uvec2;

    open spec fn as_std140_spec(&self) -> std140::uvec2 {
        std140::uvec2(self.x, self.y)
    }

    fn as_std140(&self) -> (out: std140::uvec2)
        ensures
            out.0 == self.x,
            out.1 == self.y,
    {
        std140::uvec2(self.x, self.y)
    }
}

impl AsStd140 for cgmath::Vector3<u32> {
    type Std140 = std140::uvec3;

    open spec fn as_std140_spec(&self) -> std140::uvec3 {
        std140::uvec3(self.x, self.y, self.z)
    }

    fn as_std140(&self) -> (out: std140::uvec3)
        ensures
            out.0 == self.x,
            out.1 == self.y,
            out.2 == self.z,
    {
        std140::uvec3(self.x, self.y, self.z)
    }
}

impl AsStd140 for cgmath::Vector4<u32> {
    type Std140 = std140::uvec4;

    open spec fn as_std140_spec(&self) -> std140::uvec4 {
        std140::uvec4(self.x, self.y, self.z, self.w)
    }

    fn as_std140(&self) -> (out: std140::uvec4)
        ensures
            out.0 == self.x,
            out.1 == self.y,
            out.2 == self.z,
            out.3 == self.w,
    {
        std140::uvec4(self.x, self.y, self.z, self.w)
    }
}

} // verus!
