//! Vectors of 32-bit signed integers.

use crate::AsStd140;
use vstd::prelude::*;

verus! {

impl AsStd140 for cgmath::Vector1<i32> {
    type Std140 = std140::int;

    open spec fn as_std140_spec(&self) -> std140::int {
        std140::int(self.x)
    }

    fn as_std140(&self) -> (out: std140::int)
        ensures
            out.0 == self.x,
    {
        std140::int(self.x)
    }
}

impl AsStd140 for cgmath::Vector2<i32> {
    type Std140 = std140::ivec2;

    open spec fn as_std140_spec(&self) -> std140::ivec2 {
        std140::ivec2(self.x, self.y)
    }

    fn as_std140(&self) -> (out: std140::ivec2)
        ensures
            out.0 == self.x,
            out.1 == self.y,
    {
        std140::ivec2(self.x, self.y)
    }
}

impl AsStd140 for cgmath::Vector3<i32> {
    type Std140 = std140::ivec3;

    open spec fn as_std140_spec(&self) -> std140::ivec3 {
        std140::ivec3(self.x, self.y, self.z)
    }

    fn as_std140(&self) -> (out: std140::ivec3)
        ensures
            out.0 == self.x,
            out.1 == self.y,
            out.2 == self.z,
    {
        std140::ivec3(self.x, self.y, self.z)
    }
}

impl AsStd140 for cgmath::Vector4<i32> {
    type Std140 = std140::ivec4;

    open spec fn as_std140_spec(&self) -> std140::ivec4 {
        std140::ivec4(self.x, self.y, self.z, self.w)
    }

    fn as_std140(&self) -> (out: std140::ivec4)
        ensures
            out.0 == self.x,
            out.1 == self.y,
            out.2 == self.z,
            out.3 == self.w,
    {
        std140::ivec4(self.x, self.y, self.z, self.w)
    }
}

} // verus!
