//! The vector types a shader module can use on the CPU side: `Vec2`, `Vec3` and
//! `Vec4` of a scalar, with named fields and access by index.
use vstd::prelude::*;

verus! {

/// A field that only this module can fill, so that vectors are built with `new`.
#[derive(Debug, Clone, Copy)]
pub struct ForceConstructor;

/// A vector of 2 scalars; its components are `component(0)` (`x`) and
/// `component(1)` (`y`).
#[derive(Debug, Clone, Copy)]
pub struct Vec2<T> {
    pub x: T,
    pub y: T,
    _force_constructor: ForceConstructor,
}

impl<T: Copy> Vec2<T> {
    /// The component at `index` (0 for `x`, 1 for `y`).
    pub closed spec fn component(self, index: int) -> T {
        if index == 0 {
            self.x
        } else {
            self.y
        }
    }

    pub fn new(x: T, y: T) -> (res: Self)
        ensures
            res.component(0) == x,
            res.component(1) == y,
    {
        Vec2 { x, y, _force_constructor: ForceConstructor }
    }

    pub fn set_x(&mut self, value: T)
        ensures
            final(self).component(0) == value,
            final(self).component(1) == old(self).component(1),
    {
        self.x = value;
    }

    pub fn set_y(&mut self, value: T)
        ensures
            final(self).component(0) == old(self).component(0),
            final(self).component(1) == value,
    {
        self.y = value;
    }

    /// The component at `index`, which must be in range.
    pub fn get(&self, index: i32) -> (res: T)
        requires
            0 <= index < 2,
        ensures
            res == self.component(index as int),
    {
        if index == 0 {
            self.x
        } else {
            self.y
        }
    }

    /// Replaces the component at `index`, which must be in range.
    pub fn set(&mut self, index: i32, value: T)
        requires
            0 <= index < 2,
        ensures
            forall|i: int| 0 <= i < 2 ==> #[trigger] final(self).component(i) == if i == index {
                value
            } else {
                old(self).component(i)
            },
    {
        if index == 0 {
            self.x = value;
        } else {
            self.y = value;
        }
    }
}

/// A vector of 3 scalars; its components are `component(0)` to `component(2)`
/// (`x`, `y`, `z`).
#[derive(Debug, Clone, Copy)]
pub struct Vec3<T> {
    pub x: T,
    pub y: T,
    pub z: T,
    _force_constructor: ForceConstructor,
}

impl<T: Copy> Vec3<T> {
    /// The component at `index` (0 for `x`, 1 for `y`, 2 for `z`).
    pub closed spec fn component(self, index: int) -> T {
        if index == 0 {
            self.x
        } else if index == 1 {
            self.y
        } else {
            self.z
        }
    }

    pub fn new(x: T, y: T, z: T) -> (res: Self)
        ensures
            res.component(0) == x,
            res.component(1) == y,
            res.component(2) == z,
    {
        Vec3 { x, y, z, _force_constructor: ForceConstructor }
    }

    pub fn set_x(&mut self, value: T)
        ensures
            final(self).component(0) == value,
            final(self).component(1) == old(self).component(1),
            final(self).component(2) == old(self).component(2),
    {
        self.x = value;
    }

    pub fn set_y(&mut self, value: T)
        ensures
            final(self).component(0) == old(self).component(0),
            final(self).component(1) == value,
            final(self).component(2) == old(self).component(2),
    {
        self.y = value;
    }

    pub fn set_z(&mut self, value: T)
        ensures
            final(self).component(0) == old(self).component(0),
            final(self).component(1) == old(self).component(1),
            final(self).component(2) == value,
    {
        self.z = value;
    }

    /// The component at `index`, which must be in range.
    pub fn get(&self, index: i32) -> (res: T)
        requires
            0 <= index < 3,
        ensures
            res == self.component(index as int),
    {
        if index == 0 {
            self.x
        } else if index == 1 {
            self.y
        } else {
            self.z
        }
    }

    /// Replaces the component at `index`, which must be in range.
    pub fn set(&mut self, index: i32, value: T)
        requires
            0 <= index < 3,
        ensures
            forall|i: int| 0 <= i < 3 ==> #[trigger] final(self).component(i) == if i == index {
                value
            } else {
                old(self).component(i)
            },
    {
        if index == 0 {
            self.x = value;
        } else if index == 1 {
            self.y = value;
        } else {
            self.z = value;
        }
    }
}

/// A vector of 4 scalars; its components are `component(0)` to `component(3)`
/// (`x`, `y`, `z`, `w`).
#[derive(Debug, Clone, Copy)]
pub struct Vec4<T> {
    pub x: T,
    pub y: T,
    pub z: T,
    pub w: T,
    _force_constructor: ForceConstructor,
}

impl<T: Copy> Vec4<T> {
    /// The component at `index` (0 for `x`, 1 for `y`, 2 for `z`, 3 for `w`).
    pub closed spec fn component(self, index: int) -> T {
        if index == 0 {
            self.x
        } else if index == 1 {
            self.y
        } else if index == 2 {
            self.z
        } else {
            self.w
        }
    }

    pub fn new(x: T, y: T, z: T, w: T) -> (res: Self)
        ensures
            res.component(0) == x,
            res.component(1) == y,
            res.component(2) == z,
            res.component(3) == w,
    {
        Vec4 { x, y, z, w, _force_constructor: ForceConstructor }
    }

    pub fn set_x(&mut self, value: T)
        ensures
            final(self).component(0) == value,
            final(self).component(1) == old(self).component(1),
            final(self).component(2) == old(self).component(2),
            final(self).component(3) == old(self).component(3),
    {
        self.x = value;
    }

    pub fn set_y(&mut self, value: T)
        ensures
            final(self).component(0) == old(self).component(0),
            final(self).component(1) == value,
            final(self).component(2) == old(self).component(2),
            final(self).component(3) == old(self).component(3),
    {
        self.y = value;
    }

    pub fn set_z(&mut self, value: T)
        ensures
            final(self).component(0) == old(self).component(0),
            final(self).component(1) == old(self).component(1),
            final(self).component(2) == value,
            final(self).component(3) == old(self).component(3),
    {
        self.z = value;
    }

    pub fn set_w(&mut self, value: T)
        ensures
            final(self).component(0) == old(self).component(0),
            final(self).component(1) == old(self).component(1),
            final(self).component(2) == old(self).component(2),
            final(self).component(3) == value,
    {
        self.w = value;
    }

    /// The component at `index`, which must be in range.
    pub fn get(&self, index: i32) -> (res: T)
        requires
            0 <= index < 4,
        ensures
            res == self.component(index as int),
    {
        if index == 0 {
            self.x
        } else if index == 1 {
            self.y
        } else if index == 2 {
            self.z
        } else {
            self.w
        }
    }

    /// Replaces the component at `index`, which must be in range.
    pub fn set(&mut self, index: i32, value: T)
        requires
            0 <= index < 4,
        ensures
            forall|i: int| 0 <= i < 4 ==> #[trigger] final(self).component(i) == if i == index {
                value
            } else {
                old(self).component(i)
            },
    {
        if index == 0 {
            self.x = value;
        } else if index == 1 {
            self.y = value;
        } else if index == 2 {
            self.z = value;
        } else {
            self.w = value;
        }
    }
}

pub type Vec2Bool = Vec2<bool>;

pub type Vec2U32 = Vec2<u32>;

pub type Vec2I32 = Vec2<i32>;

pub type Vec3Bool = Vec3<bool>;

pub type Vec3U32 = Vec3<u32>;

pub type Vec3I32 = Vec3<i32>;

pub type Vec4Bool = Vec4<bool>;

pub type Vec4U32 = Vec4<u32>;

pub type Vec4I32 = Vec4<i32>;

} // verus!
