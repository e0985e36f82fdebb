//! Small 2D vector values and the parent-relative transform.

use vstd::prelude::*;

verus! {

/// A signed 2D vector, used for pixel offsets and positions.
#[derive(Clone, Copy, Debug, PartialEq, Eq, Structural)]
pub struct Vec2i {
    pub x: i32,
    pub y: i32,
}

impl Vec2i {
    pub fn new(x: i32, y: i32) -> (v: Vec2i)
        ensures
            v.x == x,
            v.y == y,
    {
        Vec2i { x, y }
    }

    pub fn zero() -> (v: Vec2i)
        ensures
            v.x == 0,
            v.y == 0,
    {
        Vec2i::new(0, 0)
    }

    pub fn get_xy(&self) -> (r: (i32, i32))
        ensures
            r.0 == self.x,
            r.1 == self.y,
    {
        (self.x, self.y)
    }

    pub fn set_xy(&mut self, x: i32, y: i32)
        ensures
            final(self).x == x,
            final(self).y == y,
    {
        self.x = x;
        self.y = y;
    }

    pub fn set_from(&mut self, other: &Vec2i)
        ensures
            *final(self) == *other,
    {
        self.set_xy(other.x, other.y);
    }

    pub fn add_vec(&mut self, other: &Vec2i)
        requires
            i32::MIN <= old(self).x + other.x <= i32::MAX,
            i32::MIN <= old(self).y + other.y <= i32::MAX,
        ensures
            final(self).x == old(self).x + other.x,
            final(self).y == old(self).y + other.y,
    {
        self.set_xy(self.x + other.x, self.y + other.y);
    }

    pub fn sub_vec(&mut self, other: &Vec2i)
        requires
            i32::MIN <= old(self).x - other.x <= i32::MAX,
            i32::MIN <= old(self).y - other.y <= i32::MAX,
        ensures
            final(self).x == old(self).x - other.x,
            final(self).y == old(self).y - other.y,
    {
        self.set_xy(self.x - other.x, self.y - other.y);
    }

    pub fn add(&mut self, ox: i32, oy: i32)
        requires
            i32::MIN <= old(self).x + ox <= i32::MAX,
            i32::MIN <= old(self).y + oy <= i32::MAX,
        ensures
            final(self).x == old(self).x + ox,
            final(self).y == old(self).y + oy,
    {
        self.set_xy(self.x + ox, self.y + oy);
    }

    pub fn sub(&mut self, ox: i32, oy: i32)
        requires
            i32::MIN <= old(self).x - ox <= i32::MAX,
            i32::MIN <= old(self).y - oy <= i32::MAX,
        ensures
            final(self).x == old(self).x - ox,
            final(self).y == old(self).y - oy,
    {
        self.set_xy(self.x - ox, self.y - oy);
    }

    /// The dot product of the two vectors.
    pub fn dot(&self, other: &Vec2i) -> (r: i32)
        requires
            i32::MIN <= self.x * other.x <= i32::MAX,
            i32::MIN <= self.y * other.y <= i32::MAX,
            i32::MIN <= self.x * other.x + self.y * other.y <= i32::MAX,
        ensures
            r == self.x * other.x + self.y * other.y,
    {
        self.x * other.x + self.y * other.y
    }
}

/// An unsigned 2D vector, used for pixel coordinates.
#[derive(Clone, Copy, Debug, PartialEq, Eq, Structural)]
pub struct Vec2u {
    pub x: u32,
    pub y: u32,
}

impl Vec2u {
    pub fn new(x: u32, y: u32) -> (v: Vec2u)
        ensures
            v.x == x,
            v.y == y,
    {
        Vec2u { x, y }
    }

    pub fn zero() -> (v: Vec2u)
        ensures
            v.x == 0,
            v.y == 0,
    {
        Vec2u::new(0, 0)
    }

    pub fn get_xy(&self) -> (r: (u32, u32))
        ensures
            r.0 == self.x,
            r.1 == self.y,
    {
        (self.x, self.y)
    }

    pub fn set_xy(&mut self, x: u32, y: u32)
        ensures
            final(self).x == x,
            final(self).y == y,
    {
        self.x = x;
        self.y = y;
    }

    pub fn set_from(&mut self, other: &Vec2u)
        ensures
            *final(self) == *other,
    {
        self.set_xy(other.x, other.y);
    }

    pub fn add_vec(&mut self, other: &Vec2u)
        requires
            old(self).x + other.x <= u32::MAX,
            old(self).y + other.y <= u32::MAX,
        ensures
            final(self).x == old(self).x + other.x,
            final(self).y == old(self).y + other.y,
    {
        self.set_xy(self.x + other.x, self.y + other.y);
    }

    pub fn sub_vec(&mut self, other: &Vec2u)
        requires
            other.x <= old(self).x,
            other.y <= old(self).y,
        ensures
            final(self).x == old(self).x - other.x,
            final(self).y == old(self).y - other.y,
    {
        self.set_xy(self.x - other.x, self.y - other.y);
    }
}

/// A position that may be expressed relative to a parent transform: the
/// absolute position is the sum of the own offset and the parent chain.
pub struct Transform {
    pub x: i32,
    pub y: i32,
    pub parent: Option<Box<Transform>>,
}

impl Transform {
    /// The absolute horizontal position: the own offset plus the parent's.
    pub open spec fn abs_x(self) -> int
        decreases self,
    {
        match self.parent {
            Option::None => self.x as int,
            Option::Some(p) => (*p).abs_x() + self.x,
        }
    }

    /// The absolute vertical position: the own offset plus the parent's.
    pub open spec fn abs_y(self) -> int
        decreases self,
    {
        match self.parent {
            Option::None => self.y as int,
            Option::Some(p) => (*p).abs_y() + self.y,
        }
    }

    /// Every partial sum along the parent chain stays within `i32`, so the
    /// absolute position can be computed without wrapping.
    pub open spec fn fits(self) -> bool
        decreases self,
    {
        match self.parent {
            Option::None => true,
            Option::Some(p) => (*p).fits()
                && i32::MIN <= (*p).abs_x() + self.x <= i32::MAX
                && i32::MIN <= (*p).abs_y() + self.y <= i32::MAX,
        }
    }

    pub fn from(x: i32, y: i32) -> (t: Transform)
        ensures
            t.x == x,
            t.y == y,
            t.parent is None,
            t.fits(),
            t.abs_x() == x,
            t.abs_y() == y,
    {
        Transform { x, y, parent: Option::None }
    }

    #[allow(non_snake_case)]
    pub fn setParent(&mut self, parent: Box<Transform>)
        ensures
            final(self).x == old(self).x,
            final(self).y == old(self).y,
            final(self).parent == Option::Some(parent),
    {
        self.parent = Option::Some(parent);
    }

    pub fn get_xy(&self) -> (r: (i32, i32))
        requires
            self.fits(),
        ensures
            r.0 == self.abs_x(),
            r.1 == self.abs_y(),
        decreases *self,
    {
        match &self.parent {
            Option::None => (self.x, self.y),
            Option::Some(p) => {
                let (px, py) = p.get_xy();
                (px + self.x, py + self.y)
            },
        }
    }

    pub fn set_xy(&mut self, x: i32, y: i32)
        ensures
            final(self).x == x,
            final(self).y == y,
            final(self).parent == old(self).parent,
    {
        self.x = x;
        self.y = y;
    }
}

} // verus!
