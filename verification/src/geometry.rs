//! Plain geometry values shared by the atlas and text modules.

use vstd::prelude::*;

verus! {

/// Physical / device pixels.
#[derive(Copy, Clone, Debug, PartialEq, Eq, Hash)]
pub struct DevicePixels(pub i32);

impl Default for DevicePixels {
    fn default() -> (d: Self)
        ensures
            d.0 == 0,
    {
        DevicePixels(0)
    }
}

impl From<i32> for DevicePixels {
    fn from(v: i32) -> (d: Self)
        ensures
            d.0 == v,
    {
        DevicePixels(v)
    }
}

impl vstd::std_specs::convert::FromSpecImpl<i32> for DevicePixels {
    open spec fn obeys_from_spec() -> bool {
        true
    }

    open spec fn from_spec(v: i32) -> Self {
        DevicePixels(v)
    }
}

/// A 2-D size.
#[derive(Copy, Clone, Debug, PartialEq)]
pub struct Size<T> {
    pub width: T,
    pub height: T,
}

/// A 2-D point.
#[derive(Copy, Clone, Debug, PartialEq)]
pub struct Point<T> {
    pub x: T,
    pub y: T,
}

impl<T> Point<T> {
    /// Point at `(x, y)`.
    pub fn new(x: T, y: T) -> (p: Self)
        ensures
            p.x == x,
            p.y == y,
    {
        Point { x, y }
    }
}

/// An axis-aligned rectangle.
#[derive(Copy, Clone, Debug, PartialEq)]
pub struct Bounds<T> {
    pub origin: Point<T>,
    pub size: Size<T>,
}

/// Point constructor.
pub fn point<T>(x: T, y: T) -> (p: Point<T>)
    ensures
        p.x == x,
        p.y == y,
{
    Point { x, y }
}

/// Size constructor.
pub fn size<T>(width: T, height: T) -> (s: Size<T>)
    ensures
        s.width == width,
        s.height == height,
{
    Size { width, height }
}

} // verus!
