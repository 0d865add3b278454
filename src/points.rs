//! Traits on small value types: adding points, adding meters to
//! millimeters, and a producer of items with an associated item type.
use vstd::prelude::*;
use std::ops::Add;

verus! {

/// A point on the integer grid.
#[derive(Clone, Copy, Debug, PartialEq, Eq, Structural)]
pub struct Point {
    pub x: i32,
    pub y: i32,
}

impl vstd::std_specs::ops::AddSpecImpl for Point {
    open spec fn obeys_add_spec() -> bool {
        true
    }

    open spec fn add_req(self, rhs: Point) -> bool {
        i32::MIN <= self.x + rhs.x <= i32::MAX && i32::MIN <= self.y + rhs.y <= i32::MAX
    }

    open spec fn add_spec(self, rhs: Point) -> Point {
        Point { x: (self.x + rhs.x) as i32, y: (self.y + rhs.y) as i32 }
    }
}

impl Add for Point {
    type Output = Point;

    /// Adds coordinate by coordinate; the sums must fit in an `i32`.
    fn add(self, other: Point) -> (r: Point) {
        Point { x: self.x + other.x, y: self.y + other.y }
    }
}

/// A length in millimeters.
#[derive(Clone, Copy, Debug, PartialEq, Eq, Structural)]
pub struct Millimeters(pub u32);

/// A length in meters.
#[derive(Clone, Copy, Debug, PartialEq, Eq, Structural)]
pub struct Meters(pub u32);

impl vstd::std_specs::ops::AddSpecImpl<Meters> for Millimeters {
    open spec fn obeys_add_spec() -> bool {
        true
    }

    open spec fn add_req(self, rhs: Meters) -> bool {
        self.0 + rhs.0 * 1000 <= u32::MAX
    }

    open spec fn add_spec(self, rhs: Meters) -> Millimeters {
        Millimeters((self.0 + rhs.0 * 1000) as u32)
    }
}

impl Add<Meters> for Millimeters {
    type Output = Millimeters;

    /// Adds the meters, converted; the total must fit in a `u32`.
    fn add(self, other: Meters) -> (r: Millimeters) {
        Millimeters(self.0 + other.0 * 1000)
    }
}

/// Something that hands out items one at a time, until it has none left.
pub trait Producer {
    type Item;

    /// The next item, or `None` once the producer is exhausted.
    fn next(&mut self) -> Option<Self::Item>;
}

/// A counter that has nothing to hand out.
pub struct Counter;

impl Producer for Counter {
    type Item = u32;

    fn next(&mut self) -> Option<u32> {
        None
    }
}

} // verus!
