use vstd::prelude::*;
use vstd::string::StringExecFns;

verus! {

/// A point on the integer plane, addable componentwise with `+`.
#[derive(Debug, PartialEq, Eq, Structural, Clone, Copy)]
pub struct Point {
    pub x: i32,
    pub y: i32,
}

impl std::ops::Add for Point {
    type Output = Point;

    /// Componentwise addition.
    fn add(self, other: Point) -> (r: Point) {
        Point { x: self.x + other.x, y: self.y + other.y }
    }
}

impl vstd::std_specs::ops::AddSpecImpl for Point {
    open spec fn obeys_add_spec() -> bool {
        true
    }

    open spec fn add_req(self, rhs: Point) -> bool {
        &&& i32::MIN <= self.x + rhs.x <= i32::MAX
        &&& i32::MIN <= self.y + rhs.y <= i32::MAX
    }

    open spec fn add_spec(self, rhs: Point) -> Point {
        Point { x: (self.x + rhs.x) as i32, y: (self.y + rhs.y) as i32 }
    }
}

#[derive(Debug, PartialEq, Eq, Structural, Clone, Copy)]
pub struct Millimeters(pub u32);

#[derive(Debug, PartialEq, Eq, Structural, Clone, Copy)]
pub struct Meters(pub u32);

impl std::ops::Add<Meters> for Millimeters {
    type Output = Millimeters;

    /// A length in millimeters plus one in meters, in millimeters.
    fn add(self, other: Meters) -> (r: Millimeters) {
        Millimeters(self.0 + other.0 * 1000)
    }
}

impl vstd::std_specs::ops::AddSpecImpl<Meters> for Millimeters {
    open spec fn obeys_add_spec() -> bool {
        true
    }

    open spec fn add_req(self, rhs: Meters) -> bool {
        self.0 + rhs.0 * 1000 <= u32::MAX
    }

    open spec fn add_spec(self, rhs: Meters) -> Millimeters {
        Millimeters((self.0 + rhs.0 * 1000) as u32)
    }
}

/// What animals do; kennel clubs and trainers have their own names
/// for the young, so the trait leaves the result open.
pub trait Animal {
    fn baby_name() -> String;
}

pub struct Dog;

impl Dog {
    /// The name this particular dog answers to.
    pub fn baby_name() -> (r: String)
        ensures
            r@ == "Spot"@,
    {
        String::from_str("Spot")
    }
}

impl Animal for Dog {
    /// Any young dog is a puppy.
    fn baby_name() -> (r: String)
        ensures
            r@ == "puppy"@,
    {
        String::from_str("puppy")
    }
}

} // verus!
