//! A user profile record and rectangles with their areas.
use vstd::prelude::*;

verus! {

/// A user's profile.
pub struct User {
    pub active: bool,
    pub username: String,
    pub email: String,
    pub sign_in_count: u64,
}

/// A new active profile with a sign-in count of three.
pub fn build_user(email: String, username: String) -> (r: User)
    ensures
        r.active,
        r.username == username,
        r.email == email,
        r.sign_in_count == 3,
{
    User { active: true, username, email, sign_in_count: 3 }
}

/// The area of a rectangle given as a pair of dimensions.
pub fn area(dimensions: (u32, u32)) -> (r: u32)
    requires
        dimensions.0 * dimensions.1 <= u32::MAX,
    ensures
        r == dimensions.0 * dimensions.1,
{
    dimensions.0 * dimensions.1
}

/// An axis-aligned rectangle.
#[derive(Debug, Clone, Copy)]
pub struct Rectangle {
    pub width: u32,
    pub length: u32,
}

impl Rectangle {
    /// The area as a mathematical integer.
    pub open spec fn spec_area(&self) -> int {
        self.width * self.length
    }

    /// Whether `other` fits inside this rectangle, turned or not.
    pub open spec fn holds(&self, other: Rectangle) -> bool {
        (self.width >= other.width && self.length >= other.length) || (self.length
            >= other.width && self.width >= other.length)
    }

    pub fn area(&self) -> (r: u32)
        requires
            self.spec_area() <= u32::MAX,
        ensures
            r == self.spec_area(),
    {
        self.width * self.length
    }

    pub fn width(&self) -> (r: u32)
        ensures
            r == self.width,
    {
        self.width
    }

    pub fn can_hold(&self, rectangle: &Rectangle) -> (r: bool)
        ensures
            r == self.holds(*rectangle),
    {
        (self.width >= rectangle.width && self.length >= rectangle.length) || (self.length
            >= rectangle.width && self.width >= rectangle.length)
    }

    /// A square with sides of `size`.
    pub fn square(size: u32) -> (r: Self)
        ensures
            r.width == size,
            r.length == size,
    {
        Self { width: size, length: size }
    }
}

/// The area of a borrowed rectangle.
pub fn area_str(rectangle: &Rectangle) -> (r: u32)
    requires
        rectangle.spec_area() <= u32::MAX,
    ensures
        r == rectangle.spec_area(),
{
    rectangle.width * rectangle.length
}

} // verus!
