use vstd::prelude::*;

verus! {

/// An axis-aligned rectangle given by its side lengths.
#[derive(PartialEq, Eq, Structural, Debug, Clone, Copy)]
pub struct Rect {
    pub width: u32,
    pub height: u32,
}

impl Rect {
    /// The area of the rectangle. The product must fit in a `u32`.
    pub fn area(&self) -> (r: u32)
        requires
            self.width * self.height <= u32::MAX,
        ensures
            r == self.width * self.height,
    {
        self.width * self.height
    }

    /// Whether `other` fits inside this rectangle without rotating it.
    pub fn can_hold(&self, other: &Rect) -> (r: bool)
        ensures
            r == (self.width >= other.width && self.height >= other.height),
    {
        self.width >= other.width && self.height >= other.height
    }

    /// A square with sides of length `size`.
    pub fn square(size: u32) -> (r: Rect)
        ensures
            r.width == size,
            r.height == size,
    {
        Rect { width: size, height: size }
    }
}

} // verus!
