//! Points, vectors and their mathematical model.

use vstd::prelude::*;

verus! {

/// A pair of unbounded integers: what a `Point` or a `Vector` stands for.
pub struct Pair {
    pub x: int,
    pub y: int,
}

/// A position on the playfield. `y` grows downward.
#[derive(Clone, Copy, Debug, PartialEq, Eq, Structural)]
pub struct Point {
    pub x: i64,
    pub y: i64,
}

/// A velocity.
#[derive(Clone, Copy, Debug, PartialEq, Eq, Structural)]
pub struct Vector {
    pub x: i64,
    pub y: i64,
}

impl View for Point {
    type V = Pair;

    open spec fn view(&self) -> Pair {
        Pair { x: self.x as int, y: self.y as int }
    }
}

impl View for Vector {
    type V = Pair;

    open spec fn view(&self) -> Pair {
        Pair { x: self.x as int, y: self.y as int }
    }
}

} // verus!
