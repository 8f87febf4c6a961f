use vstd::prelude::*;

verus! {

/// A zero-based terminal cell coordinate.
#[derive(Clone, Copy, Debug, PartialEq, Eq, Structural)]
pub struct Point {
    pub x: u16,
    pub y: u16,
}

/// Terminal dimensions in cells.
#[derive(Clone, Copy, Debug, PartialEq, Eq, Structural)]
pub struct Size {
    pub width: u16,
    pub height: u16,
}

} // verus!
