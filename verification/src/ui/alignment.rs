use vstd::prelude::*;

verus! {

/// Where a child sits horizontally in its container.
#[derive(Clone, Copy, Debug, Hash, PartialEq, Eq, Structural)]
pub enum HorizontalAlignment {
    Left,
    Right,
    Center,
}

/// Where a child sits vertically in its container.
#[derive(Clone, Copy, Debug, Hash, PartialEq, Eq, Structural)]
pub enum VerticalAlignment {
    Top,
    Bottom,
    Middle,
}

/// Where a child sits in its container, on both axes.
#[derive(Clone, Copy, Debug, Hash, PartialEq, Eq, Structural)]
pub struct Alignment {
    pub horizontal: HorizontalAlignment,
    pub vertical: VerticalAlignment,
}

impl Alignment {
    /// The alignment made of `horizontal` and `vertical`.
    pub fn new(horizontal: HorizontalAlignment, vertical: VerticalAlignment) -> (a: Alignment)
        ensures
            a.horizontal == horizontal,
            a.vertical == vertical,
    {
        Alignment { horizontal, vertical }
    }
}

/// The horizontal axis: its main alignment is horizontal, its cross alignment vertical.
pub struct AxisX;

/// The vertical axis: its main alignment is vertical, its cross alignment horizontal.
pub struct AxisY;

} // verus!
