use vstd::prelude::*;

verus! {

/// The two inks of the binary panel.
#[derive(Clone, Copy, PartialEq, Eq, Structural, Debug)]
pub enum Color {
    White,
    Black,
}

/// One call of the panel's drawing primitives, in absolute panel pixels.
#[derive(Clone, Copy, PartialEq, Eq, Structural, Debug)]
pub enum DrawOp {
    /// A one-pixel-wide line from `(x0, y0)` to `(x1, y1)`.
    Line { x0: i32, y0: i32, x1: i32, y1: i32 },
    /// A filled rectangle with its top-left corner at `(x, y)`.
    FillRect { x: i32, y: i32, w: i32, h: i32, color: Color },
}

} // verus!
