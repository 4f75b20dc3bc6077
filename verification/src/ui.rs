//! Plain models of the pieces of UI state the cursor element touches:
//! pixel lengths, sizes, offsets, stacking order and visibility.

use vstd::prelude::*;

verus! {

/// A single layout dimension: either left to the layout engine or a fixed
/// number of logical pixels.
#[derive(Clone, Copy, Debug, PartialEq, Eq, Structural)]
pub enum Val {
    /// The layout engine decides.
    Auto,
    /// A fixed length in logical pixels.
    Px(i64),
}

/// A two-dimensional extent, one [`Val`] per axis.
#[derive(Clone, Copy, Debug, PartialEq, Eq, Structural)]
pub struct Size {
    pub width: Val,
    pub height: Val,
}

impl Size {
    /// Pair a width and a height into a size.
    pub fn new(width: Val, height: Val) -> (s: Size)
        ensures
            s == (Size { width, height }),
    {
        Size { width, height }
    }
}

/// A position or offset in logical pixels. `x` grows to the right; `y`
/// follows whichever convention the context states (window coordinates are
/// top-down, UI offsets bottom-up).
#[derive(Clone, Copy, Debug, PartialEq, Eq, Structural)]
pub struct Vec2 {
    pub x: i32,
    pub y: i32,
}

impl Vec2 {
    /// Pair two coordinates into a vector.
    pub fn new(x: i32, y: i32) -> (v: Vec2)
        ensures
            v == (Vec2 { x, y }),
    {
        Vec2 { x, y }
    }

    /// The origin.
    pub fn zero() -> (v: Vec2)
        ensures
            v == (Vec2 { x: 0, y: 0 }),
    {
        Vec2 { x: 0, y: 0 }
    }
}

/// Stacking order of a UI node: relative to its siblings, or against every
/// node in the scene.
#[derive(Clone, Copy, Debug, PartialEq, Eq, Structural)]
pub enum ZIndex {
    Local(i32),
    Global(i32),
}

/// Whether the tracked element is drawn this frame.
#[derive(Clone, Copy, Debug, PartialEq, Eq, Structural)]
pub enum Visibility {
    Visible,
    Hidden,
}

} // verus!
