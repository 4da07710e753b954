//! The shape of the pointer.

use vstd::prelude::*;

verus! {

/// A pointer shape that the window system draws.
#[derive(Debug, Copy, Clone, Hash, PartialEq, Eq, Structural)]
pub enum SystemCursor {
    Arrow,
    Hand,
    Ibeam,
    Wait,
    Crosshair,
}

#[derive(Debug, Copy, Clone, Hash, PartialEq, Eq, Structural)]
pub enum MouseCursor {
    System(SystemCursor),
}

} // verus!
