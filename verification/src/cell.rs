use vstd::prelude::*;

verus! {

/// Content of one cell of the playfield.
#[derive(Clone, Copy, Debug, PartialEq, Eq, Structural)]
pub enum Cell {
    /// No locked block lies here.
    Empty,
    /// A locked block lies here.
    Full,
}

} // verus!
