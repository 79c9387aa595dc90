use vstd::prelude::*;

verus! {

/// One lattice cell's classification.
#[derive(Debug, Clone, Copy, PartialEq, Eq, Structural)]
pub enum CellResult {
    /// Guaranteed to have no Bomb among its eight neighbors.
    Open,
    /// Not a Bomb; its neighbor count is reported to the caller.
    Normal,
    /// A hazard.
    Bomb,
}

impl CellResult {
    /// The byte encoding handed to callers: 0 = Open, 1 = Normal, 2 = Bomb.
    pub open spec fn byte_spec(self) -> u8 {
        match self {
            CellResult::Open => 0,
            CellResult::Normal => 1,
            CellResult::Bomb => 2,
        }
    }

    pub fn to_byte(self) -> (r: u8)
        ensures
            r == self.byte_spec(),
    {
        match self {
            CellResult::Open => 0,
            CellResult::Normal => 1,
            CellResult::Bomb => 2,
        }
    }
}

} // verus!
