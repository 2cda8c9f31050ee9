//! Places in the frame, each counted in characters from its start.

use vstd::prelude::*;

verus! {

/// Place of the top left cell of the playfield.
pub const GRID_ORIGIN: usize = 92;

/// Place of the top left corner of the hold section.
pub const HOLD_GRID_ORIGIN: usize = 140;

/// Place of the centre of the piece shown in the hold section.
pub const HOLD_GRID_CENTER: usize = 282;

/// Place of the top left corner of the next section.
pub const NEXT_GRID_ORIGIN: usize = 188;

/// Place of the centre of the first piece shown in the next section.
pub const NEXT_GRID_CENTER0: usize = 330;

/// Place of the centre of the second piece shown in the next section.
pub const NEXT_GRID_CENTER1: usize = 606;

/// Place of the centre of the third piece shown in the next section.
pub const NEXT_GRID_CENTER2: usize = 882;

/// Place of the last digit of the score.
pub const SCORE_COUNTER: usize = 1164;

/// Place of the last digit of the level.
pub const LEVEL_COUNTER: usize = 1302;

/// Place of the last digit of the number of lines.
pub const LINES_COUNTER: usize = 1440;

} // verus!
