use vstd::prelude::*;

verus! {

/// Number of playfield columns.
pub const BOARD_SIZE_X: u16 = 20;

/// Number of playfield rows.
pub const BOARD_SIZE_Y: u16 = 20;

/// Seconds before the first tick of a round.
pub const START_DELAY_IN_SECS: u64 = 3;

/// Most fruits that may lie on the board at once.
pub const MAX_FRUITS: usize = 5;

} // verus!
