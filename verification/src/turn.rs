//! What the board screen shows and where it goes once a turn has been played.

use vstd::prelude::*;
use crate::decimal::spec_decimal;
use crate::display::{board_views, board_covers_cells, shows, value_at, CellView, CELL_SIDE_NUM};
use crate::screens::score_text;
use crate::state::{state_change, VictoryOrDefeat};

verus! {

/// Everything the board screen changes after a turn.
pub struct TurnDisplay {
    /// The text of the score.
    pub score_text: String,
    /// What each cell shows, in the order the cells are drawn.
    pub cells: Vec<CellView>,
    /// The screen to switch to, if the game is over.
    pub next_state: Option<VictoryOrDefeat>,
}

/// What the board screen shows after a turn that left `board` and `score`
/// and whose result is `result`.
pub fn turn_display(board: &Vec<Vec<u32>>, score: u32, result: VictoryOrDefeat) -> (d: TurnDisplay)
    requires
        board_covers_cells(board@),
    ensures
        d.score_text@ == spec_decimal(score as nat),
        d.cells@.len() == CELL_SIDE_NUM * CELL_SIDE_NUM,
        forall|i: int| 0 <= i < d.cells@.len() ==> shows(#[trigger] d.cells@[i], value_at(board@, i)),
        d.next_state == (if result == VictoryOrDefeat::NONE { None } else { Some(result) }),
{
    TurnDisplay {
        score_text: score_text(score),
        cells: board_views(board),
        next_state: state_change(result),
    }
}

} // verus!
