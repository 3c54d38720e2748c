//! The game's states and the move that the keys of a frame ask for.

use vstd::prelude::*;

verus! {

/// The way the tiles are pushed in one turn, `NONE` when no arrow key was pressed.
#[allow(non_camel_case_types)]
#[derive(Clone, Copy, Debug, PartialEq, Eq, Structural)]
pub enum MoveDirection {
    NONE,
    UP,
    DOWN,
    RIGHT,
    LEFT,
}

/// Which screen the game is on: the board (`NONE`), the winner's or the loser's.
#[allow(non_camel_case_types)]
#[derive(Clone, Copy, Debug, PartialEq, Eq, Structural)]
pub enum VictoryOrDefeat {
    NONE,
    VICTORY,
    DEFEAT,
}

/// The arrow keys that were pressed in this frame.
#[derive(Clone, Copy, Debug, PartialEq, Eq, Structural)]
pub struct ArrowKeys {
    pub up: bool,
    pub down: bool,
    pub right: bool,
    pub left: bool,
}

/// The move that the pressed keys ask for. The keys are looked at in the
/// order up, down, right, left, and a later one overrides an earlier one.
pub open spec fn spec_direction(keys: ArrowKeys) -> MoveDirection {
    if keys.left {
        MoveDirection::LEFT
    } else if keys.right {
        MoveDirection::RIGHT
    } else if keys.down {
        MoveDirection::DOWN
    } else if keys.up {
        MoveDirection::UP
    } else {
        MoveDirection::NONE
    }
}

/// Picks the move of this frame from the arrow keys pressed in it.
pub fn direction_from_keys(keys: ArrowKeys) -> (moved: MoveDirection)
    ensures
        moved == spec_direction(keys),
        keys.left ==> moved == MoveDirection::LEFT,
        !keys.left && keys.right ==> moved == MoveDirection::RIGHT,
        !keys.left && !keys.right && keys.down ==> moved == MoveDirection::DOWN,
        !keys.left && !keys.right && !keys.down && keys.up ==> moved == MoveDirection::UP,
        moved == MoveDirection::NONE <==> !(keys.up || keys.down || keys.right || keys.left),
{
    let mut moved = MoveDirection::NONE;
    if keys.up {
        moved = MoveDirection::UP;
    }
    if keys.down {
        moved = MoveDirection::DOWN;
    }
    if keys.right {
        moved = MoveDirection::RIGHT;
    }
    if keys.left {
        moved = MoveDirection::LEFT;
    }
    moved
}

/// The screen to switch to once the result of a turn is known:
/// none while the game goes on, else the screen of that result.
pub fn state_change(result: VictoryOrDefeat) -> (next: Option<VictoryOrDefeat>)
    ensures
        next == (if result == VictoryOrDefeat::NONE { None } else { Some(result) }),
{
    match result {
        VictoryOrDefeat::VICTORY => Some(VictoryOrDefeat::VICTORY),
        VictoryOrDefeat::DEFEAT => Some(VictoryOrDefeat::DEFEAT),
        VictoryOrDefeat::NONE => None,
    }
}

} // verus!
