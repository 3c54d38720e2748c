//! Verified logic of a 2048 tile game: how keys become moves, how the
//! board is shown, how the end screens read and react.

pub mod decimal;
pub mod state;
pub mod display;
pub mod screens;
pub mod turn;
