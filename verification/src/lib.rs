//! Verified game logic, wire framing and account rules of a multiplayer
//! board-game system in which one player's client hosts the game.
use vstd::prelude::*;

pub mod accounts;
pub mod backend;
pub mod board;
pub mod dioxus_flow;
pub mod dioxus_tic_tac_toe;
pub mod leptos_tic_tac_toe;
pub mod session_flow;
pub mod ui;
pub mod wire;

verus! {

} // verus!
