//! The player and the request to spawn it.
use vstd::prelude::*;

verus! {

/// A request to spawn the player.
#[derive(Clone, Copy, Debug, PartialEq, Eq)]
pub struct SpawnPlayer;

/// Marks the player's bike.
#[derive(Clone, Copy, Debug, PartialEq, Eq, Default)]
pub struct Player;

} // verus!
