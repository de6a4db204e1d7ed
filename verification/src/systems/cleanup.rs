//! Ends a level that is won: removes the player, and records when the
//! stage is empty.
use vstd::prelude::*;
use crate::gameconfig::LevelComplete;

verus! {

/// The cleanup system.
#[derive(Clone, Copy, Debug, Default, PartialEq, Eq, Structural)]
pub struct CleanupSystem;

impl CleanupSystem {
    /// Tells whether the players are to be deleted, which they are once the
    /// level is won, and marks the cleanup as complete when no player is
    /// left at the start of the tick.
    pub fn run(level: &mut LevelComplete, players: usize) -> (delete_players: bool)
        ensures
            delete_players == old(level).success,
            final(level).success == old(level).success,
            final(level).cleanup_complete == (old(level).cleanup_complete || players == 0),
    {
        let delete_players = level.success;
        if players == 0 {
            level.cleanup_complete = true;
        }
        delete_players
    }
}

} // verus!
