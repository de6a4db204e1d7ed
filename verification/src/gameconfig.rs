//! What is handed from scene to scene: the levels, the sound configuration,
//! the mode of play, and the small counters that decide when a level is
//! over.
use vstd::prelude::*;
use crate::audio::Sounds;
use crate::level::{LevelConfig, Levels};

verus! {

/// Whether a level is played, a transition follows it, or the game is won.
#[derive(Clone, Copy, Debug, PartialEq, Eq, Structural)]
pub enum GameplayMode {
    LevelMode,
    TransitionMode,
    CompletedMode,
}

/// The global volume and the files of all sound effects.
#[derive(Clone, Debug)]
pub struct SoundConfig {
    pub max_volume: i64,
    pub player_blaster: Vec<String>,
    pub player_death: Vec<String>,
    pub enemy_blaster: Vec<String>,
    pub enemy_death: Vec<String>,
    pub triangle_lock: Vec<String>,
    pub short_transition: String,
    pub long_transition: String,
    pub glass_transition: String,
}

impl SoundConfig {
    /// The number of variations that are loaded for each cue. The death of
    /// an enemy sounds like the player's: its cue is loaded from the
    /// player's files.
    pub fn sounds(&self) -> (sounds: Sounds)
        ensures
            sounds == (Sounds {
                volume: self.max_volume,
                player_blaster: self.player_blaster@.len() as usize,
                enemy_blaster: self.enemy_blaster@.len() as usize,
                enemy_death: self.player_death@.len() as usize,
                player_death: self.player_death@.len() as usize,
                triangle_lock: self.triangle_lock@.len() as usize,
            }),
    {
        Sounds {
            volume: self.max_volume,
            player_blaster: self.player_blaster.len(),
            enemy_blaster: self.enemy_blaster.len(),
            enemy_death: self.player_death.len(),
            player_death: self.player_death.len(),
            triangle_lock: self.triangle_lock.len(),
        }
    }
}

/// All the levels, all the sounds, the levels still to play, the mode of
/// play, and whether the player is invulnerable.
#[derive(Clone, Debug)]
pub struct GameConfig {
    pub level_config: LevelConfig,
    pub sound_config: SoundConfig,
    pub current_levels: Levels,
    pub gameplay_mode: GameplayMode,
    pub immortal_hyper_mode: bool,
}

/// The conditions under which a level counts as cleared.
#[derive(Clone, Copy, Debug, PartialEq, Eq, Structural)]
pub struct LevelComplete {
    /// Whether the player has defeated every enemy.
    pub success: bool,
    pub cleanup_complete: bool,
}

impl LevelComplete {
    /// Whether the next level can start: the player has won and everything
    /// is cleaned up.
    pub fn ready_for_next_level(&self) -> (ready: bool)
        ensures
            ready == (self.success && self.cleanup_complete),
    {
        self.success && self.cleanup_complete
    }

    /// Starts a level: nothing is won or cleaned up yet.
    pub fn start_over(&mut self)
        ensures
            *final(self) == (LevelComplete { success: false, cleanup_complete: false }),
    {
        self.success = false;
        self.cleanup_complete = false;
    }
}

impl Default for LevelComplete {
    /// A cleared level, ready for the next one.
    fn default() -> (level: LevelComplete)
        ensures
            level == (LevelComplete { success: true, cleanup_complete: true }),
    {
        LevelComplete { success: true, cleanup_complete: true }
    }
}

/// The number of enemies that are still alive.
#[derive(Clone, Copy, Debug, PartialEq, Eq, Structural)]
pub struct EnemyCount {
    pub count: i32,
}

impl EnemyCount {
    pub fn decrement_by(&mut self, amt: i32)
        requires
            i32::MIN <= old(self).count - amt <= i32::MAX,
        ensures
            final(self).count == old(self).count - amt,
    {
        self.count -= amt;
    }
}

impl Default for EnemyCount {
    fn default() -> (enemies: EnemyCount)
        ensures
            enemies.count == 0,
    {
        EnemyCount { count: 0 }
    }
}

/// What is kept about the player across levels.
#[derive(Clone, Copy, Debug, PartialEq, Eq, Structural)]
pub struct PlayerStats {
    pub score: i32,
}

impl PlayerStats {
    pub fn add_to_score(&mut self, value: i32)
        requires
            i32::MIN <= old(self).score + value <= i32::MAX,
        ensures
            final(self).score == old(self).score + value,
    {
        self.score += value;
    }

    pub fn get_score(&self) -> (score: i32)
        ensures
            score == self.score,
    {
        self.score
    }
}

impl Default for PlayerStats {
    fn default() -> (stats: PlayerStats)
        ensures
            stats.score == 0,
    {
        PlayerStats { score: 0 }
    }
}

} // verus!
