//! Sound cues. The core only names the cue to play and picks one of its
//! recorded variations; loading and playing the sounds is the caller's part.
use vstd::prelude::*;
use crate::fixed::SCALE;
use crate::random::sample_range;

verus! {

/// All the sound effects of the game.
#[derive(Clone, Copy, Debug, PartialEq, Eq, Structural)]
pub enum SoundType {
    PlayerBlaster,
    PlayerDeath,
    EnemyBlaster,
    EnemyDeath,
    TriangleLock,
    ShortTransition,
    LongTransition,
    GlassTransition,
    Silent,
}

/// How many recorded variations each cue has. The three transition cues have
/// one recording each.
#[derive(Clone, Copy, Debug, PartialEq, Eq, Structural)]
pub struct Sounds {
    pub volume: i64,
    pub player_blaster: usize,
    pub enemy_blaster: usize,
    pub enemy_death: usize,
    pub player_death: usize,
    pub triangle_lock: usize,
}

/// One sound to play: the cue, which of its variations, and the volume.
#[derive(Clone, Copy, Debug, PartialEq, Eq, Structural)]
pub struct SoundChoice {
    pub sound_type: SoundType,
    pub variation: usize,
    pub volume: i64,
}

/// The share of the global volume at which a cue is played.
pub open spec fn volume_modifier(sound_type: SoundType) -> i64 {
    match sound_type {
        SoundType::PlayerBlaster => 500_000,
        SoundType::PlayerDeath => 800_000,
        SoundType::EnemyBlaster => 500_000,
        SoundType::EnemyDeath => 600_000,
        SoundType::TriangleLock => 700_000,
        SoundType::ShortTransition => SCALE,
        SoundType::LongTransition => SCALE,
        SoundType::GlassTransition => SCALE,
        SoundType::Silent => 0,
    }
}

impl Sounds {
    /// The number of variations recorded for a cue.
    pub open spec fn variations(self, sound_type: SoundType) -> usize {
        match sound_type {
            SoundType::PlayerBlaster => self.player_blaster,
            SoundType::PlayerDeath => self.player_death,
            SoundType::EnemyBlaster => self.enemy_blaster,
            SoundType::EnemyDeath => self.enemy_death,
            SoundType::TriangleLock => self.triangle_lock,
            SoundType::ShortTransition => 1,
            SoundType::LongTransition => 1,
            SoundType::GlassTransition => 1,
            SoundType::Silent => 0,
        }
    }

    /// The sound that a roll of the dice selects: nothing for the silent cue
    /// or a cue without recordings, else the variation that the roll names,
    /// at the cue's share of the global volume.
    pub open spec fn choice(self, sound_type: SoundType, roll: usize) -> Option<SoundChoice> {
        if self.variations(sound_type) == 0 {
            None
        } else {
            Some(
                SoundChoice {
                    sound_type,
                    variation: roll,
                    volume: crate::fixed::product(self.volume, volume_modifier(sound_type)),
                },
            )
        }
    }

    /// Exec form of [`Sounds::variations`].
    pub fn variation_count(&self, sound_type: SoundType) -> (n: usize)
        ensures
            n == self.variations(sound_type),
    {
        match sound_type {
            SoundType::PlayerBlaster => self.player_blaster,
            SoundType::PlayerDeath => self.player_death,
            SoundType::EnemyBlaster => self.enemy_blaster,
            SoundType::EnemyDeath => self.enemy_death,
            SoundType::TriangleLock => self.triangle_lock,
            SoundType::ShortTransition => 1,
            SoundType::LongTransition => 1,
            SoundType::GlassTransition => 1,
            SoundType::Silent => 0,
        }
    }

    /// Picks one of `max` variations at random.
    fn random_int(&self, max: usize) -> (index: usize)
        requires
            0 < max <= i64::MAX,
        ensures
            index < max,
    {
        sample_range(0, max as i64) as usize
    }

    /// The sound that the given roll selects for a cue.
    pub fn select_sound(&self, sound_type: SoundType, roll: usize) -> (choice: Option<SoundChoice>)
        ensures
            choice == self.choice(sound_type, roll),
    {
        let volume: i64 = match sound_type {
            SoundType::PlayerBlaster => 500_000,
            SoundType::PlayerDeath => 800_000,
            SoundType::EnemyBlaster => 500_000,
            SoundType::EnemyDeath => 600_000,
            SoundType::TriangleLock => 700_000,
            SoundType::ShortTransition => SCALE,
            SoundType::LongTransition => SCALE,
            SoundType::GlassTransition => SCALE,
            SoundType::Silent => 0,
        };
        if self.variation_count(sound_type) == 0 {
            None
        } else {
            Some(
                SoundChoice {
                    sound_type,
                    variation: roll,
                    volume: crate::fixed::sat_mul(self.volume, volume),
                },
            )
        }
    }

    /// Decides what to play for a cue: one of its variations, picked at
    /// random, at the cue's share of the global volume; nothing for the
    /// silent cue or one without recordings.
    pub fn play_sound(&self, sound_type: SoundType) -> (choice: Option<SoundChoice>)
        ensures
            self.variations(sound_type) == 0 ==> choice.is_none(),
            self.variations(sound_type) != 0 ==> exists|roll: usize|
                roll < self.variations(sound_type) && choice == self.choice(sound_type, roll),
    {
        let count = self.variation_count(sound_type);
        if count == 0 {
            None
        } else {
            let roll = if count == 1 || count > i64::MAX as usize {
                0
            } else {
                self.random_int(count)
            };
            self.select_sound(sound_type, roll)
        }
    }
}

} // verus!
