//! The player: how fast it moves and fires, where it faces, and whether
//! anything can hurt it.
use vstd::prelude::*;
use crate::direction::Direction;
use crate::fixed::{sat_add, saturate, sum};

verus! {

/// The player's state.
#[derive(Clone, Copy, Debug, PartialEq, Eq, Structural)]
pub struct Player {
    pub speed: i64,
    pub laser_speed: i64,
    /// Seconds that must pass between two shots.
    pub fire_delay: i64,
    pub seconds_since_firing: i64,
    pub direction: Direction,
    pub invulnerable: bool,
}

impl Player {
    /// Whether the delay since the last shot has passed.
    pub open spec fn ready(self) -> bool {
        self.seconds_since_firing >= self.fire_delay
    }

    /// The player after being asked to fire: a shot restarts the count of
    /// seconds, and a refusal adds the tick to it.
    pub open spec fn after_trigger(self, time: i64) -> Player {
        if self.ready() {
            Player { seconds_since_firing: 0, ..self }
        } else {
            Player { seconds_since_firing: sum(self.seconds_since_firing, time), ..self }
        }
    }

    /// The player's speed.
    pub fn get_speed(&self) -> (speed: i64)
        ensures
            speed == self.speed,
    {
        self.speed
    }

    /// Asks whether the player may fire now, and keeps the timer: a shot
    /// restarts it, a refusal adds `time` to it.
    pub fn can_fire(&mut self, time: i64) -> (fire: bool)
        ensures
            fire == old(self).ready(),
            *final(self) == old(self).after_trigger(time),
    {
        if self.seconds_since_firing >= self.fire_delay {
            self.seconds_since_firing = 0;
            true
        } else {
            self.seconds_since_firing = sat_add(self.seconds_since_firing, time);
            false
        }
    }
}

impl Default for Player {
    fn default() -> (player: Player)
        ensures
            player == (Player {
                speed: 0,
                laser_speed: 0,
                fire_delay: 0,
                seconds_since_firing: 0,
                direction: Direction::Up,
                invulnerable: false,
            }),
    {
        Player {
            speed: 0,
            laser_speed: 0,
            fire_delay: 0,
            seconds_since_firing: 0,
            direction: Direction::Up,
            invulnerable: false,
        }
    }
}

/// Between two shots the count of seconds never goes down while time moves
/// forward, and right after a shot with a positive delay the player must
/// wait again.
pub proof fn lemma_timer(player: Player, time: i64)
    requires
        time >= 0,
    ensures
        !player.ready() ==> player.after_trigger(time).seconds_since_firing
            >= player.seconds_since_firing,
        player.ready() && player.fire_delay > 0 ==> !player.after_trigger(time).ready(),
{
}

impl Player {
    /// The player after `n` ticks of `time` seconds on each of which it was
    /// asked to fire.
    pub open spec fn after_triggers(self, time: i64, n: nat) -> Player
        decreases n,
    {
        if n == 0 {
            self
        } else {
            self.after_triggers(time, (n - 1) as nat).after_trigger(time)
        }
    }
}

/// A player that keeps the trigger pulled waits out its delay and no
/// longer: while the ticks that were refused add up to less than what was
/// missing, it is refused; afterwards it is ready. Here `n` ticks are all
/// refused, and the count has grown by their sum, as far as the number range
/// goes.
pub proof fn lemma_waits_out_delay(player: Player, time: i64, n: nat)
    requires
        time >= 0,
        player.seconds_since_firing + (n - 1) * time < player.fire_delay,
        n >= 1,
    ensures
        player.after_triggers(time, n).seconds_since_firing == saturate(
            player.seconds_since_firing + n * time,
        ),
        player.after_triggers(time, n).fire_delay == player.fire_delay,
        forall|k: nat| k < n ==> !(#[trigger] player.after_triggers(time, k)).ready(),
        player.after_triggers(time, n).ready() <==> player.seconds_since_firing + n * time
            >= player.fire_delay,
    decreases n,
{
    let m = (n - 1) as nat;
    assert(n * time == m * time + time) by (nonlinear_arith)
        requires
            n == m + 1,
    ;
    if m == 0 {
        assert(player.after_triggers(time, 0) == player);
        assert(0 * time == 0);
        assert(player.after_triggers(time, 1) == player.after_trigger(time));
    } else {
        let l = (m - 1) as nat;
        assert(m * time == l * time + time) by (nonlinear_arith)
            requires
                m == l + 1,
        ;
        assert(l * time >= 0 && l * time <= m * time) by (nonlinear_arith)
            requires
                0 <= l <= m,
                time >= 0,
        ;
        lemma_waits_out_delay(player, time, m);
        assert forall|k: nat| k < n implies !(#[trigger] player.after_triggers(time, k)).ready() by {
            if k < m {
            } else {
                assert(k == m);
            }
        }
    }
}

} // verus!
