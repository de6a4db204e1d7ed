//! Launches a projectile from every launcher that is ready to fire.
use vstd::prelude::*;
use crate::launcher::{launch_projectile, Launcher, ProjectileBundle, JITTER_HIGH, JITTER_LOW};

verus! {

/// What a launcher fires on a tick: its projectile when it is ready.
pub open spec fn launched(launcher: Launcher) -> Option<ProjectileBundle> {
    if launcher.ready() {
        Some(launcher.projectile())
    } else {
        None
    }
}

/// Whether `after` is `before` one tick of `dt` seconds later, for some
/// head start that a shot may have drawn.
pub open spec fn ticked(before: Launcher, after: Launcher, dt: i64) -> bool {
    exists|jitter: i64|
        JITTER_LOW <= jitter < JITTER_HIGH && after == before.after_trigger(dt, jitter)
}

/// The projectile system.
#[derive(Clone, Copy, Debug, Default, PartialEq, Eq, Structural)]
pub struct ProjectilesSystem;

impl ProjectilesSystem {
    /// Asks every launcher whether it may fire, `dt` seconds after the last
    /// tick, and returns the projectile of each that may. The caller places
    /// the projectile at its launcher.
    pub fn run(launchers: &mut Vec<Launcher>, dt: i64) -> (projectiles: Vec<Option<ProjectileBundle>>)
        ensures
            final(launchers)@.len() == old(launchers)@.len(),
            projectiles@.len() == old(launchers)@.len(),
            forall|i: int|
                0 <= i < old(launchers)@.len() ==> #[trigger] projectiles@[i] == launched(
                    old(launchers)@[i],
                ),
            forall|i: int|
                0 <= i < old(launchers)@.len() ==> ticked(
                    old(launchers)@[i],
                    #[trigger] final(launchers)@[i],
                    dt,
                ),
    {
        let ghost start = launchers@;
        let n = launchers.len();
        let mut projectiles: Vec<Option<ProjectileBundle>> = Vec::new();
        let mut i: usize = 0;
        while i < n
            invariant
                n == start.len(),
                launchers@.len() == n,
                i <= n,
                projectiles@.len() == i,
                forall|h: int| 0 <= h < i ==> #[trigger] projectiles@[h] == launched(start[h]),
                forall|h: int| 0 <= h < i ==> ticked(start[h], #[trigger] launchers@[h], dt),
                forall|h: int| i <= h < n ==> #[trigger] launchers@[h] == start[h],
            decreases n - i,
        {
            let mut launcher = launchers[i];
            let fire = launcher.can_fire(dt);
            assert(ticked(start[i as int], launcher, dt));
            launchers.set(i, launcher);
            if fire {
                projectiles.push(Some(launch_projectile(launcher)));
            } else {
                projectiles.push(None);
            }
            i += 1;
        }
        projectiles
    }
}

} // verus!
