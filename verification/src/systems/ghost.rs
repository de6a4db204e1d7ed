//! Shrinks the ghosts of defeated enemies and removes them when they have
//! faded.
use vstd::prelude::*;
use crate::enemy::EnemyGhost;
use crate::fixed::difference;

verus! {

/// A ghost and the scale at which it is drawn.
#[derive(Clone, Copy, Debug, PartialEq, Eq, Structural)]
pub struct GhostBody {
    pub spirit: EnemyGhost,
    pub scale: i64,
}

impl GhostBody {
    /// The ghost after a tick of `dt` seconds. One whose time is up is left
    /// as it is, to be deleted.
    pub open spec fn stepped(self, dt: i64) -> GhostBody {
        if self.spirit.fade_time <= 0 {
            self
        } else {
            GhostBody {
                spirit: EnemyGhost {
                    fade_time: difference(self.spirit.fade_time, dt),
                    ..self.spirit
                },
                scale: self.spirit.scale_after(self.scale, dt),
            }
        }
    }
}

/// The ghost system.
#[derive(Clone, Copy, Debug, Default, PartialEq, Eq, Structural)]
pub struct GhostSystem;

impl GhostSystem {
    /// Advances every ghost by `dt` seconds, and tells for each whether it
    /// is to be deleted: a ghost whose time was up before this tick.
    pub fn run(ghosts: &mut Vec<GhostBody>, dt: i64) -> (faded: Vec<bool>)
        ensures
            final(ghosts)@.len() == old(ghosts)@.len(),
            faded@.len() == old(ghosts)@.len(),
            forall|i: int|
                0 <= i < old(ghosts)@.len() ==> #[trigger] final(ghosts)@[i] == old(
                    ghosts,
                )@[i].stepped(dt),
            forall|i: int|
                0 <= i < old(ghosts)@.len() ==> #[trigger] faded@[i] == (old(
                    ghosts,
                )@[i].spirit.fade_time <= 0),
    {
        let ghost start = ghosts@;
        let n = ghosts.len();
        let mut faded: Vec<bool> = Vec::new();
        let mut i: usize = 0;
        while i < n
            invariant
                n == start.len(),
                ghosts@.len() == n,
                i <= n,
                faded@.len() == i,
                forall|h: int| 0 <= h < i ==> #[trigger] ghosts@[h] == start[h].stepped(dt),
                forall|h: int| 0 <= h < i ==> #[trigger] faded@[h] == (start[h].spirit.fade_time <= 0),
                forall|h: int| i <= h < n ==> #[trigger] ghosts@[h] == start[h],
            decreases n - i,
        {
            let mut body = ghosts[i];
            if body.spirit.is_done_fading() {
                faded.push(true);
            } else {
                let next_scale = body.spirit.next_scale(body.scale, dt);
                body.scale = next_scale;
                ghosts.set(i, body);
                faded.push(false);
            }
            i += 1;
        }
        faded
    }
}

} // verus!
