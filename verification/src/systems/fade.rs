//! Drives the faders and records when one of them is done.
use vstd::prelude::*;
use crate::fade::{Fade, FadeStatus, Fader};

verus! {

/// Whether one of the first `upto` faders is done after a tick of `dt`
/// seconds.
pub open spec fn any_done(faders: Seq<Fader>, dt: i64, upto: int) -> bool {
    exists|i: int| 0 <= i < upto && (#[trigger] faders[i]).after_tick(dt).fade_direction == Fade::Done
}

/// The fade system.
#[derive(Clone, Copy, Debug, Default, PartialEq, Eq, Structural)]
pub struct FadeSystem;

impl FadeSystem {
    /// Advances every fader by `dt` seconds and returns the opacity of each
    /// overlay. The status records a fader that is done.
    pub fn run(faders: &mut Vec<Fader>, fade_status: &mut FadeStatus, dt: i64) -> (alphas: Vec<i64>)
        ensures
            final(faders)@.len() == old(faders)@.len(),
            alphas@.len() == old(faders)@.len(),
            forall|i: int|
                0 <= i < old(faders)@.len() ==> #[trigger] final(faders)@[i] == old(
                    faders,
                )@[i].after_tick(dt),
            forall|i: int|
                0 <= i < old(faders)@.len() ==> #[trigger] alphas@[i] == old(faders)@[i].after_tick(
                    dt,
                ).alpha,
            final(fade_status).completed == (old(fade_status).completed || any_done(
                old(faders)@,
                dt,
                old(faders)@.len() as int,
            )),
    {
        let ghost start = faders@;
        let n = faders.len();
        let mut alphas: Vec<i64> = Vec::new();
        let mut i: usize = 0;
        while i < n
            invariant
                n == start.len(),
                faders@.len() == n,
                i <= n,
                alphas@.len() == i,
                forall|h: int| 0 <= h < i ==> #[trigger] faders@[h] == start[h].after_tick(dt),
                forall|h: int| 0 <= h < i ==> #[trigger] alphas@[h] == start[h].after_tick(dt).alpha,
                forall|h: int| i <= h < n ==> #[trigger] faders@[h] == start[h],
                fade_status.completed == (old(fade_status).completed || any_done(
                    start,
                    dt,
                    i as int,
                )),
            decreases n - i,
        {
            let mut fader = faders[i];
            let alpha = fader.next_alpha_change(dt);
            faders.set(i, fader);
            alphas.push(alpha);
            fade_status.update(fader);
            proof {
                let done = start[i as int].after_tick(dt).fade_direction == Fade::Done;
                assert(any_done(start, dt, (i + 1) as int) == (any_done(start, dt, i as int)
                    || done)) by {
                    if any_done(start, dt, (i + 1) as int) {
                        let w = choose|w: int|
                            0 <= w < i + 1 && (#[trigger] start[w]).after_tick(dt).fade_direction
                                == Fade::Done;
                        if w < i {
                            assert(start[w].after_tick(dt).fade_direction == Fade::Done);
                        }
                    }
                    if done {
                        assert(start[i as int].after_tick(dt).fade_direction == Fade::Done);
                    }
                }
            }
            i += 1;
        }
        alphas
    }
}

} // verus!
