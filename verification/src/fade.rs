//! Fade to black and back: the opacity of the overlay that covers the
//! screen between two levels.
use vstd::prelude::*;
use crate::fixed::{difference, product, sat_add, sat_mul, sat_sub, sum, SCALE};

verus! {

/// The direction of a fade. `Done` is final.
#[derive(Clone, Copy, Debug, PartialEq, Eq, Structural)]
pub enum Fade {
    Darken,
    Lighten,
    Done,
}

/// A fade: its speed in opacity per second, its direction, and the current
/// opacity, from zero (transparent) to one (solid black).
#[derive(Clone, Copy, Debug, PartialEq, Eq, Structural)]
pub struct Fader {
    pub fade_speed: i64,
    pub fade_direction: Fade,
    pub alpha: i64,
}

impl Fader {
    /// The fader after a tick of `time_delta` seconds. Darkening stops at
    /// full opacity and turns into lightening; lightening stops at zero and
    /// ends the fade.
    pub open spec fn after_tick(self, time_delta: i64) -> Fader {
        let change = product(self.fade_speed, time_delta);
        match self.fade_direction {
            Fade::Darken => {
                let alpha = sum(self.alpha, change);
                if alpha >= SCALE {
                    Fader { fade_direction: Fade::Lighten, alpha: SCALE, ..self }
                } else {
                    Fader { alpha, ..self }
                }
            },
            Fade::Lighten => {
                let alpha = difference(self.alpha, change);
                if alpha <= 0 {
                    Fader { fade_direction: Fade::Done, alpha: 0, ..self }
                } else {
                    Fader { alpha, ..self }
                }
            },
            Fade::Done => self,
        }
    }

    /// A fader at the start of the given direction: transparent before
    /// darkening, opaque before lightening.
    pub fn new(fade_speed: i64, fade_direction: Fade) -> (fader: Fader)
        ensures
            fader.fade_speed == fade_speed,
            fader.fade_direction == fade_direction,
            fader.alpha == if fade_direction == Fade::Lighten {
                SCALE
            } else {
                0
            },
    {
        let alpha = match fade_direction {
            Fade::Darken => 0,
            Fade::Lighten => SCALE,
            Fade::Done => 0,
        };
        Fader { fade_speed, fade_direction, alpha }
    }

    /// Whether the fade has run its course.
    pub fn fade_completed(&self) -> (done: bool)
        ensures
            done == (self.fade_direction == Fade::Done),
    {
        self.fade_direction == Fade::Done
    }

    /// Advances the fade by one tick and returns the new opacity.
    pub fn next_alpha_change(&mut self, time_delta: i64) -> (alpha: i64)
        ensures
            *final(self) == old(self).after_tick(time_delta),
            alpha == final(self).alpha,
    {
        let change_amt = sat_mul(self.fade_speed, time_delta);
        match self.fade_direction {
            Fade::Darken => {
                self.alpha = sat_add(self.alpha, change_amt);
            },
            Fade::Lighten => {
                self.alpha = sat_sub(self.alpha, change_amt);
            },
            Fade::Done => {},
        }
        if self.is_darkened() {
            self.alpha = SCALE;
            self.fade_direction = Fade::Lighten;
        } else if self.is_lightened() {
            self.alpha = 0;
            self.fade_direction = Fade::Done;
        }
        self.alpha
    }

    /// Whether a darkening fade covers the screen.
    pub fn is_darkened(&self) -> (dark: bool)
        ensures
            dark == (self.fade_direction == Fade::Darken && self.alpha >= SCALE),
    {
        self.fade_direction == Fade::Darken && self.alpha >= SCALE
    }

    /// Whether a lightening fade has become transparent.
    pub fn is_lightened(&self) -> (light: bool)
        ensures
            light == (self.fade_direction == Fade::Lighten && self.alpha <= 0),
    {
        self.fade_direction == Fade::Lighten && self.alpha <= 0
    }
}

/// Remembers that a fade has completed, until it is cleared.
#[derive(Clone, Copy, Debug, PartialEq, Eq, Structural)]
pub struct FadeStatus {
    pub completed: bool,
}

impl FadeStatus {
    /// Records a completed fade; a running one leaves the status as it is.
    pub fn update(&mut self, fader: Fader)
        ensures
            final(self).completed == (old(self).completed || fader.fade_direction == Fade::Done),
    {
        if fader.fade_completed() {
            self.completed = true;
        }
    }

    /// Whether a completed fade was recorded.
    pub fn is_completed(&self) -> (done: bool)
        ensures
            done == self.completed,
    {
        self.completed
    }

    /// Forgets a completed fade.
    pub fn clear(&mut self)
        ensures
            !final(self).completed,
    {
        self.completed = false;
    }
}

impl Default for FadeStatus {
    fn default() -> (status: FadeStatus)
        ensures
            !status.completed,
    {
        FadeStatus { completed: false }
    }
}

/// The position of a direction in the course of a fade.
pub open spec fn stage(direction: Fade) -> nat {
    match direction {
        Fade::Darken => 0,
        Fade::Lighten => 1,
        Fade::Done => 2,
    }
}

/// A finished fade stays finished: no tick changes it, and none brings it
/// back to darkening.
pub proof fn lemma_done_is_final(fader: Fader, time_delta: i64)
    requires
        fader.fade_direction == Fade::Done,
    ensures
        fader.after_tick(time_delta) == fader,
{
}

/// A tick takes a fade one step further or leaves its direction alone, and
/// never changes its speed.
pub proof fn lemma_tick_advances(fader: Fader, time_delta: i64)
    ensures
        stage(fader.fade_direction) <= stage(fader.after_tick(time_delta).fade_direction) <= stage(
            fader.fade_direction,
        ) + 1,
        fader.after_tick(time_delta).fade_speed == fader.fade_speed,
{
}

/// An opacity between zero and one stays there, whatever the speed and the
/// time step: at most one while darkening, at least zero while lightening,
/// and exactly at the end that was reached on the tick that turns the fade.
pub proof fn lemma_alpha_in_range(fader: Fader, time_delta: i64)
    ensures
        fader.fade_direction == Fade::Darken ==> fader.after_tick(time_delta).alpha <= SCALE,
        fader.fade_direction == Fade::Lighten ==> fader.after_tick(time_delta).alpha >= 0,
        fader.fade_direction == Fade::Darken && fader.after_tick(time_delta).fade_direction
            == Fade::Lighten ==> fader.after_tick(time_delta).alpha == SCALE,
        fader.fade_direction == Fade::Lighten && fader.after_tick(time_delta).fade_direction
            == Fade::Done ==> fader.after_tick(time_delta).alpha == 0,
        0 <= fader.alpha <= SCALE && product(fader.fade_speed, time_delta) >= 0 ==> 0
            <= fader.after_tick(time_delta).alpha <= SCALE,
{
}

impl Fader {
    /// The fader after `n` ticks of `time_delta` seconds each.
    pub open spec fn after_ticks(self, time_delta: i64, n: nat) -> Fader
        decreases n,
    {
        if n == 0 {
            self
        } else {
            self.after_ticks(time_delta, (n - 1) as nat).after_tick(time_delta)
        }
    }

    /// A number of ticks after which a fade that moves at all is done: its
    /// way to full opacity and back, counted in raw units.
    pub open spec fn ticks_at_most(self) -> nat {
        match self.fade_direction {
            Fade::Darken => ((if self.alpha < SCALE {
                SCALE - self.alpha
            } else {
                0
            }) + SCALE + 2) as nat,
            Fade::Lighten => (if self.alpha > 0 {
                self.alpha + 1
            } else {
                1
            }) as nat,
            Fade::Done => 0,
        }
    }
}

/// Every tick of a fade that moves brings it nearer to its end.
proof fn lemma_fade_progress(fader: Fader, time_delta: i64)
    requires
        product(fader.fade_speed, time_delta) > 0,
        fader.fade_direction != Fade::Done,
    ensures
        fader.after_tick(time_delta).ticks_at_most() < fader.ticks_at_most(),
{
}

/// A fade that moves at all comes to its end: whatever its speed and the
/// length of the ticks, as long as a tick changes the opacity by at least one
/// raw unit, the fade is done after `ticks_at_most` ticks, and stays done.
pub proof fn lemma_fade_completes(fader: Fader, time_delta: i64, n: nat)
    requires
        product(fader.fade_speed, time_delta) > 0,
        n >= fader.ticks_at_most(),
    ensures
        fader.after_ticks(time_delta, n).fade_direction == Fade::Done,
    decreases n,
{
    lemma_fade_measure(fader, time_delta, n);
}

/// After `n` ticks a fade that moves has at most `ticks_at_most - n` ticks
/// to go.
proof fn lemma_fade_measure(fader: Fader, time_delta: i64, n: nat)
    requires
        product(fader.fade_speed, time_delta) > 0,
    ensures
        fader.after_ticks(time_delta, n).fade_speed == fader.fade_speed,
        fader.after_ticks(time_delta, n).ticks_at_most() + n <= fader.ticks_at_most()
            || fader.after_ticks(time_delta, n).fade_direction == Fade::Done,
    decreases n,
{
    if n > 0 {
        lemma_fade_measure(fader, time_delta, (n - 1) as nat);
        let before = fader.after_ticks(time_delta, (n - 1) as nat);
        if before.fade_direction != Fade::Done {
            lemma_fade_progress(before, time_delta);
        }
    }
}

} // verus!
