//! The player entity: position and vertical velocity, with the per-tick
//! physics update and the flap impulse.
//!
//! Velocity is held in tenths of a row per physics tick, so that the
//! arithmetic stays exact: gravity adds `GRAVITY_STEP` tenths per tick up to
//! `VELOCITY_CAP` tenths, and a flap resets the velocity to `FLAP_VELOCITY`
//! tenths. Only whole rows move the player: a tick adds `velocity / 10`,
//! truncated toward zero, to the vertical position.

use vstd::prelude::*;

verus! {

/// Tenths of a row per tick added by gravity on each physics tick.
pub const GRAVITY_STEP: i32 = 2;
/// Greatest downward velocity, in tenths of a row per tick.
pub const VELOCITY_CAP: i32 = 20;
/// Velocity set by a flap, in tenths of a row per tick (a strong upward impulse).
pub const FLAP_VELOCITY: i32 = -21;
/// Tenths of a row in one row.
pub const VELOCITY_UNIT: i32 = 10;

pub struct Player {
    /// Horizontal world position; advances by one column per physics tick.
    pub x: i32,
    /// Vertical position, as a grid row; never negative.
    pub y: i32,
    /// Vertical velocity, in tenths of a row per physics tick.
    pub velocity: i32,
}

impl Player {
    /// Every reachable player state keeps the vertical position non-negative
    /// and the velocity between one flap impulse and the gravity cap.
    pub open spec fn wf(self) -> bool {
        &&& 0 <= self.y
        &&& FLAP_VELOCITY <= self.velocity <= VELOCITY_CAP
    }

    /// The velocity that leaves a gravity tick when `v` entered it:
    /// gravity adds `GRAVITY_STEP`, capped at `VELOCITY_CAP`.
    pub open spec fn velocity_after_gravity(v: int) -> int {
        if v + GRAVITY_STEP < VELOCITY_CAP {
            v + GRAVITY_STEP
        } else {
            VELOCITY_CAP as int
        }
    }

    /// Whole rows moved by a velocity of `v` tenths: `v / 10` truncated
    /// toward zero.
    pub open spec fn rows_of_velocity(v: int) -> int {
        if v >= 0 {
            v / (VELOCITY_UNIT as int)
        } else {
            -((-v) / (VELOCITY_UNIT as int))
        }
    }

    /// A row index clamped to the grid: never above the top row.
    pub open spec fn clamp_row(y: int) -> int {
        if y < 0 {
            0
        } else {
            y
        }
    }

    /// The player state one gravity tick after `self`: velocity pulled toward
    /// the cap, position moved by the new velocity's whole rows and clamped,
    /// world column advanced by one.
    pub open spec fn after_gravity(self) -> Player {
        let v = Self::velocity_after_gravity(self.velocity as int);
        Player {
            x: (self.x + 1) as i32,
            y: Self::clamp_row(self.y + Self::rows_of_velocity(v)) as i32,
            velocity: v as i32,
        }
    }

    /// The gravity cap: a velocity at or beyond the cap leaves a gravity
    /// tick at exactly the cap, and any slower velocity leaves it at the
    /// smaller of one gravity step more and the cap.
    pub proof fn lemma_velocity_cap(v: int)
        ensures
            v >= VELOCITY_CAP ==> Self::velocity_after_gravity(v) == VELOCITY_CAP,
            v < VELOCITY_CAP ==> Self::velocity_after_gravity(v) == if v + GRAVITY_STEP
                <= VELOCITY_CAP {
                v + GRAVITY_STEP
            } else {
                VELOCITY_CAP as int
            },
    {
    }

    /// The vertical position is never negative after a physics tick,
    /// whatever the player's state entering it.
    pub proof fn lemma_tick_row_nonneg(p: Player)
        requires
            p.y + GRAVITY_STEP <= i32::MAX,
        ensures
            p.after_gravity().y >= 0,
    {
    }

    pub fn new(x: i32, y: i32) -> (player: Player)
        requires
            0 <= y,
        ensures
            player.x == x,
            player.y == y,
            player.velocity == 0,
            player.wf(),
    {
        Player { x, y, velocity: 0 }
    }

    /// One physics tick: apply gravity to the velocity, move the player by
    /// the whole rows of the new velocity, advance one column, and clamp the
    /// vertical position to the grid.
    pub fn gravity_and_move(&mut self)
        requires
            old(self).wf(),
            old(self).x < i32::MAX,
            old(self).y + GRAVITY_STEP <= i32::MAX,
        ensures
            final(self).velocity == Self::velocity_after_gravity(old(self).velocity as int),
            final(self).x == old(self).x + 1,
            final(self).y == Self::clamp_row(
                old(self).y + Self::rows_of_velocity(final(self).velocity as int),
            ),
            final(self).y >= 0,
            final(self).wf(),
            *final(self) == old(self).after_gravity(),
    {
        if self.velocity + GRAVITY_STEP < VELOCITY_CAP {
            self.velocity = self.velocity + GRAVITY_STEP;
        } else {
            self.velocity = VELOCITY_CAP;
        }
        let step: i32 = if self.velocity >= 0 {
            self.velocity / VELOCITY_UNIT
        } else {
            -((-self.velocity) / VELOCITY_UNIT)
        };
        self.y = self.y + step;
        self.x = self.x + 1;
        if self.y < 0 {
            self.y = 0;
        }
    }

    /// A flap: set the velocity to the fixed upward impulse, whatever it was.
    pub fn flap(&mut self)
        ensures
            final(self).velocity == FLAP_VELOCITY,
            final(self).x == old(self).x,
            final(self).y == old(self).y,
            old(self).wf() ==> final(self).wf(),
    {
        self.velocity = FLAP_VELOCITY;
    }

    /// Where the player is drawn: always the fixed screen column, at the
    /// player's current row.
    pub fn screen_position(&self) -> (pos: (i32, i32))
        ensures
            pos.0 == crate::PLAYER_OFFSET,
            pos.1 == self.y,
    {
        (crate::PLAYER_OFFSET, self.y)
    }
}

} // verus!
