//! The dragon: vertical physics and horizontal progress.
use vstd::prelude::*;

use crate::draw::{Color, Draw, PLAYER_GLYPH};
use crate::external::glyph_code;

verus! {

/// Speed gained per physics step, in tenths of a row per step.
pub const GRAVITY: i32 = 2;

/// Gravity adds speed only while the velocity is below this (tenths of a row).
pub const VELOCITY_CAP: i32 = 20;

/// The velocity a flap sets (tenths of a row per step; negative is upward).
pub const FLAP_VELOCITY: i32 = -20;

/// Rows moved in one step at velocity `v` (tenths): `v / 10`, truncated toward zero.
pub open spec fn rows_moved(v: int) -> int {
    if v >= 0 {
        v / 10
    } else {
        -((-v) / 10)
    }
}

/// The velocity after gravity has acted once.
pub open spec fn gravity_applied(v: int) -> int {
    if v < VELOCITY_CAP {
        v + GRAVITY
    } else {
        v
    }
}

#[derive(Clone, Copy, Debug, PartialEq, Eq, Structural)]
pub struct Player {
    /// Distance scrolled through the world; one per physics step.
    pub x: i32,
    /// Row on screen; never above the top edge after a step.
    pub y: i32,
    /// Vertical speed in tenths of a row per physics step (positive is down).
    pub velocity: i32,
}

impl Player {
    /// The velocity stays between the flap velocity and the cap, and is a
    /// whole number of gravity increments (it starts at rest or at a flap).
    pub open spec fn wf(&self) -> bool {
        &&& FLAP_VELOCITY <= self.velocity <= VELOCITY_CAP
        &&& self.velocity % GRAVITY == 0
    }

    /// The player after one physics step.
    pub open spec fn advanced(self) -> Player {
        let v = gravity_applied(self.velocity as int);
        let y = self.y + rows_moved(v);
        Player { x: (self.x + 1) as i32, y: (if y < 0 { 0 } else { y }) as i32, velocity: v as i32 }
    }

    /// The player after a flap.
    pub open spec fn flapped(self) -> Player {
        Player { velocity: FLAP_VELOCITY, ..self }
    }

    /// The command that draws the player: a yellow `@` in the leftmost column.
    pub open spec fn drawn(self) -> Draw {
        Draw::Cell { x: 0, y: self.y, fg: Color::Yellow, bg: Color::Black, glyph: PLAYER_GLYPH }
    }

    /// A player at rest at `(x, y)`.
    pub fn new(x: i32, y: i32) -> (r: Player)
        ensures
            r == (Player { x, y, velocity: 0 }),
            r.wf(),
    {
        Player { x, y, velocity: 0 }
    }

    /// The command that draws the player.
    pub fn render(&self) -> (r: Draw)
        ensures
            r == self.drawn(),
    {
        let glyph = glyph_code('@');
        Draw::Cell { x: 0, y: self.y, fg: Color::Yellow, bg: Color::Black, glyph }
    }

    /// One physics step: gravity adds speed while below the cap, the player
    /// moves by the truncated velocity, stops at the top edge, and advances
    /// one column.
    pub fn gravity_and_move(&mut self)
        requires
            old(self).wf(),
            old(self).x < i32::MAX,
            i32::MIN + 2 <= old(self).y <= i32::MAX - 2,
        ensures
            *final(self) == old(self).advanced(),
            final(self).wf(),
            final(self).x == old(self).x + 1,
            final(self).y >= 0,
    {
        if self.velocity < VELOCITY_CAP {
            self.velocity = self.velocity + GRAVITY;
        }
        let rows: i32 = if self.velocity >= 0 {
            self.velocity / 10
        } else {
            -((-self.velocity) / 10)
        };
        self.y = self.y + rows;
        self.x = self.x + 1;
        if self.y < 0 {
            self.y = 0;
        }
    }

    /// A flap: the velocity becomes the fixed upward value.
    pub fn flap(&mut self)
        ensures
            *final(self) == old(self).flapped(),
            final(self).wf(),
    {
        self.velocity = FLAP_VELOCITY;
    }
}

} // verus!

verus! {

/// The player after `n` physics steps.
pub open spec fn advanced_times(p: Player, n: nat) -> Player
    decreases n,
{
    if n == 0 {
        p
    } else {
        advanced_times(p, (n - 1) as nat).advanced()
    }
}

/// Gravity never takes the velocity past the cap: a step from a well-formed
/// player (one at rest, or after a flap, and any number of steps on) keeps
/// the velocity at most the cap, and once at the cap it stays there.
pub proof fn lemma_velocity_capped(p: Player)
    requires
        p.wf(),
    ensures
        p.advanced().velocity <= VELOCITY_CAP,
        p.flapped().velocity <= VELOCITY_CAP,
        p.velocity == VELOCITY_CAP ==> p.advanced().velocity == VELOCITY_CAP,
{
}

/// From a well-formed player, `n` physics steps give the velocity
/// `min(v + 2n, cap)`: it climbs by one increment per step and settles on
/// the cap (starting from a flap, `-2.0` climbs to exactly `2.0`).
pub proof fn lemma_velocity_settles(p: Player, n: nat)
    requires
        p.wf(),
    ensures
        advanced_times(p, n).wf(),
        advanced_times(p, n).velocity == (if p.velocity + GRAVITY * n < VELOCITY_CAP {
            p.velocity + GRAVITY * n
        } else {
            VELOCITY_CAP as int
        }),
    decreases n,
{
    if n > 0 {
        lemma_velocity_settles(p, (n - 1) as nat);
    }
}

} // verus!
