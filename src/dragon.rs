use vstd::prelude::*;
use crate::config::{Config, CONFIG_MAX, VELOCITY_SCALE};

verus! {

/// Rows moved by one physics step at velocity `v` (tenths of a row), the
/// fraction dropped towards zero.
pub open spec fn rows_moved(v: int) -> int {
    if v >= 0 {
        v / (VELOCITY_SCALE as int)
    } else {
        -((-v) / (VELOCITY_SCALE as int))
    }
}

/// The player's glider: a world column, a screen row, and a vertical velocity
/// in tenths of a row per physics step (positive is downwards).
#[derive(Clone, Copy, Debug, PartialEq, Eq)]
pub struct Dragon {
    pub x: i32,
    pub y: i32,
    pub velocity: i32,
}

impl Dragon {
    /// The row is not above the top, and the velocity lies between the flap
    /// floor and the terminal velocity.
    pub open spec fn inv(&self, c: Config) -> bool {
        &&& 0 <= self.y
        &&& -c.flap_floor <= self.velocity <= c.terminal_velocity
    }

    /// Velocity after one step of gravity: one increment, capped at the
    /// terminal velocity.
    pub open spec fn velocity_after_gravity(v: int, c: Config) -> int {
        if v + c.gravity > c.terminal_velocity {
            c.terminal_velocity as int
        } else {
            v + c.gravity
        }
    }

    /// Velocity after a flap: `max(v - impulse, -floor)`.
    pub open spec fn velocity_after_flap(v: int, c: Config) -> int {
        if v - c.flap_impulse < -c.flap_floor {
            -c.flap_floor
        } else {
            v - c.flap_impulse
        }
    }

    /// The dragon after one physics step: gravity, then the move down by the
    /// new velocity (never above row 0), then one column forward.
    pub open spec fn fallen(self, c: Config) -> Dragon {
        let v = Self::velocity_after_gravity(self.velocity as int, c);
        let y = self.y + rows_moved(v);
        Dragon {
            x: (self.x + 1) as i32,
            y: if y < 0 { 0 } else { y as i32 },
            velocity: v as i32,
        }
    }

    /// The dragon after `n` physics steps with no flap in between.
    pub open spec fn fallen_n(self, c: Config, n: nat) -> Dragon
        decreases n,
    {
        if n == 0 {
            self
        } else {
            self.fallen(c).fallen_n(c, (n - 1) as nat)
        }
    }

    /// However many physics steps follow one another without a flap, the
    /// velocity never exceeds the terminal velocity, nor falls below the floor.
    pub proof fn lemma_velocity_capped(self, c: Config, n: nat)
        requires
            c.wf(),
            -c.flap_floor <= self.velocity <= c.terminal_velocity,
        ensures
            -c.flap_floor <= self.fallen_n(c, n).velocity <= c.terminal_velocity,
        decreases n,
    {
        if n > 0 {
            self.fallen(c).lemma_velocity_capped(c, (n - 1) as nat);
        }
    }

    /// A dragon at rest at the given place.
    pub fn new(x: i32, y: i32) -> (d: Dragon)
        ensures
            d == (Dragon { x, y, velocity: 0 }),
    {
        Dragon { x, y, velocity: 0 }
    }

    /// One physics step: velocity grows by the gravity increment up to the
    /// terminal velocity, the row moves by the whole rows of the new velocity
    /// and is kept at 0 or below it on screen, and the column advances by one.
    pub fn apply_gravity_and_move(&mut self, c: &Config)
        requires
            c.wf(),
            old(self).inv(*c),
            old(self).x < i32::MAX,
            old(self).y <= i32::MAX - CONFIG_MAX,
        ensures
            *final(self) == old(self).fallen(*c),
            final(self).velocity <= c.terminal_velocity,
            final(self).x == old(self).x + 1,
            final(self).y >= 0,
            final(self).inv(*c),
    {
        if self.velocity > c.terminal_velocity - c.gravity {
            self.velocity = c.terminal_velocity;
        } else {
            self.velocity = self.velocity + c.gravity;
        }
        let rows: i32 = if self.velocity >= 0 {
            self.velocity / VELOCITY_SCALE
        } else {
            -((-self.velocity) / VELOCITY_SCALE)
        };
        self.y = self.y + rows;
        if self.y < 0 {
            self.y = 0;
        }
        self.x = self.x + 1;
    }

    /// A flap: the velocity drops by the impulse, but not below the floor.
    pub fn flap_wings(&mut self, c: &Config)
        requires
            c.wf(),
        ensures
            final(self).velocity == Self::velocity_after_flap(old(self).velocity as int, *c),
            final(self).velocity >= -c.flap_floor,
            final(self).x == old(self).x,
            final(self).y == old(self).y,
            old(self).inv(*c) ==> final(self).inv(*c),
    {
        if self.velocity < c.flap_impulse - c.flap_floor {
            self.velocity = -c.flap_floor;
        } else {
            self.velocity = self.velocity - c.flap_impulse;
        }
    }
}

} // verus!
