//! Tunable constants of the coordination core.
//!
//! Every rule of the core that depends on a magnitude — the assault quota,
//! walk speeds, jump impulses, spawn probabilities, the spawn band — reads it
//! from a [`Config`] value rather than from a hard literal, so that tests can
//! exercise the rules under chosen numbers.
//!
//! Positions and velocities are whole screen units.  Probabilities are
//! rationals `numerator / prob_denom`: a per-tick roll draws a number below
//! `prob_denom` and the event fires when the roll is below the numerator.

use vstd::prelude::*;

verus! {

/// Tunable constants of the core, with well-formedness bounds that keep all
/// of the core's arithmetic inside machine integer ranges.
#[derive(Clone, Copy, Debug)]
pub struct Config {
    /// Landed troopers a side must hold before an assault starts (at least 4,
    /// one per pyramid role).
    pub assault_quota: usize,
    /// Horizontal speed of an assaulter walking toward the gun.
    pub walk_speed: i32,
    /// Reduced horizontal speed of the sapper while it air-walks across the
    /// top of the pyramid.
    pub air_walk_speed: i32,
    /// Horizontal part of the jump impulse applied when a climbing trooper
    /// mounts the one below it.
    pub climb_jump_vx: i32,
    /// Upward part of that jump impulse.
    pub climb_jump_vy: i32,
    /// Per-tick probability numerator for an aircraft dropping a trooper.
    pub spawn_prob: u32,
    /// Per-tick probability numerator for a falling trooper deploying its
    /// parachute.
    pub chute_prob: u32,
    /// Common probability denominator.
    pub prob_denom: u32,
    /// Drops happen only while the aircraft is at least this far from the gun.
    pub spawn_x_min: i32,
    /// ... and at most this far.
    pub spawn_x_max: i32,
    /// Horizontal offset of a dropped trooper behind the aircraft.
    pub spawn_drop_back: i32,
    /// Vertical offset of a dropped trooper below the aircraft.
    pub spawn_drop_down: i32,
    /// Initial downward velocity of a dropped trooper (negative: downward).
    pub spawn_velocity_y: i32,
    /// Slowest descent a deployed parachute allows (negative: downward).  A
    /// parachute shot out kicks the trooper down to one and a half times this.
    pub min_chute_velocity: i32,
}

impl Config {
    /// Bounds that every function of the core assumes of its configuration.
    /// The magnitude caps exist so that offsets, impulses and the parachute
    /// kick can be computed in machine integers without overflow.
    pub open spec fn wf(self) -> bool {
        &&& 4 <= self.assault_quota <= 100_000
        &&& 0 <= self.walk_speed <= 100_000
        &&& 0 <= self.air_walk_speed <= 100_000
        &&& 0 <= self.climb_jump_vx <= 100_000
        &&& 0 <= self.climb_jump_vy <= 100_000
        &&& 0 < self.prob_denom <= 1_000_000_000
        &&& self.spawn_prob <= self.prob_denom
        &&& self.chute_prob <= self.prob_denom
        &&& 0 <= self.spawn_x_min <= self.spawn_x_max <= 1_000_000
        &&& 0 <= self.spawn_drop_back <= 100_000
        &&& 0 <= self.spawn_drop_down <= 100_000
        &&& -100_000 <= self.spawn_velocity_y <= 0
        &&& -100_000 <= self.min_chute_velocity <= 0
    }

    /// The constants the game ships with.
    pub fn standard() -> (c: Config)
        ensures
            c.wf(),
            c.assault_quota == 4,
            c.walk_speed == 50,
            c.air_walk_speed == 25,
            c.climb_jump_vx == 50,
            c.climb_jump_vy == 75,
            c.spawn_prob == 7,
            c.chute_prob == 10,
            c.prob_denom == 1000,
            c.spawn_x_min == 50,
            c.spawn_x_max == 400,
            c.spawn_drop_back == 35,
            c.spawn_drop_down == 25,
            c.spawn_velocity_y == -100,
            c.min_chute_velocity == -70,
    {
        Config {
            assault_quota: 4,
            walk_speed: 50,
            air_walk_speed: 25,
            climb_jump_vx: 50,
            climb_jump_vy: 75,
            spawn_prob: 7,
            chute_prob: 10,
            prob_denom: 1000,
            spawn_x_min: 50,
            spawn_x_max: 400,
            spawn_drop_back: 35,
            spawn_drop_down: 25,
            spawn_velocity_y: -100,
            min_chute_velocity: -70,
        }
    }

    /// The downward kick a trooper receives when its parachute is shot out:
    /// one and a half times the slowest parachute descent.  Stated over the
    /// non-negative magnitude so that `/` carries no sign subtleties.
    pub open spec fn spec_chute_loss_kick(self) -> int {
        -(3 * -self.min_chute_velocity / 2)
    }

    /// Computes [`Config::spec_chute_loss_kick`] in machine arithmetic.
    pub fn chute_loss_kick(&self) -> (k: i32)
        requires
            self.wf(),
        ensures
            k == self.spec_chute_loss_kick(),
            k <= self.min_chute_velocity <= 0,
    {
        let mag: i64 = -(self.min_chute_velocity as i64);
        let wide: i64 = -(3 * mag / 2);
        wide as i32
    }
}

} // verus!
