//! Events the core consumes and emits, and the commands it issues.
//!
//! The physics collaborator delivers a contact-start notification per new
//! pair of touching bodies each tick, and the bullet collaborator delivers a
//! [`BulletCollisionEvent`] per bullet strike.  The core answers with
//! fire-and-forget events ([`LandingEvent`], [`GibEvent`],
//! [`GunExplosionEvent`]) for the score, audio and animation listeners, and
//! with a buffer of [`PhysicsCommand`] values that the driver applies to the
//! physics bodies at the end of the tick.

use vstd::prelude::*;

verus! {

/// What a bullet struck, as classified by the bullet collaborator.
#[derive(Clone, Copy, Debug, PartialEq, Eq, Structural)]
pub enum CollisionType {
    Aircraft,
    Paratrooper,
    Parachute,
    Bomb,
}

/// A bullet strike: the kind of target, the two entities involved, and where
/// the target stood when it was hit.
#[derive(Clone, Copy, Debug, PartialEq, Eq, Structural)]
pub struct BulletCollisionEvent {
    pub collision_type: CollisionType,
    pub bullet_entity: u64,
    pub target_entity: u64,
    pub x: i32,
    pub y: i32,
}

/// A paratrooper touched ground safely; consumed by squad formation and by
/// the score listener.
#[derive(Clone, Copy, Debug, PartialEq, Eq, Structural)]
pub struct LandingEvent(pub u64);

/// A trooper died messily at this position; consumed by the animation
/// listener.
#[derive(Clone, Copy, Debug, PartialEq, Eq, Structural)]
pub struct GibEvent {
    pub x: i32,
    pub y: i32,
}

/// A part of the gun assembly detonates at this position.
#[derive(Clone, Copy, Debug, PartialEq, Eq, Structural)]
pub struct GunExplosionEvent {
    pub x: i32,
    pub y: i32,
}

/// A body-property write the core asks the physics collaborator to perform
/// at the end of the tick.
#[derive(Clone, Copy, Debug, PartialEq, Eq, Structural)]
pub enum PhysicsCommand {
    /// Set both velocity components.
    SetVelocity { id: u64, vx: i32, vy: i32 },
    /// Set the horizontal velocity only.
    SetVelocityX { id: u64, vx: i32 },
    /// Lower the vertical velocity to at most `max_vy` (a downward kick):
    /// `vy := min(vy, max_vy)`.
    CapVelocityY { id: u64, max_vy: i32 },
    /// Raise the vertical velocity to at least `min_vy` (a parachute brake):
    /// `vy := max(vy, min_vy)`.
    FloorVelocityY { id: u64, min_vy: i32 },
    /// Convert the body to a static one, so that others can climb on it.
    MakeStatic { id: u64 },
    /// Add the parachute's air resistance and reduced gravity to the body.
    EnableChuteDrag { id: u64 },
    /// Remove that air resistance and gravity reduction again.
    ClearChuteDrag { id: u64 },
    /// Let the body collide with other troopers, needed once promoted
    /// assaulters must climb on one another.
    EnableAssaultContacts { id: u64 },
    /// Remove the body and everything attached to it.
    Despawn { id: u64 },
}

/// The vertical velocity after [`PhysicsCommand::CapVelocityY`] is applied:
/// the lower (more downward) of the current velocity and the cap.
pub fn capped_velocity_y(vy: i32, max_vy: i32) -> (r: i32)
    ensures
        r == if vy <= max_vy { vy as int } else { max_vy as int },
        r <= max_vy,
{
    if vy <= max_vy {
        vy
    } else {
        max_vy
    }
}

/// The vertical velocity after [`PhysicsCommand::FloorVelocityY`] is applied:
/// the higher (less downward) of the current velocity and the floor.
pub fn floored_velocity_y(vy: i32, min_vy: i32) -> (r: i32)
    ensures
        r == if vy >= min_vy { vy as int } else { min_vy as int },
        r >= min_vy,
{
    if vy >= min_vy {
        vy
    } else {
        min_vy
    }
}

} // verus!
