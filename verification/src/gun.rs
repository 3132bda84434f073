//! The gun assembly and its destruction listener.
//!
//! The gun is three fixed bodies — base plate, rotating mount, barrel —
//! owned by the physics collaborator.  The core keeps their entity
//! identifiers and the positions at which the mount and barrel detonate.
//! The first qualifying contact (a sapper in the final phase, or a dropped
//! bomb, against any of the three parts) ends the round: one explosion per
//! {barrel, mount} position, and a single Game-Over transition.  The
//! transition is one-shot: once the round is over, further strikes are
//! ignored.

use vstd::prelude::*;

use crate::engine::AppState;
use crate::events::GunExplosionEvent;

verus! {

/// The three fixed bodies of the player's gun, and where its visible parts
/// detonate.
#[derive(Clone, Copy, Debug, PartialEq, Eq, Structural)]
pub struct GunAssembly {
    /// Entity identifier of the base plate.
    pub base_id: u64,
    /// Entity identifier of the rotating mount.
    pub mount_id: u64,
    /// Entity identifier of the barrel.
    pub barrel_id: u64,
    pub barrel_x: i32,
    pub barrel_y: i32,
    pub mount_x: i32,
    pub mount_y: i32,
}

impl GunAssembly {
    /// The three parts are distinct entities.
    pub open spec fn wf(self) -> bool {
        &&& self.base_id != self.mount_id
        &&& self.base_id != self.barrel_id
        &&& self.mount_id != self.barrel_id
    }

    /// Whether an entity is one of the three gun parts.
    pub open spec fn spec_is_part(self, id: u64) -> bool {
        id == self.base_id || id == self.mount_id || id == self.barrel_id
    }

    /// Decides [`GunAssembly::spec_is_part`].
    pub fn is_part(&self, id: u64) -> (b: bool)
        ensures
            b == self.spec_is_part(id),
    {
        id == self.base_id || id == self.mount_id || id == self.barrel_id
    }

    /// The pair of explosion events a destruction emits: one at the barrel,
    /// one at the mount.
    pub open spec fn spec_explosions(self) -> (GunExplosionEvent, GunExplosionEvent) {
        (
            GunExplosionEvent { x: self.barrel_x, y: self.barrel_y },
            GunExplosionEvent { x: self.mount_x, y: self.mount_y },
        )
    }
}

/// A qualifying strike ends the round exactly while a round is running.
pub open spec fn strike_fires(s: AppState) -> bool {
    s is InGame
}

/// The application state after a qualifying strike on the gun.
pub open spec fn strike_next(s: AppState) -> AppState {
    if strike_fires(s) {
        AppState::GameOver
    } else {
        s
    }
}

/// A game over is requested exactly once: after a strike has fired, a
/// second strike in the same round fires nothing and changes nothing.
pub proof fn lemma_game_over_once(s: AppState)
    ensures
        !strike_fires(strike_next(s)),
        strike_next(strike_next(s)) == strike_next(s),
{
}

} // verus!
