//! The per-trooper lifecycle state machine.
//!
//! A trooper is created `Falling` when its aircraft's drop condition fires.
//! While falling, a per-tick roll may deploy the parachute: the trooper
//! becomes `Floating`, its descent is braked and never undone within a life
//! (`has_deployed_chute` is set once).  Ground contact while still `Falling`
//! is a crash; ground contact while `Floating` lands the trooper exactly
//! once.  A bullet in the trooper kills it; a bullet in the parachute alone
//! reverts the trooper to `Falling` with a downward kick.  Promotion into an
//! assault role moves a `Landed` trooper to `Assault`.

use vstd::prelude::*;

use crate::assault::AssaultRole;
use crate::config::Config;
use crate::events::PhysicsCommand;

verus! {

/// Where a trooper stands in its life.
#[derive(Clone, Copy, Debug, PartialEq, Eq, Structural)]
pub enum ParatrooperState {
    /// Dropped and falling freely; a crash if the ground comes first.
    Falling,
    /// Descending under a deployed parachute.
    Floating,
    /// Safely on the ground, awaiting assault assignment.
    Landed,
    /// Promoted into a pyramid role of the running assault.
    Assault,
}

/// One dropped trooper.  Position and velocity are owned by the physics
/// collaborator; the record holds only lifecycle state, the optional
/// parachute child and the optional assault role.
#[derive(Clone, Copy, Debug, PartialEq, Eq, Structural)]
pub struct Paratrooper {
    /// Entity identifier, shared with the physics collaborator.
    pub id: u64,
    pub state: ParatrooperState,
    /// Set once when the parachute deploys; never cleared within a life,
    /// even if the parachute is later shot out.
    pub has_deployed_chute: bool,
    /// The parachute child entity, attached exactly while `Floating`.
    pub chute: Option<u64>,
    /// The pyramid role, held exactly while in the `Assault` state.
    pub role: Option<AssaultRole>,
}

/// A parachute child entity, owned by exactly one trooper.
#[derive(Clone, Copy, Debug, PartialEq, Eq, Structural)]
pub struct Parachute {
    /// Entity identifier of the parachute itself.
    pub id: u64,
    /// The trooper it is attached to.
    pub trooper: u64,
}

impl Paratrooper {
    /// Internal consistency of one trooper: the parachute child exists
    /// exactly while `Floating`, a deployed chute is never forgotten, and a
    /// role is held exactly in the `Assault` state.
    pub open spec fn wf(self) -> bool {
        &&& (self.state is Floating <==> self.chute is Some)
        &&& (self.chute is Some ==> self.has_deployed_chute)
        &&& (self.state is Landed ==> self.has_deployed_chute)
        &&& (self.state is Assault ==> self.has_deployed_chute)
        &&& (self.role is Some <==> self.state is Assault)
    }

    /// A freshly dropped trooper: falling, no parachute, no role.
    pub fn fresh(id: u64) -> (t: Paratrooper)
        ensures
            t == (Paratrooper {
                id,
                state: ParatrooperState::Falling,
                has_deployed_chute: false,
                chute: None::<u64>,
                role: None::<AssaultRole>,
            }),
            t.wf(),
    {
        Paratrooper {
            id,
            state: ParatrooperState::Falling,
            has_deployed_chute: false,
            chute: None,
            role: None,
        }
    }
}

/// An aircraft crossing the screen, as the core sees it: the troopers it
/// still carries.  Flight, spawning and despawning of the aircraft itself
/// belong to outside collaborators.
#[derive(Clone, Copy, Debug, PartialEq, Eq, Structural)]
pub struct Aircraft {
    /// Troopers left aboard; each drop takes one.
    pub paratroopers: usize,
}

impl Aircraft {
    /// A full stick of troopers aboard a fresh aircraft.
    pub fn fresh() -> (a: Aircraft)
        ensures
            a.paratroopers == 5,
    {
        Aircraft { paratroopers: 5 }
    }
}

/// Whether an aircraft drops a trooper this tick: it must still carry one,
/// stand inside the spawn band — far enough from the gun and not too far —
/// and win the per-tick roll.
pub open spec fn spec_should_drop(
    aircraft_x: int,
    troopers_aboard: int,
    roll: int,
    cfg: Config,
) -> bool {
    &&& troopers_aboard > 0
    &&& cfg.spawn_x_min < crate::geom::abs(aircraft_x) < cfg.spawn_x_max
    &&& roll < cfg.spawn_prob
}

/// Decides [`spec_should_drop`] for one aircraft and one roll.
pub fn should_drop(aircraft_x: i32, troopers_aboard: usize, roll: u32, cfg: &Config) -> (b: bool)
    requires
        cfg.wf(),
    ensures
        b == spec_should_drop(aircraft_x as int, troopers_aboard as int, roll as int, *cfg),
{
    let pos = crate::geom::abs_i32(aircraft_x);
    troopers_aboard > 0 && (cfg.spawn_x_min as i64) < pos && pos < (cfg.spawn_x_max as i64)
        && roll < cfg.spawn_prob
}

/// Where a dropped trooper appears: offset to the back of the plane by the
/// aircraft's heading, and below it.
pub fn drop_position(aircraft_x: i32, aircraft_y: i32, heading_right: bool, cfg: &Config) -> (p: (
    i32,
    i32,
))
    requires
        cfg.wf(),
        -1_000_000 <= aircraft_x <= 1_000_000,
        -1_000_000 <= aircraft_y <= 1_000_000,
    ensures
        p.0 == if heading_right {
            aircraft_x - cfg.spawn_drop_back
        } else {
            aircraft_x + cfg.spawn_drop_back
        },
        p.1 == aircraft_y - cfg.spawn_drop_down,
{
    let x: i64 = if heading_right {
        (aircraft_x as i64) - (cfg.spawn_drop_back as i64)
    } else {
        (aircraft_x as i64) + (cfg.spawn_drop_back as i64)
    };
    let y: i64 = (aircraft_y as i64) - (cfg.spawn_drop_down as i64);
    (x as i32, y as i32)
}

/// Whether a falling trooper deploys its parachute this tick: it must not
/// have deployed before, still be falling, and win the per-tick roll.
pub open spec fn spec_should_deploy(t: Paratrooper, roll: int, cfg: Config) -> bool {
    &&& !t.has_deployed_chute
    &&& t.state is Falling
    &&& roll < cfg.chute_prob
}

/// Decides [`spec_should_deploy`] for one trooper and one roll.
pub fn should_deploy(t: &Paratrooper, roll: u32, cfg: &Config) -> (b: bool)
    requires
        cfg.wf(),
    ensures
        b == spec_should_deploy(*t, roll as int, *cfg),
{
    !t.has_deployed_chute && t.state == ParatrooperState::Falling && roll < cfg.chute_prob
}

/// The trooper after its parachute deploys.
pub open spec fn deploy_next(t: Paratrooper, chute_id: u64) -> Paratrooper {
    Paratrooper {
        state: ParatrooperState::Floating,
        has_deployed_chute: true,
        chute: Some(chute_id),
        ..t
    }
}

/// Deploys the parachute: attaches the child entity, marks the deployment
/// irreversible, moves the trooper to `Floating`, and asks the physics layer
/// to add the parachute's drag and to brake the descent to the configured
/// minimum.
pub fn deploy_chute(t: &mut Paratrooper, chute_id: u64, cfg: &Config) -> (o: (
    PhysicsCommand,
    PhysicsCommand,
))
    requires
        old(t).wf(),
        old(t).state is Falling,
        !old(t).has_deployed_chute,
        cfg.wf(),
    ensures
        *final(t) == deploy_next(*old(t), chute_id),
        final(t).wf(),
        o.0 == (PhysicsCommand::EnableChuteDrag { id: old(t).id }),
        o.1 == (PhysicsCommand::FloorVelocityY { id: old(t).id, min_vy: cfg.min_chute_velocity }),
{
    t.state = ParatrooperState::Floating;
    t.has_deployed_chute = true;
    t.chute = Some(chute_id);
    (
        PhysicsCommand::EnableChuteDrag { id: t.id },
        PhysicsCommand::FloorVelocityY { id: t.id, min_vy: cfg.min_chute_velocity },
    )
}

/// The trooper after a ground contact: a `Floating` trooper lands and loses
/// its parachute child; every other state is left alone (a `Falling` trooper
/// crashes — the caller despawns it — and a trooper already `Landed` or in
/// the assault is untouched).
pub open spec fn ground_contact_next(t: Paratrooper) -> Paratrooper {
    if t.state is Floating {
        Paratrooper { state: ParatrooperState::Landed, chute: None, ..t }
    } else {
        t
    }
}

/// A ground contact kills a trooper exactly while it is still `Falling`.
pub open spec fn ground_contact_crashes(t: Paratrooper) -> bool {
    t.state is Falling
}

/// A ground contact lands a trooper — and owes one landing event — exactly
/// while it is `Floating`.
pub open spec fn ground_contact_lands(t: Paratrooper) -> bool {
    t.state is Floating
}

/// Outcome of one ground contact of one trooper.
#[derive(Clone, Copy, Debug, PartialEq, Eq, Structural)]
pub struct GroundContactOutcome {
    /// The trooper hit the ground without a parachute: the caller emits a
    /// gib event and despawns the entity.
    pub crashed: bool,
    /// The trooper landed just now: the caller emits one landing event.
    pub landed_now: bool,
    /// The parachute child to despawn, if one was attached.
    pub despawn_chute: Option<u64>,
}

/// Applies one ground contact to one trooper.  Landing is idempotent:
/// repeated contacts after the first landing report nothing and change
/// nothing, and a trooper never re-enters `Falling` here.
pub fn handle_ground_contact(t: &mut Paratrooper) -> (o: GroundContactOutcome)
    requires
        old(t).wf(),
    ensures
        *final(t) == ground_contact_next(*old(t)),
        final(t).wf(),
        o.crashed == ground_contact_crashes(*old(t)),
        o.landed_now == ground_contact_lands(*old(t)),
        o.despawn_chute == old(t).chute,
{
    let crashed = t.state == ParatrooperState::Falling;
    let landed_now = t.state == ParatrooperState::Floating;
    let despawn_chute = t.chute;
    if landed_now {
        t.state = ParatrooperState::Landed;
        t.chute = None;
    }
    GroundContactOutcome { crashed, landed_now, despawn_chute }
}

/// The trooper after its parachute is shot out: back to `Falling` with the
/// parachute child gone; the deployment flag stays set, so no second
/// parachute ever deploys.
pub open spec fn chute_shot_next(t: Paratrooper) -> Paratrooper {
    Paratrooper { state: ParatrooperState::Falling, chute: None, ..t }
}

/// A bullet destroyed the parachute alone: the trooper reverts to
/// `Falling`, the drag is stripped, and the descent is kicked down to one
/// and a half times the parachute's minimum.  The caller despawns the
/// parachute entity.
pub fn handle_chute_shot(t: &mut Paratrooper, cfg: &Config) -> (o: (
    PhysicsCommand,
    PhysicsCommand,
))
    requires
        old(t).wf(),
        old(t).state is Floating,
        cfg.wf(),
    ensures
        *final(t) == chute_shot_next(*old(t)),
        final(t).wf(),
        o.0 == (PhysicsCommand::ClearChuteDrag { id: old(t).id }),
        o.1 matches PhysicsCommand::CapVelocityY { id, max_vy } && id == old(t).id && max_vy
            == cfg.spec_chute_loss_kick(),
{
    t.state = ParatrooperState::Falling;
    t.chute = None;
    let kick = cfg.chute_loss_kick();
    (
        PhysicsCommand::ClearChuteDrag { id: t.id },
        PhysicsCommand::CapVelocityY { id: t.id, max_vy: kick },
    )
}

/// Repeated ground contacts after a landing are no-ops: once `Landed`, a
/// further contact reports no landing and no crash, leaves the trooper
/// `Landed`, and never re-enters `Falling`.
pub proof fn lemma_landing_idempotent(t: Paratrooper)
    requires
        t.wf(),
        t.state is Landed,
    ensures
        ground_contact_next(t) == t,
        !ground_contact_lands(t),
        !ground_contact_crashes(t),
{
}

/// A floating trooper's first ground contact lands it and owes exactly one
/// landing event; any second contact owes none and changes nothing.
pub proof fn lemma_first_landing_once(t: Paratrooper)
    requires
        t.wf(),
        t.state is Floating,
    ensures
        ground_contact_lands(t),
        ground_contact_next(t).state is Landed,
        !ground_contact_lands(ground_contact_next(t)),
        !ground_contact_crashes(ground_contact_next(t)),
        ground_contact_next(ground_contact_next(t)) == ground_contact_next(t),
{
}

} // verus!
