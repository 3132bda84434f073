//! The pyramid-climb protocol: roles, the shared assault phase, and the
//! reactions of each role to contact events and to the current phase.
//!
//! One assault runs at a time.  Four promoted troopers hold the four roles;
//! a single shared [`AssaultPhase`] value tracks how far the pyramid has
//! been built, advancing `Base -> Climber -> SecondBase -> Sapper` and never
//! regressing.  Movement systems read the phase; only the contact handlers
//! here write it.  Each side effect of a transition is returned from the
//! handler that performs the transition, so it fires exactly once per
//! advance, not once per tick while the phase holds, and a duplicate contact
//! event for a transition that already happened is a no-op.

use vstd::prelude::*;

use crate::config::Config;
use crate::events::PhysicsCommand;

verus! {

/// The four pyramid roles, each held by at most one trooper of an active
/// assault.
#[derive(Clone, Copy, Debug, PartialEq, Eq, Structural)]
pub enum AssaultRole {
    Base,
    Climber,
    SecondBase,
    Sapper,
}

/// How far the current assault's pyramid has been built.  Exists only while
/// an assault is in progress.
#[derive(Clone, Copy, Debug, PartialEq, Eq, Structural)]
pub enum AssaultPhase {
    Base,
    Climber,
    SecondBase,
    Sapper,
}

/// Position of a phase in the fixed climb order.
pub open spec fn phase_rank(p: AssaultPhase) -> int {
    match p {
        AssaultPhase::Base => 0,
        AssaultPhase::Climber => 1,
        AssaultPhase::SecondBase => 2,
        AssaultPhase::Sapper => 3,
    }
}

/// The transition relation of the phase machine: a handler either leaves the
/// phase alone or advances it by exactly one step.
pub open spec fn phase_steps_to(p: AssaultPhase, q: AssaultPhase) -> bool {
    q == p || phase_rank(q) == phase_rank(p) + 1
}

proof fn lemma_phase_monotonic_pair(trace: Seq<AssaultPhase>, i: int, j: int)
    requires
        forall|k: int| 0 <= k < trace.len() - 1 ==> phase_steps_to(#[trigger] trace[k], trace[k + 1]),
        0 <= i <= j < trace.len(),
    ensures
        phase_rank(trace[i]) <= phase_rank(trace[j]),
    decreases j - i,
{
    if i < j {
        lemma_phase_monotonic_pair(trace, i, j - 1);
        assert(phase_steps_to(trace[j - 1], trace[j]));
    }
}

/// The assault phase, once created, only ever advances in the fixed climb
/// order and never regresses: along any run of the phase machine — any
/// sequence of values in which each next value comes from a handler step —
/// the rank never decreases.
pub proof fn lemma_phase_monotonic(trace: Seq<AssaultPhase>)
    requires
        forall|k: int| 0 <= k < trace.len() - 1 ==> phase_steps_to(#[trigger] trace[k], trace[k + 1]),
    ensures
        forall|i: int, j: int|
            0 <= i <= j < trace.len() ==> phase_rank(trace[i]) <= phase_rank(trace[j]),
{
    assert forall|i: int, j: int|
        0 <= i <= j < trace.len() implies phase_rank(trace[i]) <= phase_rank(
        trace[j],
    ) by {
        lemma_phase_monotonic_pair(trace, i, j);
    }
}

/// Horizontal walking velocity of an assaulter: toward the gun, at the given
/// speed.  A trooper standing exactly at the gun's coordinate heads left,
/// matching the physics convention that the sign of zero is positive.
pub fn walk_vx(x: i32, gun_x: i32, speed: i32) -> (vx: i32)
    requires
        0 <= speed <= 100_000,
    ensures
        vx == if x >= gun_x {
            -speed as int
        } else {
            speed as int
        },
{
    if x >= gun_x {
        -speed
    } else {
        speed
    }
}

/// While the phase equals `role`'s own phase, that role's trooper walks
/// toward the gun; in every other phase it receives no movement command (it
/// is climbing ballistically, or has been converted to a static platform).
/// The sapper alone changes gear: above the top of the supporting troopers
/// (`support_top_y`, the taller of SecondBase and Climber) it air-walks at
/// the reduced speed across the pyramid.
pub fn role_movement(
    role: AssaultRole,
    phase: AssaultPhase,
    x: i32,
    y: i32,
    gun_x: i32,
    support_top_y: i32,
    trooper_id: u64,
    cfg: &Config,
) -> (o: Option<PhysicsCommand>)
    requires
        cfg.wf(),
    ensures
        match role {
            AssaultRole::Base => o == if phase is Base {
                Some(
                    PhysicsCommand::SetVelocityX {
                        id: trooper_id,
                        vx: spec_walk_vx(x as int, gun_x as int, cfg.walk_speed as int) as i32,
                    },
                )
            } else {
                None::<PhysicsCommand>
            },
            AssaultRole::Climber => o == if phase is Climber {
                Some(
                    PhysicsCommand::SetVelocityX {
                        id: trooper_id,
                        vx: spec_walk_vx(x as int, gun_x as int, cfg.walk_speed as int) as i32,
                    },
                )
            } else {
                None::<PhysicsCommand>
            },
            AssaultRole::SecondBase => o == if phase is SecondBase {
                Some(
                    PhysicsCommand::SetVelocityX {
                        id: trooper_id,
                        vx: spec_walk_vx(x as int, gun_x as int, cfg.walk_speed as int) as i32,
                    },
                )
            } else {
                None::<PhysicsCommand>
            },
            AssaultRole::Sapper => o == if phase is Sapper {
                Some(
                    PhysicsCommand::SetVelocityX {
                        id: trooper_id,
                        vx: spec_walk_vx(
                            x as int,
                            gun_x as int,
                            if y > support_top_y {
                                cfg.air_walk_speed as int
                            } else {
                                cfg.walk_speed as int
                            },
                        ) as i32,
                    },
                )
            } else {
                None::<PhysicsCommand>
            },
        },
{
    let moving = match role {
        AssaultRole::Base => phase == AssaultPhase::Base,
        AssaultRole::Climber => phase == AssaultPhase::Climber,
        AssaultRole::SecondBase => phase == AssaultPhase::SecondBase,
        AssaultRole::Sapper => phase == AssaultPhase::Sapper,
    };
    if !moving {
        return None;
    }
    let speed = match role {
        AssaultRole::Sapper => {
            if y > support_top_y {
                cfg.air_walk_speed
            } else {
                cfg.walk_speed
            }
        },
        _ => cfg.walk_speed,
    };
    Some(PhysicsCommand::SetVelocityX { id: trooper_id, vx: walk_vx(x, gun_x, speed) })
}

/// Spec-level mirror of [`walk_vx`].
pub open spec fn spec_walk_vx(x: int, gun_x: int, speed: int) -> int {
    if x >= gun_x {
        -speed
    } else {
        speed
    }
}

/// The Base reached the gun-base structure.  While the phase is still `Base`
/// this stops the Base, turns it into a static platform and advances the
/// phase to `Climber`; a duplicate contact after the advance does nothing.
pub fn on_base_reaches_gun(phase: &mut AssaultPhase, base_id: u64) -> (o: Option<
    (PhysicsCommand, PhysicsCommand),
>)
    ensures
        phase_steps_to(*old(phase), *final(phase)),
        *old(phase) is Base ==> *final(phase) is Climber && o == Some(
            (
                PhysicsCommand::SetVelocity { id: base_id, vx: 0i32, vy: 0i32 },
                PhysicsCommand::MakeStatic { id: base_id },
            ),
        ),
        !(*old(phase) is Base) ==> *final(phase) == *old(phase) && o is None,
{
    match *phase {
        AssaultPhase::Base => {
            *phase = AssaultPhase::Climber;
            Some(
                (
                    PhysicsCommand::SetVelocity { id: base_id, vx: 0, vy: 0 },
                    PhysicsCommand::MakeStatic { id: base_id },
                ),
            )
        },
        _ => None,
    }
}

/// The Climber reached the gun structure.  While the phase is still
/// `Climber` this zeroes its horizontal velocity and advances the phase to
/// `SecondBase`; a duplicate contact after the advance does nothing.
pub fn on_climber_reaches_gun(phase: &mut AssaultPhase, climber_id: u64) -> (o: Option<
    PhysicsCommand,
>)
    ensures
        phase_steps_to(*old(phase), *final(phase)),
        *old(phase) is Climber ==> *final(phase) is SecondBase && o == Some(
            PhysicsCommand::SetVelocityX { id: climber_id, vx: 0i32 },
        ),
        !(*old(phase) is Climber) ==> *final(phase) == *old(phase) && o is None,
{
    match *phase {
        AssaultPhase::Climber => {
            *phase = AssaultPhase::SecondBase;
            Some(PhysicsCommand::SetVelocityX { id: climber_id, vx: 0 })
        },
        _ => None,
    }
}

/// The Climber touched the Base trooper.  While the phase is still `Climber`
/// it receives a jump impulse, upward and horizontally toward the gun, to
/// climb over; once the phase has advanced past `Climber` the same contact
/// instead locks the Climber into a static platform for the ones above.  The
/// phase itself does not change here.
pub fn on_climber_touches_base(
    phase: AssaultPhase,
    climber_id: u64,
    climber_x: i32,
    gun_x: i32,
    cfg: &Config,
) -> (o: Option<PhysicsCommand>)
    requires
        cfg.wf(),
    ensures
        phase is Climber ==> o == Some(
            PhysicsCommand::SetVelocity {
                id: climber_id,
                vx: spec_walk_vx(climber_x as int, gun_x as int, cfg.climb_jump_vx as int) as i32,
                vy: cfg.climb_jump_vy,
            },
        ),
        (phase is SecondBase || phase is Sapper) ==> o == Some(
            PhysicsCommand::MakeStatic { id: climber_id },
        ),
        phase is Base ==> o is None,
{
    match phase {
        AssaultPhase::Climber => Some(
            PhysicsCommand::SetVelocity {
                id: climber_id,
                vx: walk_vx(climber_x, gun_x, cfg.climb_jump_vx),
                vy: cfg.climb_jump_vy,
            },
        ),
        AssaultPhase::SecondBase | AssaultPhase::Sapper => Some(
            PhysicsCommand::MakeStatic { id: climber_id },
        ),
        AssaultPhase::Base => None,
    }
}

/// The SecondBase touched the Base trooper.  While the phase is still
/// `SecondBase` this locks it into a static platform and advances the phase
/// to `Sapper`; a duplicate contact after the advance does nothing.
pub fn on_second_base_touches_base(phase: &mut AssaultPhase, second_base_id: u64) -> (o: Option<
    PhysicsCommand,
>)
    ensures
        phase_steps_to(*old(phase), *final(phase)),
        *old(phase) is SecondBase ==> *final(phase) is Sapper && o == Some(
            PhysicsCommand::MakeStatic { id: second_base_id },
        ),
        !(*old(phase) is SecondBase) ==> *final(phase) == *old(phase) && o is None,
{
    match *phase {
        AssaultPhase::SecondBase => {
            *phase = AssaultPhase::Sapper;
            Some(PhysicsCommand::MakeStatic { id: second_base_id })
        },
        _ => None,
    }
}

/// The Sapper touched the SecondBase or the Climber.  While the phase is
/// `Sapper` it receives a jump impulse, upward and toward the gun, to climb
/// onto the pyramid; in any earlier phase nothing happens.
pub fn on_sapper_touches_support(
    phase: AssaultPhase,
    sapper_id: u64,
    sapper_x: i32,
    gun_x: i32,
    cfg: &Config,
) -> (o: Option<PhysicsCommand>)
    requires
        cfg.wf(),
    ensures
        phase is Sapper ==> o == Some(
            PhysicsCommand::SetVelocity {
                id: sapper_id,
                vx: spec_walk_vx(sapper_x as int, gun_x as int, cfg.climb_jump_vx as int) as i32,
                vy: cfg.climb_jump_vy,
            },
        ),
        !(phase is Sapper) ==> o is None,
{
    match phase {
        AssaultPhase::Sapper => Some(
            PhysicsCommand::SetVelocity {
                id: sapper_id,
                vx: walk_vx(sapper_x, gun_x, cfg.climb_jump_vx),
                vy: cfg.climb_jump_vy,
            },
        ),
        _ => None,
    }
}

} // verus!
