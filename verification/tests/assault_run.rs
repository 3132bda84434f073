use paratrooper::assault::{role_movement, walk_vx, AssaultPhase, AssaultRole};
use paratrooper::config::Config;
use paratrooper::engine::{AppState, Core};
use paratrooper::events::{GunExplosionEvent, PhysicsCommand};
use paratrooper::gun::GunAssembly;
use paratrooper::paratrooper::{Aircraft, ParatrooperState};

fn test_gun() -> GunAssembly {
    GunAssembly {
        base_id: 1,
        mount_id: 2,
        barrel_id: 3,
        barrel_x: 5,
        barrel_y: 118,
        mount_x: 6,
        mount_y: 79,
    }
}

const GROUND: u64 = 4;

/// A core with a formed squad on the left; returns it with the ids of
/// (base, climber, second base, sapper).
fn core_with_squad() -> (Core, [u64; 4]) {
    let mut core = Core::new(Config::standard(), test_gun(), GROUND, 0);
    core.start_round();
    let mut aircraft = Aircraft { paratroopers: 4 };
    let mut ids = [0u64; 4];
    for i in 0..4 {
        let spawn = core.drop_from_aircraft(&mut aircraft, 100, 300, true, 0).unwrap();
        core.deploy_at(i, 0).unwrap();
        core.handle_contact(GROUND, 0, -310, spawn.id, 0, -300);
        ids[i] = spawn.id;
    }
    let xs = vec![-50, -60, -70, -80];
    let pr = core.form_squad(&xs).unwrap();
    assert_eq!((pr.base, pr.climber, pr.second_base, pr.sapper), (0, 1, 2, 3));
    (core, ids)
}

#[test]
fn base_reaching_gun_base_advances_phase() {
    // Base contacts the gun base while the phase is Base: its velocity is
    // zeroed, it becomes static, and the phase becomes Climber.
    let (mut core, ids) = core_with_squad();
    let o = core.handle_contact(ids[0], -33, -290, 1, 0, -310);
    assert_eq!(core.phase, Some(AssaultPhase::Climber));
    assert_eq!(
        o.commands,
        vec![
            PhysicsCommand::SetVelocity { id: ids[0], vx: 0, vy: 0 },
            PhysicsCommand::MakeStatic { id: ids[0] },
        ]
    );
    assert!(o.explosions.is_none());
    // a duplicate contact for the finished transition is a no-op
    let again = core.handle_contact(1, 0, -310, ids[0], -33, -290);
    assert!(again.commands.is_empty());
    assert_eq!(core.phase, Some(AssaultPhase::Climber));
}

#[test]
fn climber_jumps_on_base_then_locks_after_advancing() {
    // Climber contacts Base while the phase is Climber: an upward impulse
    // toward the gun, and no conversion to static.  The same contact once
    // the phase has advanced locks the Climber instead.
    let (mut core, ids) = core_with_squad();
    core.handle_contact(ids[0], -33, -290, 1, 0, -310);
    assert_eq!(core.phase, Some(AssaultPhase::Climber));
    let o = core.handle_contact(ids[1], -40, -290, ids[0], -33, -290);
    // climber stands left of the gun, so the impulse heads right and up
    assert_eq!(o.commands, vec![PhysicsCommand::SetVelocity { id: ids[1], vx: 50, vy: 75 }]);
    // climber reaches the gun structure: phase advances, x-velocity zeroed
    let o2 = core.handle_contact(ids[1], -20, -250, 2, 0, -280);
    assert_eq!(core.phase, Some(AssaultPhase::SecondBase));
    assert_eq!(o2.commands, vec![PhysicsCommand::SetVelocityX { id: ids[1], vx: 0 }]);
    // now the same Climber-on-Base contact locks the climber into a platform
    let o3 = core.handle_contact(ids[1], -30, -270, ids[0], -33, -290);
    assert_eq!(o3.commands, vec![PhysicsCommand::MakeStatic { id: ids[1] }]);
    assert_eq!(core.phase, Some(AssaultPhase::SecondBase));
}

#[test]
fn second_base_locks_and_hands_over_to_sapper() {
    let (mut core, ids) = core_with_squad();
    core.handle_contact(ids[0], -33, -290, 1, 0, -310);
    core.handle_contact(ids[1], -20, -250, 2, 0, -280);
    assert_eq!(core.phase, Some(AssaultPhase::SecondBase));
    let o = core.handle_contact(ids[2], -35, -290, ids[0], -33, -290);
    assert_eq!(core.phase, Some(AssaultPhase::Sapper));
    assert_eq!(o.commands, vec![PhysicsCommand::MakeStatic { id: ids[2] }]);
    // duplicate: nothing happens twice
    let again = core.handle_contact(ids[2], -35, -290, ids[0], -33, -290);
    assert!(again.commands.is_empty());
    assert_eq!(core.phase, Some(AssaultPhase::Sapper));
}

#[test]
fn sapper_jumps_on_its_supports_only_in_final_phase() {
    let (mut core, ids) = core_with_squad();
    // phase is still Base: a sapper touching the second base does nothing
    let early = core.handle_contact(ids[3], -45, -290, ids[2], -40, -290);
    assert!(early.commands.is_empty());
    core.handle_contact(ids[0], -33, -290, 1, 0, -310);
    core.handle_contact(ids[1], -20, -250, 2, 0, -280);
    core.handle_contact(ids[2], -35, -290, ids[0], -33, -290);
    assert_eq!(core.phase, Some(AssaultPhase::Sapper));
    // now the sapper climbs: upward impulse toward the gun
    let o = core.handle_contact(ids[3], -45, -290, ids[2], -40, -290);
    assert_eq!(o.commands, vec![PhysicsCommand::SetVelocity { id: ids[3], vx: 50, vy: 75 }]);
    // and the same against the climber platform
    let o2 = core.handle_contact(ids[1], -30, -260, ids[3], -38, -270);
    assert_eq!(o2.commands, vec![PhysicsCommand::SetVelocity { id: ids[3], vx: 50, vy: 75 }]);
}

#[test]
fn sapper_reaching_the_gun_ends_the_round_exactly_once() {
    // Sapper contacts the gun barrel in the final phase: one explosion per
    // {barrel, mount} position, Game-Over requested, assault torn down —
    // and only once, even under duplicate contact events.
    let (mut core, ids) = core_with_squad();
    core.handle_contact(ids[0], -33, -290, 1, 0, -310);
    core.handle_contact(ids[1], -20, -250, 2, 0, -280);
    core.handle_contact(ids[2], -35, -290, ids[0], -33, -290);
    let o = core.handle_contact(ids[3], -5, 110, 3, 5, 118);
    let (barrel, mount) = o.explosions.expect("the gun detonates");
    assert_eq!(barrel, GunExplosionEvent { x: 5, y: 118 });
    assert_eq!(mount, GunExplosionEvent { x: 6, y: 79 });
    assert_eq!(core.app_state, AppState::GameOver);
    assert!(core.phase.is_none());
    // all four assaulters are despawned, in arena order
    let expected: Vec<PhysicsCommand> =
        ids.iter().map(|&id| PhysicsCommand::Despawn { id }).collect();
    assert_eq!(o.commands, expected);
    assert_eq!(core.troopers.len(), 0);
    // a duplicate contact in the same drain finds the round over: no
    // second Game-Over, no second explosion
    let again = core.handle_contact(ids[3], -5, 110, 3, 5, 118);
    assert!(again.explosions.is_none());
    assert!(again.commands.is_empty());
    assert_eq!(core.app_state, AppState::GameOver);
}

#[test]
fn sapper_outside_final_phase_does_not_destroy_the_gun() {
    let (mut core, ids) = core_with_squad();
    // phase is Base: the sapper bumping the barrel does nothing
    let o = core.handle_contact(ids[3], -5, 110, 3, 5, 118);
    assert!(o.explosions.is_none());
    assert_eq!(core.app_state, AppState::InGame);
}

#[test]
fn bomb_destroys_the_gun_only_during_a_round() {
    let (mut core, _ids) = core_with_squad();
    let o = core.bomb_strikes_gun(2);
    let (barrel, mount) = o.explosions.expect("a bomb on the mount detonates the gun");
    assert_eq!(barrel, GunExplosionEvent { x: 5, y: 118 });
    assert_eq!(mount, GunExplosionEvent { x: 6, y: 79 });
    assert_eq!(core.app_state, AppState::GameOver);
    // a bomb outside a running round is ignored
    let late = core.bomb_strikes_gun(3);
    assert!(late.explosions.is_none());
    // and a bomb that missed the gun assembly is ignored too
    let mut idle = Core::new(Config::standard(), test_gun(), GROUND, 0);
    idle.start_round();
    assert!(idle.bomb_strikes_gun(77).explosions.is_none());
    assert_eq!(idle.app_state, AppState::InGame);
}

#[test]
fn movement_commands_follow_role_and_phase() {
    let cfg = Config::standard();
    // walking heads toward the gun; standing exactly on it heads left
    assert_eq!(walk_vx(-50, 0, 50), 50);
    assert_eq!(walk_vx(80, 0, 50), -50);
    assert_eq!(walk_vx(0, 0, 50), -50);
    // the base walks only while the phase is Base
    assert_eq!(
        role_movement(AssaultRole::Base, AssaultPhase::Base, -50, -290, 0, -260, 11, &cfg),
        Some(PhysicsCommand::SetVelocityX { id: 11, vx: 50 })
    );
    assert_eq!(
        role_movement(AssaultRole::Base, AssaultPhase::Climber, -50, -290, 0, -260, 11, &cfg),
        None
    );
    // the climber walks in its own phase
    assert_eq!(
        role_movement(AssaultRole::Climber, AssaultPhase::Climber, -40, -290, 0, -260, 12, &cfg),
        Some(PhysicsCommand::SetVelocityX { id: 12, vx: 50 })
    );
    // the sapper walks on the ground and air-walks, slower, above its
    // supports
    assert_eq!(
        role_movement(AssaultRole::Sapper, AssaultPhase::Sapper, -45, -290, 0, -260, 13, &cfg),
        Some(PhysicsCommand::SetVelocityX { id: 13, vx: 50 })
    );
    assert_eq!(
        role_movement(AssaultRole::Sapper, AssaultPhase::Sapper, -45, -250, 0, -260, 13, &cfg),
        Some(PhysicsCommand::SetVelocityX { id: 13, vx: 25 })
    );
}

#[test]
fn role_holders_are_found_and_unique() {
    let (core, ids) = core_with_squad();
    assert_eq!(core.role_holder(AssaultRole::Base), Some(ids[0]));
    assert_eq!(core.role_holder(AssaultRole::Climber), Some(ids[1]));
    assert_eq!(core.role_holder(AssaultRole::SecondBase), Some(ids[2]));
    assert_eq!(core.role_holder(AssaultRole::Sapper), Some(ids[3]));
    let mut idle = Core::new(Config::standard(), test_gun(), GROUND, 0);
    idle.start_round();
    assert_eq!(idle.role_holder(AssaultRole::Base), None);
}

#[test]
fn killed_assaulter_stalls_the_phase() {
    // An assaulter destroyed mid-climb is not replaced: the phase keeps its
    // value and waits for a contact that may never come.
    let (mut core, ids) = core_with_squad();
    core.handle_contact(ids[0], -33, -290, 1, 0, -310);
    assert_eq!(core.phase, Some(AssaultPhase::Climber));
    core.handle_bullet_event(&paratrooper::events::BulletCollisionEvent {
        collision_type: paratrooper::events::CollisionType::Paratrooper,
        bullet_entity: 999,
        target_entity: ids[1],
        x: 0,
        y: 0,
    });
    assert_eq!(core.troopers.len(), 3);
    assert_eq!(core.phase, Some(AssaultPhase::Climber));
    assert_eq!(core.role_holder(AssaultRole::Climber), None);
    // ending the round still tears everything down
    core.end_round();
    assert!(core.phase.is_none());
    assert_eq!(core.troopers.len(), 0);
}

#[test]
fn contacts_between_unrelated_entities_do_nothing() {
    let (mut core, ids) = core_with_squad();
    // two troopers without a handled role pairing (base and sapper)
    let o = core.handle_contact(ids[0], -33, -290, ids[3], -45, -290);
    assert!(o.commands.is_empty());
    // a trooper against an unknown entity
    let o2 = core.handle_contact(ids[0], -33, -290, 424242, 0, 0);
    assert!(o2.commands.is_empty());
    assert_eq!(core.phase, Some(AssaultPhase::Base));
}
