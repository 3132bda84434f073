use paratrooper::config::Config;
use paratrooper::engine::{AppState, Core};
use paratrooper::events::{
    capped_velocity_y, floored_velocity_y, BulletCollisionEvent, CollisionType, PhysicsCommand,
};
use paratrooper::gun::GunAssembly;
use paratrooper::paratrooper::{Aircraft, Paratrooper, ParatrooperState};

fn test_gun() -> GunAssembly {
    GunAssembly {
        base_id: 1,
        mount_id: 2,
        barrel_id: 3,
        barrel_x: 0,
        barrel_y: 118,
        mount_x: 0,
        mount_y: 79,
    }
}

const GROUND: u64 = 4;

fn fresh_core() -> Core {
    let mut core = Core::new(Config::standard(), test_gun(), GROUND, 0);
    core.start_round();
    core
}

/// Drops one trooper deterministically and returns its id.
fn spawn_one(core: &mut Core, aircraft: &mut Aircraft) -> u64 {
    let spawn = core
        .drop_from_aircraft(aircraft, 100, 300, true, 0)
        .expect("inside the band with a winning roll, a trooper must drop");
    spawn.id
}

#[test]
fn standard_config_values() {
    let c = Config::standard();
    assert_eq!(c.assault_quota, 4);
    assert_eq!(c.walk_speed, 50);
    assert_eq!(c.air_walk_speed, 25);
    assert_eq!(c.climb_jump_vx, 50);
    assert_eq!(c.climb_jump_vy, 75);
    assert_eq!(c.spawn_prob, 7);
    assert_eq!(c.chute_prob, 10);
    assert_eq!(c.prob_denom, 1000);
    assert_eq!(c.spawn_x_min, 50);
    assert_eq!(c.spawn_x_max, 400);
    assert_eq!(c.min_chute_velocity, -70);
    assert_eq!(c.chute_loss_kick(), -105);
}

#[test]
fn spawn_inside_band_with_winning_roll() {
    let mut core = fresh_core();
    let mut aircraft = Aircraft::fresh();
    assert_eq!(aircraft.paratroopers, 5);
    let spawn = core.drop_from_aircraft(&mut aircraft, 100, 300, true, 0).unwrap();
    // offset behind the rightward-heading plane, and below it
    assert_eq!(spawn.x, 100 - 35);
    assert_eq!(spawn.y, 300 - 25);
    assert_eq!(spawn.velocity_y, -100);
    assert_eq!(aircraft.paratroopers, 4);
    assert_eq!(core.troopers.len(), 1);
    assert_eq!(core.troopers[0].state, ParatrooperState::Falling);
    assert!(!core.troopers[0].has_deployed_chute);
}

#[test]
fn spawn_offset_flips_with_heading() {
    let mut core = fresh_core();
    let mut aircraft = Aircraft::fresh();
    let spawn = core.drop_from_aircraft(&mut aircraft, -100, 300, false, 0).unwrap();
    assert_eq!(spawn.x, -100 + 35);
    assert_eq!(spawn.y, 275);
}

#[test]
fn no_spawn_outside_band_or_losing_roll_or_empty() {
    let mut core = fresh_core();
    let mut aircraft = Aircraft::fresh();
    // too close to the gun
    assert!(core.drop_from_aircraft(&mut aircraft, 50, 300, true, 0).is_none());
    // too far from the gun
    assert!(core.drop_from_aircraft(&mut aircraft, 400, 300, true, 0).is_none());
    // losing roll (spawn probability is 7 out of 1000)
    assert!(core.drop_from_aircraft(&mut aircraft, 100, 300, true, 7).is_none());
    // nothing aboard
    let mut empty = Aircraft { paratroopers: 0 };
    assert!(core.drop_from_aircraft(&mut empty, 100, 300, true, 0).is_none());
    assert_eq!(core.troopers.len(), 0);
    assert_eq!(aircraft.paratroopers, 5);
}

#[test]
fn rolled_drop_fires_when_probability_is_one() {
    // With the numerator equal to the denominator every roll wins, so the
    // rolled entry point must drop; this fails if the roll ever comes back
    // at or above the denominator.
    let mut config = Config::standard();
    config.spawn_prob = config.prob_denom;
    let mut core = Core::new(config, test_gun(), GROUND, 0);
    core.start_round();
    let mut aircraft = Aircraft::fresh();
    assert!(core.tick_drop(&mut aircraft, 100, 300, true).is_some());
    assert_eq!(aircraft.paratroopers, 4);
}

#[test]
fn parachute_deploys_and_brakes_descent() {
    let mut core = fresh_core();
    let mut aircraft = Aircraft::fresh();
    let tid = spawn_one(&mut core, &mut aircraft);
    let (chute, cmds) = core.deploy_at(0, 0).expect("a falling trooper with a winning roll deploys");
    assert_eq!(chute.trooper, tid);
    assert_eq!(core.troopers[0].state, ParatrooperState::Floating);
    assert!(core.troopers[0].has_deployed_chute);
    assert_eq!(core.troopers[0].chute, Some(chute.id));
    assert_eq!(cmds.0, PhysicsCommand::EnableChuteDrag { id: tid });
    assert_eq!(cmds.1, PhysicsCommand::FloorVelocityY { id: tid, min_vy: -70 });
    // the brake raises a faster fall to the minimum and leaves a slower one
    assert_eq!(floored_velocity_y(-200, -70), -70);
    assert_eq!(floored_velocity_y(-30, -70), -30);
}

#[test]
fn parachute_deploys_only_once_and_only_while_falling() {
    let mut core = fresh_core();
    let mut aircraft = Aircraft::fresh();
    let tid = spawn_one(&mut core, &mut aircraft);
    // losing roll: no deployment (deploy probability is 10 out of 1000)
    assert!(core.deploy_at(0, 10).is_none());
    core.deploy_at(0, 0).unwrap();
    // already floating: no second parachute
    assert!(core.deploy_at(0, 0).is_none());
    // shot out: has_deployed_chute stays set, so still no second parachute
    let chute_id = core.troopers[0].chute.unwrap();
    core.handle_bullet_event(&BulletCollisionEvent {
        collision_type: CollisionType::Parachute,
        bullet_entity: 999,
        target_entity: chute_id,
        x: 0,
        y: 0,
    });
    assert_eq!(core.troopers[0].state, ParatrooperState::Falling);
    assert!(core.deploy_at(0, 0).is_none());
    assert_eq!(core.troopers[0].id, tid);
}

#[test]
fn crash_landing_without_parachute() {
    let mut core = fresh_core();
    let mut aircraft = Aircraft::fresh();
    let tid = spawn_one(&mut core, &mut aircraft);
    let o = core.handle_contact(GROUND, 0, -310, tid, 77, -300);
    assert!(o.landing.is_none());
    let gib = o.gib.expect("a falling trooper crashes into gibs");
    assert_eq!((gib.x, gib.y), (77, -300));
    assert_eq!(o.commands, vec![PhysicsCommand::Despawn { id: tid }]);
    assert_eq!(core.troopers.len(), 0);
}

#[test]
fn landing_is_idempotent() {
    // Repeated ground contacts after the first landing produce exactly one
    // landing event and never re-enter the falling state.
    let mut core = fresh_core();
    let mut aircraft = Aircraft::fresh();
    let tid = spawn_one(&mut core, &mut aircraft);
    let (chute, _) = core.deploy_at(0, 0).unwrap();
    let first = core.handle_contact(tid, 77, -300, GROUND, 0, -310);
    assert_eq!(first.landing.map(|l| l.0), Some(tid));
    assert!(first.gib.is_none());
    assert_eq!(first.commands, vec![PhysicsCommand::Despawn { id: chute.id }]);
    assert_eq!(core.troopers[0].state, ParatrooperState::Landed);
    assert_eq!(core.troopers[0].chute, None);
    // duplicate contact-start events from the physics layer are no-ops
    for _ in 0..3 {
        let again = core.handle_contact(GROUND, 0, -310, tid, 77, -300);
        assert!(again.landing.is_none());
        assert!(again.gib.is_none());
        assert!(again.commands.is_empty());
        assert_eq!(core.troopers[0].state, ParatrooperState::Landed);
    }
}

#[test]
fn bullet_kills_trooper() {
    let mut core = fresh_core();
    let mut aircraft = Aircraft::fresh();
    let tid = spawn_one(&mut core, &mut aircraft);
    let o = core.handle_bullet_event(&BulletCollisionEvent {
        collision_type: CollisionType::Paratrooper,
        bullet_entity: 999,
        target_entity: tid,
        x: 12,
        y: 34,
    });
    let gib = o.gib.expect("a shot trooper dies");
    assert_eq!((gib.x, gib.y), (12, 34));
    assert_eq!(o.commands, vec![PhysicsCommand::Despawn { id: tid }]);
    assert_eq!(core.troopers.len(), 0);
}

#[test]
fn parachute_shot_reverts_trooper_with_downward_kick() {
    // A bullet in the parachute alone: the trooper reverts to falling, the
    // parachute entity is destroyed, and the descent is kicked to one and a
    // half times the floating minimum (more negative).
    let mut core = fresh_core();
    let mut aircraft = Aircraft::fresh();
    let tid = spawn_one(&mut core, &mut aircraft);
    let (chute, _) = core.deploy_at(0, 0).unwrap();
    let o = core.handle_bullet_event(&BulletCollisionEvent {
        collision_type: CollisionType::Parachute,
        bullet_entity: 999,
        target_entity: chute.id,
        x: 0,
        y: 0,
    });
    assert!(o.gib.is_none());
    assert_eq!(o.commands.len(), 3);
    assert_eq!(o.commands[0], PhysicsCommand::Despawn { id: chute.id });
    assert_eq!(o.commands[1], PhysicsCommand::ClearChuteDrag { id: tid });
    assert_eq!(o.commands[2], PhysicsCommand::CapVelocityY { id: tid, max_vy: -105 });
    assert_eq!(core.troopers[0].state, ParatrooperState::Falling);
    assert_eq!(core.troopers[0].chute, None);
    assert!(core.troopers[0].has_deployed_chute);
    // applying the kick: a floating descent of -70 becomes -105, and an
    // already faster fall keeps its speed
    assert_eq!(capped_velocity_y(-70, -105), -105);
    assert_eq!(capped_velocity_y(-200, -105), -200);
}

#[test]
fn bullet_events_for_other_targets_change_nothing() {
    let mut core = fresh_core();
    let mut aircraft = Aircraft::fresh();
    let tid = spawn_one(&mut core, &mut aircraft);
    for kind in [CollisionType::Aircraft, CollisionType::Bomb] {
        let o = core.handle_bullet_event(&BulletCollisionEvent {
            collision_type: kind,
            bullet_entity: 999,
            target_entity: tid,
            x: 0,
            y: 0,
        });
        assert!(o.gib.is_none());
        assert!(o.commands.is_empty());
    }
    assert_eq!(core.troopers.len(), 1);
}

#[test]
fn pause_and_resume_keep_the_world() {
    let mut core = fresh_core();
    let mut aircraft = Aircraft::fresh();
    spawn_one(&mut core, &mut aircraft);
    core.pause();
    assert_eq!(core.app_state, AppState::Paused);
    core.resume();
    assert_eq!(core.app_state, AppState::InGame);
    assert_eq!(core.troopers.len(), 1);
}

#[test]
fn end_round_despawns_everyone() {
    let mut core = fresh_core();
    let mut aircraft = Aircraft::fresh();
    let t1 = spawn_one(&mut core, &mut aircraft);
    let t2 = spawn_one(&mut core, &mut aircraft);
    let despawns = core.end_round();
    assert_eq!(
        despawns,
        vec![PhysicsCommand::Despawn { id: t1 }, PhysicsCommand::Despawn { id: t2 }]
    );
    assert_eq!(core.app_state, AppState::MainMenu);
    assert_eq!(core.troopers.len(), 0);
    assert!(core.phase.is_none());
}

#[test]
fn fresh_paratrooper_record() {
    let t = Paratrooper::fresh(42);
    assert_eq!(t.id, 42);
    assert_eq!(t.state, ParatrooperState::Falling);
    assert!(!t.has_deployed_chute);
    assert_eq!(t.chute, None);
    assert_eq!(t.role, None);
}
