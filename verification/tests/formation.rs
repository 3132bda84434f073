use paratrooper::assault::AssaultPhase;
use paratrooper::assault::AssaultRole;
use paratrooper::config::Config;
use paratrooper::engine::Core;
use paratrooper::events::PhysicsCommand;
use paratrooper::formation::Side;
use paratrooper::gun::GunAssembly;
use paratrooper::paratrooper::{Aircraft, ParatrooperState};

fn test_gun() -> GunAssembly {
    GunAssembly {
        base_id: 1,
        mount_id: 2,
        barrel_id: 3,
        barrel_x: 0,
        barrel_y: 118,
        mount_x: 0,
        mount_y: 79,
    }
}

const GROUND: u64 = 4;

/// A core in a running round with `n` landed troopers; returns their ids.
fn core_with_landed(n: usize) -> (Core, Vec<u64>) {
    let mut core = Core::new(Config::standard(), test_gun(), GROUND, 0);
    core.start_round();
    let mut aircraft = Aircraft { paratroopers: n };
    let mut ids = Vec::new();
    for i in 0..n {
        let spawn = core.drop_from_aircraft(&mut aircraft, 100, 300, true, 0).unwrap();
        core.deploy_at(i, 0).unwrap();
        let o = core.handle_contact(GROUND, 0, -310, spawn.id, 0, -300);
        assert!(o.landing.is_some());
        ids.push(spawn.id);
    }
    (core, ids)
}

#[test]
fn five_landed_left_troopers_promote_the_closest_four() {
    // Five landed troopers at x = -50, -60, -70, -80, -90, gun at 0: the
    // four closest are promoted in distance order, one stays landed.
    let (mut core, ids) = core_with_landed(5);
    let xs = vec![-50, -60, -70, -80, -90];
    let pr = core.form_squad(&xs).expect("a side with five landed troopers reaches the quota");
    assert_eq!(pr.side, Side::Left);
    assert_eq!(pr.base, 0);
    assert_eq!(pr.climber, 1);
    assert_eq!(pr.second_base, 2);
    assert_eq!(pr.sapper, 3);
    assert_eq!(core.troopers[0].role, Some(AssaultRole::Base));
    assert_eq!(core.troopers[1].role, Some(AssaultRole::Climber));
    assert_eq!(core.troopers[2].role, Some(AssaultRole::SecondBase));
    assert_eq!(core.troopers[3].role, Some(AssaultRole::Sapper));
    for k in 0..4 {
        assert_eq!(core.troopers[k].state, ParatrooperState::Assault);
    }
    // the trooper at -90 stays landed, eligible for a future assault
    assert_eq!(core.troopers[4].state, ParatrooperState::Landed);
    assert_eq!(core.troopers[4].role, None);
    assert_eq!(core.phase, Some(AssaultPhase::Base));
    // the four start colliding with one another, in role order
    let expected: Vec<PhysicsCommand> = (0..4)
        .map(|k| PhysicsCommand::EnableAssaultContacts { id: ids[k] })
        .collect();
    assert_eq!(pr.commands, expected);
}

#[test]
fn promotion_orders_by_distance_not_by_arena_order() {
    let (mut core, _ids) = core_with_landed(4);
    // arena order 0..4, but the third trooper stands closest
    let xs = vec![-80, -60, -50, -70];
    let pr = core.form_squad(&xs).unwrap();
    assert_eq!(pr.base, 2);
    assert_eq!(pr.climber, 1);
    assert_eq!(pr.second_base, 3);
    assert_eq!(pr.sapper, 0);
    assert_eq!(core.troopers[2].role, Some(AssaultRole::Base));
    assert_eq!(core.troopers[0].role, Some(AssaultRole::Sapper));
}

#[test]
fn no_promotion_below_quota() {
    // Three landed troopers on one side never form a squad.
    let (mut core, _ids) = core_with_landed(3);
    let xs = vec![-50, -60, -70];
    assert!(core.form_squad(&xs).is_none());
    assert!(core.phase.is_none());
    for t in &core.troopers {
        assert_eq!(t.state, ParatrooperState::Landed);
        assert_eq!(t.role, None);
    }
}

#[test]
fn split_sides_below_quota_never_promote() {
    // Six landed troopers, three per side: neither side has the quota.
    let (mut core, _ids) = core_with_landed(6);
    let xs = vec![-50, 60, -70, 80, -90, 100];
    assert!(core.form_squad(&xs).is_none());
    assert!(core.phase.is_none());
}

#[test]
fn left_side_wins_a_simultaneous_tie() {
    // Both sides reach the quota in the same tick: the left assault starts,
    // the right side's troopers stay landed.
    let (mut core, _ids) = core_with_landed(8);
    let xs = vec![-50, 50, -60, 60, -70, 70, -80, 80];
    let pr = core.form_squad(&xs).unwrap();
    assert_eq!(pr.side, Side::Left);
    for k in [1usize, 3, 5, 7] {
        assert_eq!(core.troopers[k].state, ParatrooperState::Landed);
        assert_eq!(core.troopers[k].role, None);
    }
    for k in [0usize, 2, 4, 6] {
        assert_eq!(core.troopers[k].state, ParatrooperState::Assault);
    }
}

#[test]
fn right_side_promotes_when_left_lacks_quota() {
    let (mut core, _ids) = core_with_landed(5);
    let xs = vec![40, 30, -20, 10, 25];
    let pr = core.form_squad(&xs).unwrap();
    assert_eq!(pr.side, Side::Right);
    // nearest on the right is x = 10, then 25, 30, 40
    assert_eq!(pr.base, 3);
    assert_eq!(pr.climber, 4);
    assert_eq!(pr.second_base, 1);
    assert_eq!(pr.sapper, 0);
    assert_eq!(core.troopers[2].state, ParatrooperState::Landed);
}

#[test]
fn single_assault_at_a_time() {
    // While an assault runs, the other side waits as landed even with the
    // quota reached.
    let (mut core, _ids) = core_with_landed(8);
    let xs = vec![-50, 50, -60, 60, -70, 70, -80, 80];
    assert!(core.form_squad(&xs).is_some());
    assert!(core.form_squad(&xs).is_none());
    assert_eq!(core.phase, Some(AssaultPhase::Base));
    for k in [1usize, 3, 5, 7] {
        assert_eq!(core.troopers[k].state, ParatrooperState::Landed);
    }
}

#[test]
fn falling_and_floating_troopers_are_not_candidates() {
    let mut core = Core::new(Config::standard(), test_gun(), GROUND, 0);
    core.start_round();
    let mut aircraft = Aircraft { paratroopers: 5 };
    // four landed...
    for i in 0..4 {
        let spawn = core.drop_from_aircraft(&mut aircraft, 100, 300, true, 0).unwrap();
        core.deploy_at(i, 0).unwrap();
        if i < 3 {
            core.handle_contact(GROUND, 0, -310, spawn.id, 0, -300);
        }
    }
    // ...but the fourth is still floating, so the quota is not reached
    let xs = vec![-50, -60, -70, -80];
    assert!(core.form_squad(&xs).is_none());
}
