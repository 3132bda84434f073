//! The coordination core: one value holding everything the ground-assault
//! engine owns, and the tick entry points the driver calls.
//!
//! The core owns the trooper arena, the single shared assault phase, the
//! application state and the entity identifiers of its two singleton
//! collaborators (gun assembly and ground).  Entity identifiers for
//! troopers and parachutes are allocated here, from a counter kept above
//! every identifier handed out or reserved so far, so fresh entities never
//! collide with existing ones.
//!
//! All state mutations commit immediately: a landing is visible to squad
//! formation the same tick, a phase advance is visible to the movement
//! systems on the next call.  The driver drains the physics collaborator's
//! contact events into [`Core::handle_contact`], bullet strikes into
//! [`Core::handle_bullet_event`], runs the spawn, deployment, formation and
//! movement ticks, and applies the returned commands at the end of the
//! tick.

use vstd::prelude::*;

use crate::assault::AssaultPhase;
use crate::assault::AssaultRole;
use crate::config::Config;
use crate::events::BulletCollisionEvent;
use crate::events::CollisionType;
use crate::events::GibEvent;
use crate::events::GunExplosionEvent;
use crate::events::LandingEvent;
use crate::events::PhysicsCommand;
use crate::formation::candidate_count;
use crate::formation::is_candidate;
use crate::formation::promote_squad;
use crate::formation::promoted;
use crate::formation::role_of_rank;
use crate::formation::select_squad;
use crate::formation::Side;
use crate::geom::dist;
use crate::gun::GunAssembly;
use crate::paratrooper::chute_shot_next;
use crate::paratrooper::deploy_next;
use crate::paratrooper::drop_position;
use crate::paratrooper::handle_chute_shot;
use crate::paratrooper::should_deploy;
use crate::paratrooper::should_drop;
use crate::paratrooper::spec_should_deploy;
use crate::paratrooper::spec_should_drop;
use crate::paratrooper::Aircraft;
use crate::paratrooper::Parachute;
use crate::paratrooper::Paratrooper;

verus! {

/// The overall application state.  The core requests its transitions; menu
/// and input plumbing act on them.
#[derive(Clone, Copy, Debug, PartialEq, Eq, Structural)]
pub enum AppState {
    MainMenu,
    InGame,
    GameOver,
    Paused,
}

/// All state the ground-assault engine owns.
pub struct Core {
    /// Tunable constants; fixed for the life of the value.
    pub config: Config,
    /// The gun assembly singleton, given at construction.
    pub gun: GunAssembly,
    /// The ground singleton, given at construction.
    pub ground_id: u64,
    /// The gun's horizontal coordinate; troopers are partitioned and sorted
    /// by their distance from it.
    pub gun_x: i32,
    /// The application state.
    pub app_state: AppState,
    /// The shared phase of the running assault; `None` while no assault is
    /// in progress.
    pub phase: Option<AssaultPhase>,
    /// Every live trooper.
    pub troopers: Vec<Paratrooper>,
    /// Next entity identifier to hand out; above every identifier in use.
    pub next_id: u64,
}

impl Core {
    /// Identifier hygiene: troopers and parachutes are pairwise distinct,
    /// distinct from the singletons, and all below the allocation counter.
    pub open spec fn ids_wf(self) -> bool {
        &&& self.gun.wf()
        &&& !self.gun.spec_is_part(self.ground_id)
        &&& self.gun.base_id < self.next_id
        &&& self.gun.mount_id < self.next_id
        &&& self.gun.barrel_id < self.next_id
        &&& self.ground_id < self.next_id
        &&& forall|i: int|
            0 <= i < self.troopers@.len() ==> (#[trigger] self.troopers@[i]).id < self.next_id
                && !self.gun.spec_is_part(self.troopers@[i].id) && self.troopers@[i].id
                != self.ground_id
        &&& forall|i: int|
            0 <= i < self.troopers@.len() && (#[trigger] self.troopers@[i]).chute is Some ==> {
                let c = self.troopers@[i].chute->0;
                &&& c < self.next_id
                &&& !self.gun.spec_is_part(c)
                &&& c != self.ground_id
                &&& forall|j: int|
                    0 <= j < self.troopers@.len() ==> c != (#[trigger] self.troopers@[j]).id
            }
        &&& forall|i: int, j: int|
            0 <= i < self.troopers@.len() && 0 <= j < self.troopers@.len() && i != j ==> (
            #[trigger] self.troopers@[i]).id != (#[trigger] self.troopers@[j]).id
        &&& forall|i: int, j: int|
            0 <= i < self.troopers@.len() && 0 <= j < self.troopers@.len() && i != j && (
            #[trigger] self.troopers@[i]).chute is Some && (#[trigger] self.troopers@[j]).chute
                is Some ==> self.troopers@[i].chute->0 != self.troopers@[j].chute->0
    }

    /// Role and phase hygiene: roles exist only under a live phase, a live
    /// phase only during play, and each role is held at most once.
    pub open spec fn roles_wf(self) -> bool {
        &&& (self.phase is None ==> forall|i: int|
            0 <= i < self.troopers@.len() ==> (#[trigger] self.troopers@[i]).role is None)
        &&& (self.phase is Some ==> self.app_state is InGame || self.app_state is Paused)
        &&& forall|i: int, j: int|
            0 <= i < self.troopers@.len() && 0 <= j < self.troopers@.len() && i != j && (
            #[trigger] self.troopers@[i]).role is Some && (#[trigger] self.troopers@[j]).role
                is Some ==> self.troopers@[i].role->0 != self.troopers@[j].role->0
    }

    /// The invariant every public operation of the core preserves.
    pub open spec fn wf(self) -> bool {
        &&& self.config.wf()
        &&& self.ids_wf()
        &&& self.roles_wf()
        &&& forall|i: int| 0 <= i < self.troopers@.len() ==> (#[trigger] self.troopers@[i]).wf()
    }

    /// Whether some live trooper carries this identifier.
    pub open spec fn spec_has_id(self, id: u64) -> bool {
        exists|i: int| 0 <= i < self.troopers@.len() && (#[trigger] self.troopers@[i]).id == id
    }

    /// The index of the trooper carrying this identifier (unique under
    /// [`Core::ids_wf`]).
    pub open spec fn spec_index_of(self, id: u64) -> int {
        choose|i: int| 0 <= i < self.troopers@.len() && (#[trigger] self.troopers@[i]).id == id
    }

    /// Whether some live trooper's parachute carries this identifier.
    pub open spec fn spec_has_chute(self, id: u64) -> bool {
        exists|i: int|
            0 <= i < self.troopers@.len() && (#[trigger] self.troopers@[i]).chute == Some(id)
    }

    /// The index of the trooper whose parachute carries this identifier.
    pub open spec fn spec_chute_index_of(self, id: u64) -> int {
        choose|i: int|
            0 <= i < self.troopers@.len() && (#[trigger] self.troopers@[i]).chute == Some(id)
    }

    /// The gun and the ground are fatal startup preconditions: the core is
    /// only ever built around both singletons, with distinct identifiers.
    /// The fresh core idles in the main menu with no troopers and no
    /// assault.
    pub fn new(config: Config, gun: GunAssembly, ground_id: u64, gun_x: i32) -> (c: Core)
        requires
            config.wf(),
            gun.wf(),
            !gun.spec_is_part(ground_id),
            gun.base_id < u64::MAX,
            gun.mount_id < u64::MAX,
            gun.barrel_id < u64::MAX,
            ground_id < u64::MAX,
        ensures
            c.wf(),
            c.config == config,
            c.gun == gun,
            c.ground_id == ground_id,
            c.gun_x == gun_x,
            c.app_state is MainMenu,
            c.phase is None,
            c.troopers@.len() == 0,
            c.next_id == spec_first_free_id(gun, ground_id),
    {
        let mut top = gun.base_id;
        if gun.mount_id > top {
            top = gun.mount_id;
        }
        if gun.barrel_id > top {
            top = gun.barrel_id;
        }
        if ground_id > top {
            top = ground_id;
        }
        Core {
            config,
            gun,
            ground_id,
            gun_x,
            app_state: AppState::MainMenu,
            phase: None,
            troopers: Vec::new(),
            next_id: top + 1,
        }
    }

    /// Starts a round from the menu: play begins with an empty sky.
    pub fn start_round(&mut self)
        requires
            old(self).wf(),
            old(self).app_state is MainMenu,
        ensures
            final(self).wf(),
            *final(self) == (Core { app_state: AppState::InGame, ..*old(self) }),
    {
        self.app_state = AppState::InGame;
    }

    /// Pauses play; the physics collaborator stops delivering events while
    /// paused, so the core merely remembers the state.
    pub fn pause(&mut self)
        requires
            old(self).wf(),
            old(self).app_state is InGame,
        ensures
            final(self).wf(),
            *final(self) == (Core { app_state: AppState::Paused, ..*old(self) }),
    {
        self.app_state = AppState::Paused;
    }

    /// Resumes paused play.
    pub fn resume(&mut self)
        requires
            old(self).wf(),
            old(self).app_state is Paused,
        ensures
            final(self).wf(),
            *final(self) == (Core { app_state: AppState::InGame, ..*old(self) }),
    {
        self.app_state = AppState::InGame;
    }

    /// Everything of the core but the mutable game state: configuration and
    /// singleton identifiers never change after construction.
    pub open spec fn same_statics(pre: Core, post: Core) -> bool {
        &&& post.config == pre.config
        &&& post.gun == pre.gun
        &&& post.ground_id == pre.ground_id
        &&& post.gun_x == pre.gun_x
    }

    /// Removing one trooper keeps the core well-formed.
    proof fn lemma_wf_after_remove(pre: Core, post: Core, k: int)
        requires
            pre.wf(),
            0 <= k < pre.troopers@.len(),
            post.troopers@ == pre.troopers@.remove(k),
            Core::same_statics(pre, post),
            post.next_id == pre.next_id,
            post.phase == pre.phase,
            post.app_state == pre.app_state,
        ensures
            post.wf(),
    {
        pre.troopers@.remove_ensures(k);
        assert forall|i: int| 0 <= i < post.troopers@.len() implies #[trigger] post.troopers@[i]
            == pre.troopers@[if i < k {
            i
        } else {
            i + 1
        }] by {}
    }

    /// Replacing one trooper by a version with the same identifier, the
    /// same role, and the same or no parachute keeps the core well-formed.
    proof fn lemma_wf_after_update(pre: Core, post: Core, k: int, t: Paratrooper)
        requires
            pre.wf(),
            0 <= k < pre.troopers@.len(),
            t.wf(),
            t.id == pre.troopers@[k].id,
            t.chute == pre.troopers@[k].chute || t.chute is None,
            t.role == pre.troopers@[k].role,
            post.troopers@ == pre.troopers@.update(k, t),
            Core::same_statics(pre, post),
            post.next_id == pre.next_id,
            post.phase == pre.phase,
            post.app_state == pre.app_state,
        ensures
            post.wf(),
    {
    }

    /// Looks a trooper up by entity identifier.
    pub fn find_index(&self, id: u64) -> (r: Option<usize>)
        requires
            self.wf(),
        ensures
            r is Some <==> self.spec_has_id(id),
            r matches Some(i) ==> i < self.troopers@.len() && self.troopers@[i as int].id == id
                && i == self.spec_index_of(id),
    {
        let mut i: usize = 0;
        while i < self.troopers.len()
            invariant
                self.wf(),
                i <= self.troopers@.len(),
                forall|j: int| 0 <= j < i ==> (#[trigger] self.troopers@[j]).id != id,
            decreases self.troopers@.len() - i,
        {
            if self.troopers[i].id == id {
                proof {
                    let w = self.spec_index_of(id);
                    assert(0 <= w < self.troopers@.len() && self.troopers@[w].id == id);
                    assert(w == i as int);
                }
                return Some(i);
            }
            i += 1;
        }
        None
    }

    /// Looks a trooper up by the identifier of its parachute.
    pub fn find_chute_owner(&self, chute_id: u64) -> (r: Option<usize>)
        requires
            self.wf(),
        ensures
            r is Some <==> self.spec_has_chute(chute_id),
            r matches Some(i) ==> i < self.troopers@.len() && self.troopers@[i as int].chute
                == Some(chute_id) && i == self.spec_chute_index_of(chute_id),
    {
        let mut i: usize = 0;
        while i < self.troopers.len()
            invariant
                self.wf(),
                i <= self.troopers@.len(),
                forall|j: int| 0 <= j < i ==> (#[trigger] self.troopers@[j]).chute != Some(
                    chute_id,
                ),
            decreases self.troopers@.len() - i,
        {
            let c = self.troopers[i].chute;
            let hit = match c {
                Some(cid) => cid == chute_id,
                None => false,
            };
            if hit {
                proof {
                    let w = self.spec_chute_index_of(chute_id);
                    assert(0 <= w < self.troopers@.len() && self.troopers@[w].chute == Some(
                        chute_id,
                    ));
                    assert(w == i as int);
                }
                return Some(i);
            }
            i += 1;
        }
        None
    }

    /// Drops one trooper for one aircraft this tick, given the per-tick
    /// roll: the aircraft must still carry one, stand inside the spawn
    /// band, and the roll must come in under the spawn probability.  On a
    /// drop, a fresh `Falling` trooper enters the arena, offset behind and
    /// below the aircraft, and the spawn request to hand to the physics
    /// collaborator is returned; otherwise nothing changes.
    pub fn drop_from_aircraft(
        &mut self,
        aircraft: &mut Aircraft,
        aircraft_x: i32,
        aircraft_y: i32,
        heading_right: bool,
        roll: u32,
    ) -> (r: Option<TrooperSpawn>)
        requires
            old(self).wf(),
            old(self).app_state is InGame,
            old(self).next_id < u64::MAX,
            -1_000_000 <= aircraft_x <= 1_000_000,
            -1_000_000 <= aircraft_y <= 1_000_000,
        ensures
            final(self).wf(),
            Core::same_statics(*old(self), *final(self)),
            final(self).app_state == old(self).app_state,
            final(self).phase == old(self).phase,
            if spec_should_drop(
                aircraft_x as int,
                old(aircraft).paratroopers as int,
                roll as int,
                old(self).config,
            ) {
                &&& final(aircraft).paratroopers == old(aircraft).paratroopers - 1
                &&&
 r matches Some(s) && s.id == old(self).next_id && s.x == (if heading_right {
                    aircraft_x - old(self).config.spawn_drop_back
                } else {
                    aircraft_x + old(self).config.spawn_drop_back
                }) && s.y == aircraft_y - old(self).config.spawn_drop_down && s.velocity_y == old(
                    self,
                ).config.spawn_velocity_y && final(self).troopers@ == old(self).troopers@.push(
                    Paratrooper {
                        id: s.id,
                        state: crate::paratrooper::ParatrooperState::Falling,
                        has_deployed_chute: false,
                        chute: None::<u64>,
                        role: None::<AssaultRole>,
                    },
                ) && final(self).next_id == old(self).next_id + 1
            } else {
                r is None && *final(self) == *old(self) && *final(aircraft) == *old(aircraft)
            },
    {
        let dropping = should_drop(aircraft_x, aircraft.paratroopers, roll, &self.config);
        if !dropping {
            return None;
        }
        aircraft.paratroopers = aircraft.paratroopers - 1;
        let p = drop_position(aircraft_x, aircraft_y, heading_right, &self.config);
        let id = self.next_id;
        let t = Paratrooper::fresh(id);
        let ghost pre = *self;
        self.troopers.push(t);
        self.next_id = id + 1;
        proof {
            assert forall|i: int|
                0 <= i < self.troopers@.len() implies #[trigger] self.troopers@[i] == (if i
                < pre.troopers@.len() {
                pre.troopers@[i]
            } else {
                t
            }) by {}
        }
        Some(TrooperSpawn { id, x: p.0, y: p.1, velocity_y: self.config.spawn_velocity_y })
    }

    /// Rolls this tick's drop chance itself and applies
    /// [`Core::drop_from_aircraft`].  The roll is random, so no drop is
    /// promised; but a drop happens only inside the spawn band while the
    /// aircraft still carries a trooper, and every drop has exactly the
    /// spawn effects.
    pub fn tick_drop(
        &mut self,
        aircraft: &mut Aircraft,
        aircraft_x: i32,
        aircraft_y: i32,
        heading_right: bool,
    ) -> (r: Option<TrooperSpawn>)
        requires
            old(self).wf(),
            old(self).app_state is InGame,
            old(self).next_id < u64::MAX,
            -1_000_000 <= aircraft_x <= 1_000_000,
            -1_000_000 <= aircraft_y <= 1_000_000,
        ensures
            final(self).wf(),
            Core::same_statics(*old(self), *final(self)),
            final(self).app_state == old(self).app_state,
            final(self).phase == old(self).phase,
            r is None ==> *final(self) == *old(self) && *final(aircraft) == *old(aircraft),
            r matches Some(s) ==> {
                &&& old(aircraft).paratroopers > 0
                &&& final(aircraft).paratroopers == old(aircraft).paratroopers - 1
                &&& old(self).config.spawn_x_min < crate::geom::abs(aircraft_x as int) < old(
                    self,
                ).config.spawn_x_max
                &&& s.id == old(self).next_id
                &&& s.x == (if heading_right {
                    aircraft_x - old(self).config.spawn_drop_back
                } else {
                    aircraft_x + old(self).config.spawn_drop_back
                })
                &&& s.y == aircraft_y - old(self).config.spawn_drop_down
                &&& s.velocity_y == old(self).config.spawn_velocity_y
                &&& final(self).troopers@ == old(self).troopers@.push(
                    Paratrooper {
                        id: s.id,
                        state: crate::paratrooper::ParatrooperState::Falling,
                        has_deployed_chute: false,
                        chute: None::<u64>,
                        role: None::<AssaultRole>,
                    },
                )
                &&& final(self).next_id == old(self).next_id + 1
            },
    {
        let roll = crate::rng::roll_below(self.config.prob_denom);
        self.drop_from_aircraft(aircraft, aircraft_x, aircraft_y, heading_right, roll)
    }

    /// Deploys the parachute of the trooper at index `i` this tick, given
    /// the per-tick roll: the trooper must still be `Falling`, never have
    /// deployed, and the roll must come in under the deployment
    /// probability.  On a deployment the fresh parachute child and the two
    /// physics writes (drag on, descent braked) are returned; otherwise
    /// nothing changes.
    pub fn deploy_at(&mut self, i: usize, roll: u32) -> (r: Option<
        (Parachute, (PhysicsCommand, PhysicsCommand)),
    >)
        requires
            old(self).wf(),
            old(self).app_state is InGame,
            old(self).next_id < u64::MAX,
            i < old(self).troopers@.len(),
        ensures
            final(self).wf(),
            Core::same_statics(*old(self), *final(self)),
            final(self).app_state == old(self).app_state,
            final(self).phase == old(self).phase,
            if spec_should_deploy(old(self).troopers@[i as int], roll as int, old(self).config) {
                r matches Some((p, cmds)) && p.id == old(self).next_id && p.trooper == old(
                    self,
                ).troopers@[i as int].id && final(self).troopers@ == old(self).troopers@.update(
                    i as int,
                    deploy_next(old(self).troopers@[i as int], p.id),
                ) && final(self).next_id == old(self).next_id + 1 && cmds.0 == (
                PhysicsCommand::EnableChuteDrag { id: p.trooper }) && cmds.1 == (
                PhysicsCommand::FloorVelocityY {
                    id: p.trooper,
                    min_vy: old(self).config.min_chute_velocity,
                })
            } else {
                r is None && *final(self) == *old(self)
            },
    {
        let roll_ok = {
            let t = &self.troopers[i];
            should_deploy(t, roll, &self.config)
        };
        if !roll_ok {
            return None;
        }
        let chute_id = self.next_id;
        let ghost pre = *self;
        let trooper_id = self.troopers[i].id;
        let mut t = self.troopers[i];
        let cmds = crate::paratrooper::deploy_chute(&mut t, chute_id, &self.config);
        self.troopers[i] = t;
        self.next_id = chute_id + 1;
        proof {
            let post = *self;
            assert(post.troopers@ == pre.troopers@.update(i as int, t));
            assert forall|j: int|
                0 <= j < post.troopers@.len() implies #[trigger] post.troopers@[j] == (if j
                == i as int {
                t
            } else {
                pre.troopers@[j]
            }) by {}
        }
        Some((Parachute { id: chute_id, trooper: trooper_id }, cmds))
    }

    /// Rolls this tick's deployment chance itself and applies
    /// [`Core::deploy_at`].  The roll is random, so no deployment is
    /// promised; but one happens only for a `Falling` trooper that never
    /// deployed before, and every deployment has exactly the deployment
    /// effects.
    pub fn tick_deploy(&mut self, i: usize) -> (r: Option<
        (Parachute, (PhysicsCommand, PhysicsCommand)),
    >)
        requires
            old(self).wf(),
            old(self).app_state is InGame,
            old(self).next_id < u64::MAX,
            i < old(self).troopers@.len(),
        ensures
            final(self).wf(),
            Core::same_statics(*old(self), *final(self)),
            final(self).app_state == old(self).app_state,
            final(self).phase == old(self).phase,
            r is None ==> *final(self) == *old(self),
            r matches Some((p, cmds)) ==> {
                &&& !old(self).troopers@[i as int].has_deployed_chute
                &&& old(self).troopers@[i as int].state is Falling
                &&& p.id == old(self).next_id
                &&& p.trooper == old(self).troopers@[i as int].id
                &&& final(self).troopers@ == old(self).troopers@.update(
                    i as int,
                    deploy_next(old(self).troopers@[i as int], p.id),
                )
                &&& final(self).next_id == old(self).next_id + 1
                &&& cmds.0 == (PhysicsCommand::EnableChuteDrag { id: p.trooper })
                &&& cmds.1 == (PhysicsCommand::FloorVelocityY {
                    id: p.trooper,
                    min_vy: old(self).config.min_chute_velocity,
                })
            },
    {
        let roll = crate::rng::roll_below(self.config.prob_denom);
        self.deploy_at(i, roll)
    }

    /// Applies one bullet strike from the bullet collaborator.  A bullet in
    /// a trooper kills it: one gib event where it stood, and the entity
    /// (with any parachute child) is despawned.  A bullet in a parachute
    /// alone reverts its owner to `Falling`: the parachute is despawned,
    /// the drag stripped and the descent kicked down.  Strikes on aircraft
    /// or bombs belong to other listeners and change nothing here.
    pub fn handle_bullet_event(&mut self, ev: &BulletCollisionEvent) -> (o: BulletOutcome)
        requires
            old(self).wf(),
        ensures
            final(self).wf(),
            Core::same_statics(*old(self), *final(self)),
            final(self).app_state == old(self).app_state,
            final(self).phase == old(self).phase,
            final(self).next_id == old(self).next_id,
            ({
                let pre = *old(self);
                if !(pre.app_state is InGame) {
                    *final(self) == pre && o.gib is None && o.commands@.len() == 0
                } else if ev.collision_type is Paratrooper && pre.spec_has_id(ev.target_entity) {
                    let k = pre.spec_index_of(ev.target_entity);
                    &&& final(self).troopers@ == pre.troopers@.remove(k)
                    &&& o.gib == Some(GibEvent { x: ev.x, y: ev.y })
                    &&& o.commands@ == seq![
                        (PhysicsCommand::Despawn { id: ev.target_entity }),
                    ]
                } else if ev.collision_type is Parachute && pre.spec_has_chute(ev.target_entity) {
                    let k = pre.spec_chute_index_of(ev.target_entity);
                    let t = pre.troopers@[k];
                    &&& final(self).troopers@ == pre.troopers@.update(k, chute_shot_next(t))
                    &&& o.gib is None
                    &&& o.commands@.len() == 3
                    &&& o.commands@[0] == (PhysicsCommand::Despawn { id: ev.target_entity })
                    &&& o.commands@[1] == (PhysicsCommand::ClearChuteDrag { id: t.id })
                    &&& o.commands@[2] matches PhysicsCommand::CapVelocityY { id, max_vy } && id
                        == t.id && max_vy == pre.config.spec_chute_loss_kick()
                } else {
                    &&& *final(self) == pre
                    &&& o.gib is None
                    &&& o.commands@.len() == 0
                }
            }),
    {
        let mut commands: Vec<PhysicsCommand> = Vec::new();
        if !(self.app_state == AppState::InGame) {
            return BulletOutcome { gib: None, commands };
        }
        match ev.collision_type {
            CollisionType::Paratrooper => {
                match self.find_index(ev.target_entity) {
                    Some(k) => {
                        let ghost pre = *self;
                        self.troopers.remove(k);
                        proof {
                            Core::lemma_wf_after_remove(pre, *self, k as int);
                        }
                        commands.push(PhysicsCommand::Despawn { id: ev.target_entity });
                        BulletOutcome { gib: Some(GibEvent { x: ev.x, y: ev.y }), commands }
                    },
                    None => BulletOutcome { gib: None, commands },
                }
            },
            CollisionType::Parachute => {
                match self.find_chute_owner(ev.target_entity) {
                    Some(k) => {
                        let ghost pre = *self;
                        let mut t = self.troopers[k];
                        let cmds = handle_chute_shot(&mut t, &self.config);
                        self.troopers[k] = t;
                        proof {
                            Core::lemma_wf_after_update(pre, *self, k as int, t);
                        }
                        commands.push(PhysicsCommand::Despawn { id: ev.target_entity });
                        commands.push(cmds.0);
                        commands.push(cmds.1);
                        BulletOutcome { gib: None, commands }
                    },
                    None => BulletOutcome { gib: None, commands },
                }
            },
            _ => BulletOutcome { gib: None, commands },
        }
    }
}

impl Core {
    /// Whether some live trooper holds this assault role.
    pub open spec fn has_role(self, r: AssaultRole) -> bool {
        exists|i: int|
            0 <= i < self.troopers@.len() && (#[trigger] self.troopers@[i]).role == Some(r)
    }

    /// The index of the (unique, under [`Core::roles_wf`]) holder of a role.
    pub open spec fn role_index(self, r: AssaultRole) -> int {
        choose|i: int|
            0 <= i < self.troopers@.len() && (#[trigger] self.troopers@[i]).role == Some(r)
    }

    /// The entity identifier of the holder of a role.
    pub open spec fn role_id(self, r: AssaultRole) -> u64 {
        self.troopers@[self.role_index(r)].id
    }

    /// Looks up the trooper holding a role, unique at any instant.
    pub fn role_holder(&self, r: AssaultRole) -> (res: Option<u64>)
        requires
            self.wf(),
        ensures
            res is Some <==> self.has_role(r),
            res matches Some(id) ==> id == self.role_id(r) && self.spec_has_id(id)
                && self.troopers@[self.spec_index_of(id)].role == Some(r),
    {
        let mut i: usize = 0;
        while i < self.troopers.len()
            invariant
                self.wf(),
                i <= self.troopers@.len(),
                forall|j: int| 0 <= j < i ==> (#[trigger] self.troopers@[j]).role != Some(r),
            decreases self.troopers@.len() - i,
        {
            let hit = match self.troopers[i].role {
                Some(held) => held == r,
                None => false,
            };
            if hit {
                proof {
                    let w = self.role_index(r);
                    assert(0 <= w < self.troopers@.len() && self.troopers@[w].role == Some(r));
                    assert(w == i as int);
                    let t = self.troopers@[i as int];
                    assert(self.troopers@[i as int].id == t.id);
                    let k = self.spec_index_of(t.id);
                    assert(0 <= k < self.troopers@.len() && self.troopers@[k].id == t.id);
                    assert(k == i as int);
                }
                return Some(self.troopers[i].id);
            }
            i += 1;
        }
        None
    }

    /// Removes every trooper of the running assault and drops the shared
    /// phase: the synchronous cancellation that leaving the ground assault
    /// demands.  No orphaned role survives into the next round.
    fn clear_assault(&mut self) -> (despawns: Vec<PhysicsCommand>)
        requires
            old(self).wf(),
        ensures
            final(self).wf(),
            Core::same_statics(*old(self), *final(self)),
            final(self).next_id == old(self).next_id,
            final(self).app_state == old(self).app_state,
            final(self).phase is None,
            final(self).troopers@ == roleless_of(old(self).troopers@),
            despawns@ == despawn_roled(old(self).troopers@),
    {
        let ghost pre = *self;
        let mut kept: Vec<Paratrooper> = Vec::new();
        let mut despawns: Vec<PhysicsCommand> = Vec::new();
        let ghost mut srcs: Seq<int> = Seq::empty();
        let mut i: usize = 0;
        while i < self.troopers.len()
            invariant
                *self == pre,
                pre.wf(),
                i <= pre.troopers@.len(),
                kept@ == roleless_of(pre.troopers@.subrange(0, i as int)),
                despawns@ == despawn_roled(pre.troopers@.subrange(0, i as int)),
                srcs.len() == kept@.len(),
                forall|p: int| 0 <= p < kept@.len() ==> (#[trigger] kept@[p]).role is None,
                forall|p: int| 0 <= p < srcs.len() ==> 0 <= #[trigger] srcs[p] < i,
                forall|p: int, q: int| 0 <= p < q < srcs.len() ==> srcs[p] < srcs[q],
                forall|p: int|
                    0 <= p < srcs.len() ==> #[trigger] kept@[p] == pre.troopers@[srcs[p]],
            decreases pre.troopers@.len() - i,
        {
            let t = self.troopers[i];
            proof {
                assert(pre.troopers@.subrange(0, i + 1).drop_last() =~= pre.troopers@.subrange(
                    0,
                    i as int,
                ));
                assert(pre.troopers@.subrange(0, i + 1).last() == pre.troopers@[i as int]);
            }
            if t.role.is_none() {
                kept.push(t);
                proof {
                    srcs = srcs.push(i as int);
                }
            } else {
                despawns.push(PhysicsCommand::Despawn { id: t.id });
            }
            i += 1;
        }
        proof {
            assert(pre.troopers@.subrange(0, pre.troopers@.len() as int) =~= pre.troopers@);
        }
        self.troopers = kept;
        self.phase = None;
        proof {
            Core::lemma_wf_after_subselect(pre, *self, srcs);
        }
        despawns
    }

    /// Keeping a strictly increasing selection of the troopers, with no
    /// roles left and no phase, keeps the core well-formed.
    proof fn lemma_wf_after_subselect(pre: Core, post: Core, srcs: Seq<int>)
        requires
            pre.wf(),
            post.troopers@.len() == srcs.len(),
            forall|p: int| 0 <= p < srcs.len() ==> 0 <= #[trigger] srcs[p] < pre.troopers@.len(),
            forall|p: int, q: int| 0 <= p < q < srcs.len() ==> srcs[p] < srcs[q],
            forall|p: int| 0 <= p < srcs.len() ==> #[trigger] post.troopers@[p]
                == pre.troopers@[srcs[p]],
            forall|p: int|
                0 <= p < post.troopers@.len() ==> (#[trigger] post.troopers@[p]).role is None,
            Core::same_statics(pre, post),
            post.next_id == pre.next_id,
            post.phase is None,
        ensures
            post.wf(),
    {
        assert forall|p: int, q: int|
            0 <= p < srcs.len() && 0 <= q < srcs.len() && p != q implies srcs[p] != srcs[q] by {
            if p < q {
                assert(srcs[p] < srcs[q]);
            } else {
                assert(srcs[q] < srcs[p]);
            }
        }
    }

    /// The gun assembly was destroyed while a round ran: both the barrel
    /// and the mount detonate, the round ends in Game-Over, and the assault
    /// — if one was running — is torn down synchronously.
    fn destroy_gun(&mut self) -> (o: ContactOutcome)
        requires
            old(self).wf(),
            old(self).app_state is InGame,
        ensures
            final(self).wf(),
            Core::same_statics(*old(self), *final(self)),
            final(self).next_id == old(self).next_id,
            Core::rel_gun_destroyed(*old(self), *final(self), o),
    {
        let despawns = self.clear_assault();
        self.app_state = AppState::GameOver;
        ContactOutcome {
            landing: None,
            gib: None,
            explosions: Some(
                (
                    GunExplosionEvent { x: self.gun.barrel_x, y: self.gun.barrel_y },
                    GunExplosionEvent { x: self.gun.mount_x, y: self.gun.mount_y },
                ),
            ),
            commands: despawns,
        }
    }

    /// What holds after a qualifying destruction of the gun.
    pub open spec fn rel_gun_destroyed(pre: Core, post: Core, o: ContactOutcome) -> bool {
        &&& post.app_state is GameOver
        &&& post.phase is None
        &&& post.troopers@ == roleless_of(pre.troopers@)
        &&& o.explosions == Some(pre.gun.spec_explosions())
        &&& o.landing is None
        &&& o.gib is None
        &&& o.commands@ == despawn_roled(pre.troopers@)
    }

    /// A dropped bomb struck something: if it hit any part of the gun
    /// assembly while a round ran, the gun is destroyed — once; at any
    /// other time, or against anything else, nothing happens.
    pub fn bomb_strikes_gun(&mut self, target: u64) -> (o: ContactOutcome)
        requires
            old(self).wf(),
        ensures
            final(self).wf(),
            Core::same_statics(*old(self), *final(self)),
            final(self).next_id == old(self).next_id,
            if old(self).gun.spec_is_part(target) && crate::gun::strike_fires(
                old(self).app_state,
            ) {
                Core::rel_gun_destroyed(*old(self), *final(self), o)
            } else {
                *final(self) == *old(self) && Core::quiet(o)
            },
    {
        let in_game = self.app_state == AppState::InGame;
        if in_game && self.gun.is_part(target) {
            self.destroy_gun()
        } else {
            ContactOutcome { landing: None, gib: None, explosions: None, commands: Vec::new() }
        }
    }

    /// Ends the round from any state: back to the menu, every trooper
    /// despawned, and no assault state surviving.
    pub fn end_round(&mut self) -> (despawns: Vec<PhysicsCommand>)
        requires
            old(self).wf(),
        ensures
            final(self).wf(),
            Core::same_statics(*old(self), *final(self)),
            final(self).next_id == old(self).next_id,
            final(self).app_state is MainMenu,
            final(self).phase is None,
            final(self).troopers@.len() == 0,
            despawns@.len() == old(self).troopers@.len(),
            forall|k: int|
                0 <= k < despawns@.len() ==> despawns@[k] == (PhysicsCommand::Despawn {
                    id: old(self).troopers@[k].id,
                }),
    {
        let mut despawns: Vec<PhysicsCommand> = Vec::new();
        let mut i: usize = 0;
        while i < self.troopers.len()
            invariant
                *self == *old(self),
                i <= self.troopers@.len(),
                despawns@.len() == i,
                forall|k: int|
                    0 <= k < i ==> despawns@[k] == (PhysicsCommand::Despawn {
                        id: old(self).troopers@[k].id,
                    }),
            decreases self.troopers@.len() - i,
        {
            despawns.push(PhysicsCommand::Despawn { id: self.troopers[i].id });
            i += 1;
        }
        self.troopers = Vec::new();
        self.phase = None;
        self.app_state = AppState::MainMenu;
        despawns
    }

    /// Runs squad formation for this tick, with every trooper's current
    /// horizontal position in `xs` (one entry per arena slot).  While no
    /// assault runs, and one side of the gun holds at least the quota of
    /// `Landed` troopers, exactly the four of that side closest to the gun
    /// are promoted — nearest becomes Base, then Climber, SecondBase,
    /// Sapper — the shared phase is created at `Base`, and the ground
    /// assault begins; everyone else stays as they were.  The left side is
    /// checked first and wins a tie.  While an assault already runs, or no
    /// side has the quota, nothing changes.
    #[verifier::rlimit(100)]
    pub fn form_squad(&mut self, xs: &Vec<i32>) -> (r: Option<SquadPromotion>)
        requires
            old(self).wf(),
            old(self).app_state is InGame,
            xs@.len() == old(self).troopers@.len(),
        ensures
            final(self).wf(),
            Core::same_statics(*old(self), *final(self)),
            final(self).next_id == old(self).next_id,
            final(self).app_state == old(self).app_state,
            old(self).phase is Some ==> r is None && *final(self) == *old(self),
            (old(self).phase is None && r is None) ==> *final(self) == *old(self)
                && candidate_count(
                old(self).troopers@,
                xs@,
                old(self).gun_x as int,
                Side::Left,
                old(self).troopers@.len() as int,
            ) < old(self).config.assault_quota && candidate_count(
                old(self).troopers@,
                xs@,
                old(self).gun_x as int,
                Side::Right,
                old(self).troopers@.len() as int,
            ) < old(self).config.assault_quota,
            r matches Some(pr) ==> ({
                let pre = *old(self);
                let post = *final(self);
                let n = pre.troopers@.len() as int;
                let quota = pre.config.assault_quota;
                let gx = pre.gun_x as int;
                &&& pre.phase is None
                &&& post.phase == Some(AssaultPhase::Base)
                &&& (pr.side is Left <==> candidate_count(pre.troopers@, xs@, gx, Side::Left, n)
                    >= quota)
                &&& candidate_count(pre.troopers@, xs@, gx, pr.side, n) >= quota
                &&& pr.base < n && pr.climber < n && pr.second_base < n && pr.sapper < n
                &&& pr.base != pr.climber && pr.base != pr.second_base && pr.base != pr.sapper
                    && pr.climber != pr.second_base && pr.climber != pr.sapper && pr.second_base
                    != pr.sapper
                &&& is_candidate(pre.troopers@[pr.base as int], xs@[pr.base as int] as int, gx, pr.side)
                &&& is_candidate(
                    pre.troopers@[pr.climber as int],
                    xs@[pr.climber as int] as int,
                    gx,
                    pr.side,
                )
                &&& is_candidate(
                    pre.troopers@[pr.second_base as int],
                    xs@[pr.second_base as int] as int,
                    gx,
                    pr.side,
                )
                &&& is_candidate(
                    pre.troopers@[pr.sapper as int],
                    xs@[pr.sapper as int] as int,
                    gx,
                    pr.side,
                )
                &&& dist(xs@[pr.base as int] as int, gx) <= dist(xs@[pr.climber as int] as int, gx)
                    <= dist(xs@[pr.second_base as int] as int, gx) <= dist(
                    xs@[pr.sapper as int] as int,
                    gx,
                )
                &&& forall|i: int|
                    0 <= i < n && is_candidate(pre.troopers@[i], xs@[i] as int, gx, pr.side) && i
                        != pr.base && i != pr.climber && i != pr.second_base && i != pr.sapper
                        ==> dist(xs@[pr.sapper as int] as int, gx) <= dist(xs@[i] as int, gx)
                &&& post.troopers@.len() == n
                &&& post.troopers@[pr.base as int] == promoted(
                    pre.troopers@[pr.base as int],
                    AssaultRole::Base,
                )
                &&& post.troopers@[pr.climber as int] == promoted(
                    pre.troopers@[pr.climber as int],
                    AssaultRole::Climber,
                )
                &&& post.troopers@[pr.second_base as int] == promoted(
                    pre.troopers@[pr.second_base as int],
                    AssaultRole::SecondBase,
                )
                &&& post.troopers@[pr.sapper as int] == promoted(
                    pre.troopers@[pr.sapper as int],
                    AssaultRole::Sapper,
                )
                &&& forall|i: int|
                    0 <= i < n && i != pr.base && i != pr.climber && i != pr.second_base && i
                        != pr.sapper ==> post.troopers@[i] == pre.troopers@[i]
                &&& pr.commands@.len() == 4
                &&& pr.commands@[0] == (PhysicsCommand::EnableAssaultContacts {
                    id: pre.troopers@[pr.base as int].id,
                })
                &&& pr.commands@[1] == (PhysicsCommand::EnableAssaultContacts {
                    id: pre.troopers@[pr.climber as int].id,
                })
                &&& pr.commands@[2] == (PhysicsCommand::EnableAssaultContacts {
                    id: pre.troopers@[pr.second_base as int].id,
                })
                &&& pr.commands@[3] == (PhysicsCommand::EnableAssaultContacts {
                    id: pre.troopers@[pr.sapper as int].id,
                })
            }),
    {
        if self.phase.is_some() {
            return None;
        }
        let selection = select_squad(&self.troopers, xs, self.gun_x, &self.config);
        match selection {
            None => None,
            Some((side, roster)) => {
                let ghost pre = *self;
                let commands = promote_squad(&mut self.troopers, &roster);
                self.phase = Some(AssaultPhase::Base);
                let r0 = roster[0];
                let r1 = roster[1];
                let r2 = roster[2];
                let r3 = roster[3];
                proof {
                    let post = *self;
                    let n = pre.troopers@.len() as int;
                    vstd::std_specs::vec::axiom_spec_len(&self.troopers);
                    assert(n <= usize::MAX);
                    // the four are pairwise distinct
                    assert(roster@.no_duplicates());
                    // every trooper keeps its identifier and parachute
                    assert forall|i: int|
                        0 <= i < n implies (#[trigger] post.troopers@[i]).id
                        == pre.troopers@[i].id && post.troopers@[i].chute == pre.troopers@[i].chute
                        && post.troopers@[i].has_deployed_chute
                        == pre.troopers@[i].has_deployed_chute by {
                        if exists|k: int| 0 <= k < 4 && roster@[k] == i as usize {
                            let k = choose|k: int| 0 <= k < 4 && roster@[k] == i as usize;
                            assert(roster@[k] as int == i);
                            assert(post.troopers@[roster@[k] as int] == promoted(
                                pre.troopers@[roster@[k] as int],
                                role_of_rank(k),
                            ));
                            assert(post.troopers@[i] == promoted(
                                pre.troopers@[i],
                                role_of_rank(k),
                            ));
                        } else {
                            assert(forall|k: int| 0 <= k < 4 ==> roster@[k] != i as usize);
                            assert(post.troopers@[i] == pre.troopers@[i]);
                        }
                    }
                    // every trooper is still internally consistent, and only
                    // the four hold roles
                    assert forall|i: int| 0 <= i < n implies (#[trigger] post.troopers@[i]).wf()
                        && (post.troopers@[i].role is Some ==> exists|k: int|
                        0 <= k < 4 && roster@[k] == i as usize && post.troopers@[i].role == Some(
                            role_of_rank(k),
                        )) by {
                        if exists|k: int| 0 <= k < 4 && roster@[k] == i as usize {
                            let k = choose|k: int| 0 <= k < 4 && roster@[k] == i as usize;
                            assert(roster@[k] as int == i);
                            assert(post.troopers@[roster@[k] as int] == promoted(
                                pre.troopers@[roster@[k] as int],
                                role_of_rank(k),
                            ));
                            assert(post.troopers@[i] == promoted(
                                pre.troopers@[i],
                                role_of_rank(k),
                            ));
                            assert(is_candidate(
                                pre.troopers@[roster@[k] as int],
                                xs@[roster@[k] as int] as int,
                                pre.gun_x as int,
                                side,
                            ));
                            assert(pre.troopers@[i].state is Landed);
                        } else {
                            assert(forall|k: int| 0 <= k < 4 ==> roster@[k] != i as usize);
                            assert(post.troopers@[i] == pre.troopers@[i]);
                            assert(pre.troopers@[i].role is None);
                        }
                    }
                    // at most one holder per role
                    assert forall|i: int, j: int|
                        0 <= i < n && 0 <= j < n && i != j && (#[trigger] post.troopers@[i]).role
                            is Some && (#[trigger] post.troopers@[j]).role
                            is Some implies post.troopers@[i].role->0 != post.troopers@[j].role->0
                        by {
                        let ki = choose|k: int|
                            0 <= k < 4 && roster@[k] == i as usize && post.troopers@[i].role
                                == Some(role_of_rank(k));
                        let kj = choose|k: int|
                            0 <= k < 4 && roster@[k] == j as usize && post.troopers@[j].role
                                == Some(role_of_rank(k));
                        assert(ki != kj);
                        assert(role_of_rank(ki) != role_of_rank(kj));
                    }
                    assert(post.wf());
                    // the four nearest: any unpromoted candidate stands at
                    // or beyond the fourth
                    assert forall|i: int|
                        0 <= i < n && is_candidate(
                            pre.troopers@[i],
                            xs@[i] as int,
                            pre.gun_x as int,
                            side,
                        ) && i != roster@[0] && i != roster@[1] && i != roster@[2] && i
                        != roster@[3] implies dist(xs@[roster@[3] as int] as int, pre.gun_x as int)
                        <= dist(xs@[i] as int, pre.gun_x as int) by {
                        assert(roster@.contains(i as usize));
                        assert(exists|p: int| 0 <= p < roster@.len() && roster@[p] == i as usize);
                        let p = choose|p: int| 0 <= p < roster@.len() && roster@[p] == i as usize;
                        assert(roster@[p] == i as usize);
                        assert(p != 0 && p != 1 && p != 2 && p != 3);
                        assert(dist(xs@[roster@[3] as int] as int, pre.gun_x as int) <= dist(
                            xs@[roster@[p] as int] as int,
                            pre.gun_x as int,
                        ));
                    }
                }
                Some(
                    SquadPromotion {
                        side,
                        base: r0,
                        climber: r1,
                        second_base: r2,
                        sapper: r3,
                        commands,
                    },
                )
            },
        }
    }

    /// Nothing was observed, nothing was changed, nothing is owed.
    pub open spec fn quiet(o: ContactOutcome) -> bool {
        &&& o.landing is None
        &&& o.gib is None
        &&& o.explosions is None
        &&& o.commands@.len() == 0
    }

    /// Role exclusivity: at any instant, at most one live trooper holds
    /// each pyramid role — two holders of the same role are the same
    /// trooper.
    pub proof fn lemma_role_exclusive(self, r: AssaultRole, i: int, j: int)
        requires
            self.wf(),
            0 <= i < self.troopers@.len(),
            0 <= j < self.troopers@.len(),
            self.troopers@[i].role == Some(r),
            self.troopers@[j].role == Some(r),
        ensures
            i == j,
    {
    }

    /// One of the two contact parties is this entity.
    pub open spec fn spec_touches(a: u64, b: u64, id: u64) -> bool {
        a == id || b == id
    }

    /// The contact party that is not this entity.
    pub open spec fn spec_partner(a: u64, b: u64, id: u64) -> u64 {
        if a == id {
            b
        } else {
            a
        }
    }

    /// A contact between the ground and a live trooper.
    pub open spec fn ground_case(self, a: u64, b: u64) -> bool {
        Self::spec_touches(a, b, self.ground_id) && self.spec_has_id(
            Self::spec_partner(a, b, self.ground_id),
        )
    }

    /// A contact between a part of the gun assembly and a live trooper.
    pub open spec fn gun_case(self, a: u64, b: u64) -> bool {
        (self.gun.spec_is_part(a) && self.spec_has_id(b)) || (self.gun.spec_is_part(b)
            && self.spec_has_id(a))
    }

    /// A contact between the holders of two given roles.
    pub open spec fn pair_case(self, a: u64, b: u64, r1: AssaultRole, r2: AssaultRole) -> bool {
        &&& self.has_role(r1)
        &&& self.has_role(r2)
        &&& ((a == self.role_id(r1) && b == self.role_id(r2)) || (b == self.role_id(r1) && a
            == self.role_id(r2)))
    }

    /// What one ground contact does: a `Falling` trooper crashes (one gib,
    /// despawned), a `Floating` trooper lands exactly once (one landing
    /// event, parachute despawned), anyone else is untouched.
    pub open spec fn rel_ground(
        pre: Core,
        post: Core,
        o: ContactOutcome,
        k: int,
        tx: i32,
        ty: i32,
    ) -> bool {
        let t = pre.troopers@[k];
        &&& post.phase == pre.phase
        &&& post.app_state == pre.app_state
        &&& o.explosions is None
        &&& if t.state is Falling {
            &&& post.troopers@ == pre.troopers@.remove(k)
            &&& o.gib == Some(GibEvent { x: tx, y: ty })
            &&& o.landing is None
            &&& o.commands@ =~= seq![(PhysicsCommand::Despawn { id: t.id })]
        } else if t.state is Floating {
            &&& post.troopers@ == pre.troopers@.update(
                k,
                crate::paratrooper::ground_contact_next(t),
            )
            &&& o.landing == Some(LandingEvent(t.id))
            &&& o.gib is None
            &&& o.commands@ =~= seq![(PhysicsCommand::Despawn { id: t.chute->0 })]
        } else {
            post == pre && Self::quiet(o)
        }
    }

    /// What a contact between a gun part and a trooper does, by the
    /// trooper's role and the shared phase.  The Base finishes its walk
    /// against the gun base: it stops, becomes a platform, and the phase
    /// advances.  The Climber finishing against the gun halts and advances
    /// the phase.  The Sapper reaching any part of the gun in the final
    /// phase destroys it.  Every transition is a no-op once the phase has
    /// moved past it, so duplicate contact events apply nothing twice.
    pub open spec fn rel_gun_contact(
        pre: Core,
        post: Core,
        o: ContactOutcome,
        a: u64,
        b: u64,
    ) -> bool {
        let tid = if pre.gun.spec_is_part(a) {
            b
        } else {
            a
        };
        let t = pre.troopers@[pre.spec_index_of(tid)];
        if t.role == Some(AssaultRole::Base) && Self::spec_touches(a, b, pre.gun.base_id) {
            if pre.phase == Some(AssaultPhase::Base) {
                &&& post == (Core { phase: Some(AssaultPhase::Climber), ..pre })
                &&& o.landing is None
                &&& o.gib is None
                &&& o.explosions is None
                &&& o.commands@ =~= seq![
                    (PhysicsCommand::SetVelocity { id: tid, vx: 0i32, vy: 0i32 }),
                    (PhysicsCommand::MakeStatic { id: tid }),
                ]
            } else {
                post == pre && Self::quiet(o)
            }
        } else if t.role == Some(AssaultRole::Climber) {
            if pre.phase == Some(AssaultPhase::Climber) {
                &&& post == (Core { phase: Some(AssaultPhase::SecondBase), ..pre })
                &&& o.landing is None
                &&& o.gib is None
                &&& o.explosions is None
                &&& o.commands@ =~= seq![(PhysicsCommand::SetVelocityX { id: tid, vx: 0i32 })]
            } else {
                post == pre && Self::quiet(o)
            }
        } else if t.role == Some(AssaultRole::Sapper) {
            if pre.phase == Some(AssaultPhase::Sapper) {
                Self::rel_gun_destroyed(pre, post, o)
            } else {
                post == pre && Self::quiet(o)
            }
        } else {
            post == pre && Self::quiet(o)
        }
    }

    /// What a Climber-on-Base contact does: while the phase is still
    /// `Climber`, a jump impulse up and toward the gun; once the phase has
    /// advanced past it, the Climber locks into a static platform instead.
    pub open spec fn rel_climber_base(pre: Core, post: Core, o: ContactOutcome, cx: i32) -> bool {
        let cid = pre.role_id(AssaultRole::Climber);
        &&& post == pre
        &&& o.landing is None
        &&& o.gib is None
        &&& o.explosions is None
        &&& if pre.phase == Some(AssaultPhase::Climber) {
            o.commands@ =~= seq![
                (PhysicsCommand::SetVelocity {
                    id: cid,
                    vx: crate::assault::spec_walk_vx(
                        cx as int,
                        pre.gun_x as int,
                        pre.config.climb_jump_vx as int,
                    ) as i32,
                    vy: pre.config.climb_jump_vy,
                }),
            ]
        } else if pre.phase == Some(AssaultPhase::SecondBase) || pre.phase == Some(
            AssaultPhase::Sapper,
        ) {
            o.commands@ =~= seq![(PhysicsCommand::MakeStatic { id: cid })]
        } else {
            o.commands@.len() == 0
        }
    }

    /// What a SecondBase-on-Base contact does: while the phase is still
    /// `SecondBase`, the SecondBase locks into a platform and the phase
    /// advances to `Sapper`; afterwards nothing.
    pub open spec fn rel_second_base_on_base(pre: Core, post: Core, o: ContactOutcome) -> bool {
        let sid = pre.role_id(AssaultRole::SecondBase);
        &&& o.landing is None
        &&& o.gib is None
        &&& o.explosions is None
        &&& if pre.phase == Some(AssaultPhase::SecondBase) {
            &&& post == (Core { phase: Some(AssaultPhase::Sapper), ..pre })
            &&& o.commands@ =~= seq![(PhysicsCommand::MakeStatic { id: sid })]
        } else {
            post == pre && o.commands@.len() == 0
        }
    }

    /// What a Sapper contact with one of its supports (SecondBase or
    /// Climber) does: in the final phase, a jump impulse up and toward the
    /// gun; earlier, nothing.
    pub open spec fn rel_sapper_support(pre: Core, post: Core, o: ContactOutcome, sx: i32) -> bool {
        let sid = pre.role_id(AssaultRole::Sapper);
        &&& post == pre
        &&& o.landing is None
        &&& o.gib is None
        &&& o.explosions is None
        &&& if pre.phase == Some(AssaultPhase::Sapper) {
            o.commands@ =~= seq![
                (PhysicsCommand::SetVelocity {
                    id: sid,
                    vx: crate::assault::spec_walk_vx(
                        sx as int,
                        pre.gun_x as int,
                        pre.config.climb_jump_vx as int,
                    ) as i32,
                    vy: pre.config.climb_jump_vy,
                }),
            ]
        } else {
            o.commands@.len() == 0
        }
    }

    /// A trooper with a role names a unique holder: looking its role up
    /// finds exactly it.
    proof fn lemma_role_unique(self, i: int, r: AssaultRole)
        requires
            self.wf(),
            0 <= i < self.troopers@.len(),
            self.troopers@[i].role == Some(r),
        ensures
            self.has_role(r),
            self.role_index(r) == i,
            self.role_id(r) == self.troopers@[i].id,
    {
        assert(self.has_role(r));
        let w = self.role_index(r);
        assert(0 <= w < self.troopers@.len() && self.troopers@[w].role == Some(r));
        assert(w == i);
    }

    /// A live trooper's identifier finds exactly it.
    proof fn lemma_id_unique(self, i: int)
        requires
            self.wf(),
            0 <= i < self.troopers@.len(),
        ensures
            self.spec_has_id(self.troopers@[i].id),
            self.spec_index_of(self.troopers@[i].id) == i,
    {
        assert(self.spec_has_id(self.troopers@[i].id));
        let w = self.spec_index_of(self.troopers@[i].id);
        assert(0 <= w < self.troopers@.len() && self.troopers@[w].id == self.troopers@[i].id);
        assert(w == i);
    }

    /// In a contact between the holders of two roles, the two live
    /// troopers involved hold exactly those two roles, one each.
    proof fn lemma_pair_case_roles(self, a: u64, b: u64, r1: AssaultRole, r2: AssaultRole, i: int, j: int)
        requires
            self.wf(),
            self.pair_case(a, b, r1, r2),
            0 <= i < self.troopers@.len(),
            self.troopers@[i].id == a,
            0 <= j < self.troopers@.len(),
            self.troopers@[j].id == b,
        ensures
            (self.troopers@[i].role == Some(r1) && self.troopers@[j].role == Some(r2)) || (
            self.troopers@[i].role == Some(r2) && self.troopers@[j].role == Some(r1)),
    {
        let w1 = self.role_index(r1);
        assert(0 <= w1 < self.troopers@.len() && self.troopers@[w1].role == Some(r1));
        let w2 = self.role_index(r2);
        assert(0 <= w2 < self.troopers@.len() && self.troopers@[w2].role == Some(r2));
        if a == self.role_id(r1) && b == self.role_id(r2) {
            assert(self.troopers@[w1].id == a && self.troopers@[w2].id == b);
            assert(w1 == i && w2 == j);
        } else {
            assert(self.troopers@[w1].id == b && self.troopers@[w2].id == a);
            assert(w1 == j && w2 == i);
        }
    }

    /// Applies one contact-start notification from the physics
    /// collaborator, given the two entities and where each stood.  Drains
    /// must hand every contact of the tick here, in order; duplicate
    /// notifications for a transition that already happened are no-ops.
    /// Outside a running round nothing happens (events raced past the end
    /// of the round).
    #[verifier::rlimit(100)]
    pub fn handle_contact(&mut self, a: u64, ax: i32, ay: i32, b: u64, bx: i32, by: i32) -> (o:
        ContactOutcome)
        requires
            old(self).wf(),
        ensures
            final(self).wf(),
            Core::same_statics(*old(self), *final(self)),
            final(self).next_id == old(self).next_id,
            old(self).phase is None ==> final(self).phase is None,
            old(self).phase is Some && final(self).phase is Some
                ==> crate::assault::phase_steps_to(old(self).phase->0, final(self).phase->0),
            !(old(self).app_state is InGame) ==> *final(self) == *old(self) && Self::quiet(o),
            old(self).app_state is InGame ==> ({
                let pre = *old(self);
                let post = *final(self);
                &&& (pre.ground_case(a, b) ==> Self::rel_ground(
                    pre,
                    post,
                    o,
                    pre.spec_index_of(Self::spec_partner(a, b, pre.ground_id)),
                    if a == pre.ground_id {
                        bx
                    } else {
                        ax
                    },
                    if a == pre.ground_id {
                        by
                    } else {
                        ay
                    },
                ))
                &&& (pre.gun_case(a, b) ==> Self::rel_gun_contact(pre, post, o, a, b))
                &&& (pre.pair_case(a, b, AssaultRole::Climber, AssaultRole::Base)
                    ==> Self::rel_climber_base(
                    pre,
                    post,
                    o,
                    if a == pre.role_id(AssaultRole::Climber) {
                        ax
                    } else {
                        bx
                    },
                ))
                &&& (pre.pair_case(a, b, AssaultRole::SecondBase, AssaultRole::Base)
                    ==> Self::rel_second_base_on_base(pre, post, o))
                &&& (pre.pair_case(a, b, AssaultRole::Sapper, AssaultRole::SecondBase)
                    ==> Self::rel_sapper_support(
                    pre,
                    post,
                    o,
                    if a == pre.role_id(AssaultRole::Sapper) {
                        ax
                    } else {
                        bx
                    },
                ))
                &&& (pre.pair_case(a, b, AssaultRole::Sapper, AssaultRole::Climber)
                    ==> Self::rel_sapper_support(
                    pre,
                    post,
                    o,
                    if a == pre.role_id(AssaultRole::Sapper) {
                        ax
                    } else {
                        bx
                    },
                ))
                &&& (!(pre.ground_case(a, b) || pre.gun_case(a, b) || pre.pair_case(
                    a,
                    b,
                    AssaultRole::Climber,
                    AssaultRole::Base,
                ) || pre.pair_case(a, b, AssaultRole::SecondBase, AssaultRole::Base)
                    || pre.pair_case(a, b, AssaultRole::Sapper, AssaultRole::SecondBase)
                    || pre.pair_case(a, b, AssaultRole::Sapper, AssaultRole::Climber)) ==> post
                    == pre && Self::quiet(o))
            }),
    {
        if !(self.app_state == AppState::InGame) {
            return ContactOutcome {
                landing: None,
                gib: None,
                explosions: None,
                commands: Vec::new(),
            };
        }
        proof {
            self.lemma_singletons_are_not_troopers();
            self.lemma_role_holders_are_troopers();
        }
        if a == self.ground_id || b == self.ground_id {
            let (tid, tx, ty) = if a == self.ground_id {
                (b, bx, by)
            } else {
                (a, ax, ay)
            };
            self.ground_contact_outcome(tid, tx, ty)
        } else if self.gun.is_part(a) || self.gun.is_part(b) {
            self.gun_contact_outcome(a, b)
        } else {
            self.trooper_pair_outcome(a, ax, b, bx)
        }
    }

    /// No live trooper carries a singleton's identifier, so a contact
    /// party that is the ground or a gun part is never a trooper.
    proof fn lemma_singletons_are_not_troopers(self)
        requires
            self.wf(),
        ensures
            !self.spec_has_id(self.ground_id),
            !self.spec_has_id(self.gun.base_id),
            !self.spec_has_id(self.gun.mount_id),
            !self.spec_has_id(self.gun.barrel_id),
    {
    }

    /// Every role holder is a live trooper, so a contact party that is no
    /// trooper holds no role.
    proof fn lemma_role_holders_are_troopers(self)
        requires
            self.wf(),
        ensures
            forall|r: AssaultRole| self.has_role(r) ==> self.spec_has_id(#[trigger] self.role_id(r)),
    {
        assert forall|r: AssaultRole| self.has_role(r) implies self.spec_has_id(
            #[trigger] self.role_id(r),
        ) by {
            let w = self.role_index(r);
            assert(0 <= w < self.troopers@.len() && self.troopers@[w].role == Some(r));
            assert(self.troopers@[w].id == self.role_id(r));
        }
    }

    /// The ground touched `tid`, standing at `(tx, ty)`: the ground half
    /// of [`Core::handle_contact`].
    fn ground_contact_outcome(&mut self, tid: u64, tx: i32, ty: i32) -> (o: ContactOutcome)
        requires
            old(self).wf(),
            old(self).app_state is InGame,
        ensures
            final(self).wf(),
            Core::same_statics(*old(self), *final(self)),
            final(self).next_id == old(self).next_id,
            final(self).phase == old(self).phase,
            final(self).app_state == old(self).app_state,
            old(self).spec_has_id(tid) ==> Self::rel_ground(
                *old(self),
                *final(self),
                o,
                old(self).spec_index_of(tid),
                tx,
                ty,
            ),
            !old(self).spec_has_id(tid) ==> *final(self) == *old(self) && Self::quiet(o),
    {
        match self.find_index(tid) {
            None => ContactOutcome {
                landing: None,
                gib: None,
                explosions: None,
                commands: Vec::new(),
            },
            Some(i) => {
                let ghost pre = *self;
                let mut t = self.troopers[i];
                let go = crate::paratrooper::handle_ground_contact(&mut t);
                if go.crashed {
                    let dead_id = t.id;
                    self.troopers.remove(i);
                    proof {
                        Core::lemma_wf_after_remove(pre, *self, i as int);
                    }
                    let mut commands: Vec<PhysicsCommand> = Vec::new();
                    commands.push(PhysicsCommand::Despawn { id: dead_id });
                    ContactOutcome {
                        landing: None,
                        gib: Some(GibEvent { x: tx, y: ty }),
                        explosions: None,
                        commands,
                    }
                } else if go.landed_now {
                    self.troopers[i] = t;
                    proof {
                        Core::lemma_wf_after_update(pre, *self, i as int, t);
                    }
                    let mut commands: Vec<PhysicsCommand> = Vec::new();
                    let chute = match go.despawn_chute {
                        Some(c) => c,
                        None => 0,
                    };
                    commands.push(PhysicsCommand::Despawn { id: chute });
                    ContactOutcome {
                        landing: Some(LandingEvent(tid)),
                        gib: None,
                        explosions: None,
                        commands,
                    }
                } else {
                    ContactOutcome {
                        landing: None,
                        gib: None,
                        explosions: None,
                        commands: Vec::new(),
                    }
                }
            },
        }
    }

    /// A gun part touched `tid`: the gun half of [`Core::handle_contact`].
    fn gun_contact_outcome(&mut self, a: u64, b: u64) -> (o: ContactOutcome)
        requires
            old(self).wf(),
            old(self).app_state is InGame,
            old(self).gun.spec_is_part(a) || old(self).gun.spec_is_part(b),
        ensures
            final(self).wf(),
            Core::same_statics(*old(self), *final(self)),
            final(self).next_id == old(self).next_id,
            old(self).phase is None ==> final(self).phase is None,
            old(self).phase is Some && final(self).phase is Some
                ==> crate::assault::phase_steps_to(old(self).phase->0, final(self).phase->0),
            ({
                let pre = *old(self);
                let tid = if pre.gun.spec_is_part(a) {
                    b
                } else {
                    a
                };
                &&& (pre.spec_has_id(tid) ==> Self::rel_gun_contact(pre, *final(self), o, a, b))
                &&& (!pre.spec_has_id(tid) ==> *final(self) == pre && Self::quiet(o))
            }),
    {
        let tid = if self.gun.is_part(a) {
            b
        } else {
            a
        };
        match self.find_index(tid) {
            None => ContactOutcome {
                landing: None,
                gib: None,
                explosions: None,
                commands: Vec::new(),
            },
            Some(i) => {
                let role = self.troopers[i].role;
                let touches_base = a == self.gun.base_id || b == self.gun.base_id;
                match role {
                    Some(AssaultRole::Base) if touches_base => {
                        match self.phase {
                            Some(p0) => {
                                let mut p = p0;
                                let r = crate::assault::on_base_reaches_gun(&mut p, tid);
                                self.phase = Some(p);
                                match r {
                                    Some((c1, c2)) => {
                                        let mut commands: Vec<PhysicsCommand> = Vec::new();
                                        commands.push(c1);
                                        commands.push(c2);
                                        ContactOutcome {
                                            landing: None,
                                            gib: None,
                                            explosions: None,
                                            commands,
                                        }
                                    },
                                    None => ContactOutcome {
                                        landing: None,
                                        gib: None,
                                        explosions: None,
                                        commands: Vec::new(),
                                    },
                                }
                            },
                            None => ContactOutcome {
                                landing: None,
                                gib: None,
                                explosions: None,
                                commands: Vec::new(),
                            },
                        }
                    },
                    Some(AssaultRole::Climber) => {
                        match self.phase {
                            Some(p0) => {
                                let mut p = p0;
                                let r = crate::assault::on_climber_reaches_gun(&mut p, tid);
                                self.phase = Some(p);
                                match r {
                                    Some(c1) => {
                                        let mut commands: Vec<PhysicsCommand> = Vec::new();
                                        commands.push(c1);
                                        ContactOutcome {
                                            landing: None,
                                            gib: None,
                                            explosions: None,
                                            commands,
                                        }
                                    },
                                    None => ContactOutcome {
                                        landing: None,
                                        gib: None,
                                        explosions: None,
                                        commands: Vec::new(),
                                    },
                                }
                            },
                            None => ContactOutcome {
                                landing: None,
                                gib: None,
                                explosions: None,
                                commands: Vec::new(),
                            },
                        }
                    },
                    Some(AssaultRole::Sapper) => {
                        match self.phase {
                            Some(AssaultPhase::Sapper) => self.destroy_gun(),
                            _ => ContactOutcome {
                                landing: None,
                                gib: None,
                                explosions: None,
                                commands: Vec::new(),
                            },
                        }
                    },
                    _ => ContactOutcome {
                        landing: None,
                        gib: None,
                        explosions: None,
                        commands: Vec::new(),
                    },
                }
            },
        }
    }

    /// Two troopers touched: the pyramid-climbing half of
    /// [`Core::handle_contact`].
    fn trooper_pair_outcome(&mut self, a: u64, ax: i32, b: u64, bx: i32) -> (o: ContactOutcome)
        requires
            old(self).wf(),
            old(self).app_state is InGame,
        ensures
            final(self).wf(),
            Core::same_statics(*old(self), *final(self)),
            final(self).next_id == old(self).next_id,
            final(self).troopers@ == old(self).troopers@,
            final(self).app_state == old(self).app_state,
            old(self).phase is None ==> final(self).phase is None,
            old(self).phase is Some && final(self).phase is Some
                ==> crate::assault::phase_steps_to(old(self).phase->0, final(self).phase->0),
            ({
                let pre = *old(self);
                let post = *final(self);
                &&& (pre.pair_case(a, b, AssaultRole::Climber, AssaultRole::Base)
                    ==> Self::rel_climber_base(
                    pre,
                    post,
                    o,
                    if a == pre.role_id(AssaultRole::Climber) {
                        ax
                    } else {
                        bx
                    },
                ))
                &&& (pre.pair_case(a, b, AssaultRole::SecondBase, AssaultRole::Base)
                    ==> Self::rel_second_base_on_base(pre, post, o))
                &&& (pre.pair_case(a, b, AssaultRole::Sapper, AssaultRole::SecondBase)
                    ==> Self::rel_sapper_support(
                    pre,
                    post,
                    o,
                    if a == pre.role_id(AssaultRole::Sapper) {
                        ax
                    } else {
                        bx
                    },
                ))
                &&& (pre.pair_case(a, b, AssaultRole::Sapper, AssaultRole::Climber)
                    ==> Self::rel_sapper_support(
                    pre,
                    post,
                    o,
                    if a == pre.role_id(AssaultRole::Sapper) {
                        ax
                    } else {
                        bx
                    },
                ))
                &&& (!(pre.pair_case(a, b, AssaultRole::Climber, AssaultRole::Base)
                    || pre.pair_case(a, b, AssaultRole::SecondBase, AssaultRole::Base)
                    || pre.pair_case(a, b, AssaultRole::Sapper, AssaultRole::SecondBase)
                    || pre.pair_case(a, b, AssaultRole::Sapper, AssaultRole::Climber)) ==> post
                    == pre && Self::quiet(o))
            }),
    {
        let fa = self.find_index(a);
        let fb = self.find_index(b);
        match (fa, fb) {
            (Some(i), Some(j)) => {
                let ra = self.troopers[i].role;
                let rb = self.troopers[j].role;
                proof {
                    self.lemma_id_unique(i as int);
                    self.lemma_id_unique(j as int);
                }
                match (ra, rb) {
                    (Some(AssaultRole::Climber), Some(AssaultRole::Base)) => self
                        .climber_base_outcome(a, ax, i),
                    (Some(AssaultRole::Base), Some(AssaultRole::Climber)) => self
                        .climber_base_outcome(b, bx, j),
                    (Some(AssaultRole::SecondBase), Some(AssaultRole::Base)) => self
                        .second_base_outcome(i),
                    (Some(AssaultRole::Base), Some(AssaultRole::SecondBase)) => self
                        .second_base_outcome(j),
                    (Some(AssaultRole::Sapper), Some(AssaultRole::SecondBase)) => self
                        .sapper_support_outcome(a, ax, i),
                    (Some(AssaultRole::SecondBase), Some(AssaultRole::Sapper)) => self
                        .sapper_support_outcome(b, bx, j),
                    (Some(AssaultRole::Sapper), Some(AssaultRole::Climber)) => self
                        .sapper_support_outcome(a, ax, i),
                    (Some(AssaultRole::Climber), Some(AssaultRole::Sapper)) => self
                        .sapper_support_outcome(b, bx, j),
                    _ => {
                        proof {
                            let pre = *self;
                            if pre.pair_case(a, b, AssaultRole::Climber, AssaultRole::Base) {
                                pre.lemma_pair_case_roles(
                                    a,
                                    b,
                                    AssaultRole::Climber,
                                    AssaultRole::Base,
                                    i as int,
                                    j as int,
                                );
                            }
                            if pre.pair_case(a, b, AssaultRole::SecondBase, AssaultRole::Base) {
                                pre.lemma_pair_case_roles(
                                    a,
                                    b,
                                    AssaultRole::SecondBase,
                                    AssaultRole::Base,
                                    i as int,
                                    j as int,
                                );
                            }
                            if pre.pair_case(a, b, AssaultRole::Sapper, AssaultRole::SecondBase) {
                                pre.lemma_pair_case_roles(
                                    a,
                                    b,
                                    AssaultRole::Sapper,
                                    AssaultRole::SecondBase,
                                    i as int,
                                    j as int,
                                );
                            }
                            if pre.pair_case(a, b, AssaultRole::Sapper, AssaultRole::Climber) {
                                pre.lemma_pair_case_roles(
                                    a,
                                    b,
                                    AssaultRole::Sapper,
                                    AssaultRole::Climber,
                                    i as int,
                                    j as int,
                                );
                            }
                        }
                        ContactOutcome {
                            landing: None,
                            gib: None,
                            explosions: None,
                            commands: Vec::new(),
                        }
                    },
                }
            },
            _ => ContactOutcome {
                landing: None,
                gib: None,
                explosions: None,
                commands: Vec::new(),
            },
        }
    }

    /// The Climber touched the Base: jump over it, or — once the phase has
    /// advanced — become a platform.  `i` is the Climber's arena index,
    /// `cx` its position.
    fn climber_base_outcome(&mut self, cid: u64, cx: i32, i: usize) -> (o: ContactOutcome)
        requires
            old(self).wf(),
            i < old(self).troopers@.len(),
            old(self).troopers@[i as int].role == Some(AssaultRole::Climber),
            old(self).troopers@[i as int].id == cid,
        ensures
            *final(self) == *old(self),
            Self::rel_climber_base(*old(self), *final(self), o, cx),
    {
        proof {
            self.lemma_role_unique(i as int, AssaultRole::Climber);
        }
        match self.phase {
            Some(p0) => {
                let r = crate::assault::on_climber_touches_base(p0, cid, cx, self.gun_x, &self.config);
                match r {
                    Some(c1) => {
                        let mut commands: Vec<PhysicsCommand> = Vec::new();
                        commands.push(c1);
                        ContactOutcome { landing: None, gib: None, explosions: None, commands }
                    },
                    None => ContactOutcome {
                        landing: None,
                        gib: None,
                        explosions: None,
                        commands: Vec::new(),
                    },
                }
            },
            None => ContactOutcome {
                landing: None,
                gib: None,
                explosions: None,
                commands: Vec::new(),
            },
        }
    }

    /// The SecondBase touched the Base: in its own phase it locks into a
    /// platform and the phase advances to the Sapper's.
    fn second_base_outcome(&mut self, i: usize) -> (o: ContactOutcome)
        requires
            old(self).wf(),
            i < old(self).troopers@.len(),
            old(self).troopers@[i as int].role == Some(AssaultRole::SecondBase),
        ensures
            final(self).wf(),
            Core::same_statics(*old(self), *final(self)),
            final(self).next_id == old(self).next_id,
            final(self).troopers@ == old(self).troopers@,
            final(self).app_state == old(self).app_state,
            Self::rel_second_base_on_base(*old(self), *final(self), o),
    {
        proof {
            self.lemma_role_unique(i as int, AssaultRole::SecondBase);
        }
        let sid = self.troopers[i].id;
        match self.phase {
            Some(p0) => {
                let mut p = p0;
                let r = crate::assault::on_second_base_touches_base(&mut p, sid);
                self.phase = Some(p);
                match r {
                    Some(c1) => {
                        let mut commands: Vec<PhysicsCommand> = Vec::new();
                        commands.push(c1);
                        ContactOutcome { landing: None, gib: None, explosions: None, commands }
                    },
                    None => ContactOutcome {
                        landing: None,
                        gib: None,
                        explosions: None,
                        commands: Vec::new(),
                    },
                }
            },
            None => ContactOutcome {
                landing: None,
                gib: None,
                explosions: None,
                commands: Vec::new(),
            },
        }
    }

    /// The Sapper touched one of its supports: in the final phase it jumps
    /// up onto the pyramid.  `i` is the Sapper's arena index, `sx` its
    /// position.
    fn sapper_support_outcome(&mut self, sid: u64, sx: i32, i: usize) -> (o: ContactOutcome)
        requires
            old(self).wf(),
            i < old(self).troopers@.len(),
            old(self).troopers@[i as int].role == Some(AssaultRole::Sapper),
            old(self).troopers@[i as int].id == sid,
        ensures
            *final(self) == *old(self),
            Self::rel_sapper_support(*old(self), *final(self), o, sx),
    {
        proof {
            self.lemma_role_unique(i as int, AssaultRole::Sapper);
        }
        match self.phase {
            Some(AssaultPhase::Sapper) => {
                let r = crate::assault::on_sapper_touches_support(
                    AssaultPhase::Sapper,
                    sid,
                    sx,
                    self.gun_x,
                    &self.config,
                );
                match r {
                    Some(c1) => {
                        let mut commands: Vec<PhysicsCommand> = Vec::new();
                        commands.push(c1);
                        ContactOutcome { landing: None, gib: None, explosions: None, commands }
                    },
                    None => ContactOutcome {
                        landing: None,
                        gib: None,
                        explosions: None,
                        commands: Vec::new(),
                    },
                }
            },
            _ => ContactOutcome {
                landing: None,
                gib: None,
                explosions: None,
                commands: Vec::new(),
            },
        }
    }
}

/// The first identifier a fresh core allocates: one above the largest
/// reserved singleton identifier.
pub open spec fn spec_first_free_id(gun: GunAssembly, ground_id: u64) -> int {
    let m1 = if gun.mount_id > gun.base_id {
        gun.mount_id
    } else {
        gun.base_id
    };
    let m2 = if gun.barrel_id > m1 {
        gun.barrel_id
    } else {
        m1
    };
    let m3 = if ground_id > m2 {
        ground_id
    } else {
        m2
    };
    m3 + 1
}

/// The troopers that survive tearing an assault down: exactly the ones
/// holding no role, in arena order.
pub open spec fn roleless_of(s: Seq<Paratrooper>) -> Seq<Paratrooper>
    decreases s.len(),
{
    if s.len() == 0 {
        Seq::empty()
    } else {
        let rest = roleless_of(s.drop_last());
        if s.last().role is Some {
            rest
        } else {
            rest.push(s.last())
        }
    }
}

/// The despawn requests for every trooper of the running assault, in arena
/// order.
pub open spec fn despawn_roled(s: Seq<Paratrooper>) -> Seq<PhysicsCommand>
    decreases s.len(),
{
    if s.len() == 0 {
        Seq::empty()
    } else {
        let rest = despawn_roled(s.drop_last());
        if s.last().role is Some {
            rest.push(PhysicsCommand::Despawn { id: s.last().id })
        } else {
            rest
        }
    }
}

/// Events and commands owed after one contact-start notification.
pub struct ContactOutcome {
    /// A landing to report to squad formation's listeners and the score.
    pub landing: Option<LandingEvent>,
    /// A death to animate.
    pub gib: Option<GibEvent>,
    /// The two detonations of a destroyed gun: barrel and mount.
    pub explosions: Option<(GunExplosionEvent, GunExplosionEvent)>,
    /// Physics writes and despawns to apply at tick end.
    pub commands: Vec<PhysicsCommand>,
}

/// What a newly dropped trooper asks of the physics collaborator: a fresh
/// dynamic body at this position with this initial downward velocity.
#[derive(Clone, Copy, Debug, PartialEq, Eq, Structural)]
pub struct TrooperSpawn {
    pub id: u64,
    pub x: i32,
    pub y: i32,
    pub velocity_y: i32,
}

/// A freshly promoted squad: which side assaults, the arena indices of the
/// four role holders in role order, and the collision-filter commands that
/// let the four climb on one another.
pub struct SquadPromotion {
    pub side: Side,
    /// Index of the trooper promoted to Base (nearest the gun).
    pub base: usize,
    /// Index of the trooper promoted to Climber.
    pub climber: usize,
    /// Index of the trooper promoted to SecondBase.
    pub second_base: usize,
    /// Index of the trooper promoted to Sapper (farthest of the four).
    pub sapper: usize,
    /// One collision-filter change per promoted trooper, in role order.
    pub commands: Vec<PhysicsCommand>,
}

/// Events and commands owed after one bullet strike.
pub struct BulletOutcome {
    /// A death to animate, if a trooper was killed.
    pub gib: Option<GibEvent>,
    /// Physics writes and despawns to apply at tick end.
    pub commands: Vec<PhysicsCommand>,
}

} // verus!
