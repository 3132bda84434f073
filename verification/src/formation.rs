//! Squad formation: turning enough landed troopers on one side of the gun
//! into the four pyramid roles of a new assault.
//!
//! Each tick the core looks at every `Landed` trooper, splits them by the
//! side of the gun they stand on, and — once a side holds the quota — sorts
//! that side's troopers by distance from the gun and promotes exactly the
//! four closest, in fixed role order: nearest becomes Base, then Climber,
//! then SecondBase, then Sapper.  The left side is examined first, so if
//! both sides reach quota in the same tick the left assault starts and the
//! right side's troopers simply stay `Landed` until a later tick.

use vstd::prelude::*;

use crate::assault::AssaultRole;
use crate::config::Config;
use crate::events::PhysicsCommand;
use crate::geom::dist;
use crate::geom::dist_i32;
use crate::paratrooper::Paratrooper;
use crate::paratrooper::ParatrooperState;

verus! {

/// Which side of the gun a trooper stands on.
#[derive(Clone, Copy, Debug, PartialEq, Eq, Structural)]
pub enum Side {
    Left,
    Right,
}

/// The side a coordinate lies on; the gun's own coordinate counts as right.
pub open spec fn side_of(x: int, gun_x: int) -> Side {
    if x < gun_x {
        Side::Left
    } else {
        Side::Right
    }
}

/// A trooper eligible for an assault roster on the given side: safely
/// landed, and standing on that side.
pub open spec fn is_candidate(t: Paratrooper, x: int, gun_x: int, side: Side) -> bool {
    t.state is Landed && side_of(x, gun_x) == side
}

/// How many of the first `n` troopers are candidates for `side`.
pub open spec fn candidate_count(
    ts: Seq<Paratrooper>,
    xs: Seq<i32>,
    gun_x: int,
    side: Side,
    n: int,
) -> int
    decreases n,
{
    if n <= 0 {
        0
    } else {
        candidate_count(ts, xs, gun_x, side, n - 1) + if is_candidate(
            ts[n - 1],
            xs[n - 1] as int,
            gun_x,
            side,
        ) {
            1int
        } else {
            0int
        }
    }
}

/// A sequence of trooper indices ordered by distance from the gun,
/// nearest first.
pub open spec fn sorted_by_dist(v: Seq<usize>, xs: Seq<i32>, gun_x: int) -> bool {
    forall|k: int, l: int|
        0 <= k < l < v.len() ==> dist(xs[#[trigger] v[k] as int] as int, gun_x) <= dist(
            xs[#[trigger] v[l] as int] as int,
            gun_x,
        )
}

/// Collects the indices of all candidates for `side`, in index order.
fn candidate_indices(ts: &Vec<Paratrooper>, xs: &Vec<i32>, gun_x: i32, side: Side) -> (v: Vec<
    usize,
>)
    requires
        xs@.len() == ts@.len(),
    ensures
        v@.len() == candidate_count(ts@, xs@, gun_x as int, side, ts@.len() as int),
        forall|k: int|
            0 <= k < v@.len() ==> #[trigger] v@[k] < ts@.len() && is_candidate(
                ts@[v@[k] as int],
                xs@[v@[k] as int] as int,
                gun_x as int,
                side,
            ),
        forall|k: int, l: int| 0 <= k < l < v@.len() ==> v@[k] < v@[l],
        forall|i: int|
            0 <= i < ts@.len() && is_candidate(ts@[i], xs@[i] as int, gun_x as int, side)
                ==> v@.contains(i as usize),
{
    let mut v: Vec<usize> = Vec::new();
    let mut i: usize = 0;
    while i < ts.len()
        invariant
            i <= ts@.len(),
            xs@.len() == ts@.len(),
            v@.len() == candidate_count(ts@, xs@, gun_x as int, side, i as int),
            forall|k: int|
                0 <= k < v@.len() ==> #[trigger] v@[k] < i && is_candidate(
                    ts@[v@[k] as int],
                    xs@[v@[k] as int] as int,
                    gun_x as int,
                    side,
                ),
            forall|k: int, l: int| 0 <= k < l < v@.len() ==> v@[k] < v@[l],
            forall|j: int|
                0 <= j < i && is_candidate(ts@[j], xs@[j] as int, gun_x as int, side)
                    ==> v@.contains(j as usize),
        decreases ts@.len() - i,
    {
        let t = &ts[i];
        let is_cand = t.state == ParatrooperState::Landed && (if xs[i] < gun_x {
            side == Side::Left
        } else {
            side == Side::Right
        });
        let ghost v_old = v@;
        if is_cand {
            v.push(i);
        }
        proof {
            assert forall|j: int|
                0 <= j < i + 1 && is_candidate(
                    ts@[j],
                    xs@[j] as int,
                    gun_x as int,
                    side,
                ) implies v@.contains(j as usize) by {
                if j == i {
                    assert(v@[v@.len() - 1] == i as usize);
                } else {
                    assert(v_old.contains(j as usize));
                    let k = choose|k: int| 0 <= k < v_old.len() && v_old[k] == j as usize;
                    assert(v@[k] == j as usize);
                }
            }
        }
        i += 1;
    }
    v
}

/// Sorts trooper indices by distance from the gun, nearest first, by
/// insertion into a fresh vector.  The result is a permutation of the
/// input: same multiset of indices.
fn sort_indices_by_dist(v: &Vec<usize>, xs: &Vec<i32>, gun_x: i32) -> (s: Vec<usize>)
    requires
        forall|k: int| 0 <= k < v@.len() ==> #[trigger] v@[k] < xs@.len(),
    ensures
        s@.len() == v@.len(),
        s@.to_multiset() == v@.to_multiset(),
        sorted_by_dist(s@, xs@, gun_x as int),
        forall|k: int| 0 <= k < s@.len() ==> #[trigger] s@[k] < xs@.len(),
{
    broadcast use vstd::seq_lib::group_to_multiset_ensures;
    broadcast use vstd::seq_lib::to_multiset_insert;

    let mut s: Vec<usize> = Vec::new();
    let mut i: usize = 0;
    while i < v.len()
        invariant
            i <= v@.len(),
            forall|k: int| 0 <= k < v@.len() ==> #[trigger] v@[k] < xs@.len(),
            s@.len() == i,
            s@.to_multiset() == v@.subrange(0, i as int).to_multiset(),
            sorted_by_dist(s@, xs@, gun_x as int),
            forall|k: int| 0 <= k < s@.len() ==> #[trigger] s@[k] < xs@.len(),
        decreases v@.len() - i,
    {
        broadcast use vstd::seq_lib::group_to_multiset_ensures;
        broadcast use vstd::seq_lib::to_multiset_insert;

        let x = v[i];
        let key = dist_i32(xs[x], gun_x);
        let mut pos: usize = 0;
        while pos < s.len() && dist_i32(xs[s[pos]], gun_x) <= key
            invariant
                pos <= s@.len(),
                forall|k: int| 0 <= k < s@.len() ==> #[trigger] s@[k] < xs@.len(),
                x < xs@.len(),
                key == dist(xs@[x as int] as int, gun_x as int),
                forall|k: int|
                    0 <= k < pos ==> dist(xs@[#[trigger] s@[k] as int] as int, gun_x as int)
                        <= key,
            decreases s@.len() - pos,
        {
            pos += 1;
        }
        let ghost s_old = s@;
        s.insert(pos, x);
        proof {
            assert(v@.subrange(0, i + 1).drop_last() =~= v@.subrange(0, i as int));
            assert(v@.subrange(0, i + 1).to_multiset() =~= v@.subrange(
                0,
                i as int,
            ).to_multiset().insert(v@[i as int])) by {
                v@.subrange(0, i + 1).to_multiset_ensures();
                assert(v@.subrange(0, i + 1) =~= v@.subrange(0, i as int).push(v@[i as int]));
            }
            assert forall|k: int, l: int| 0 <= k < l < s@.len() implies dist(
                xs@[#[trigger] s@[k] as int] as int,
                gun_x as int,
            ) <= dist(xs@[#[trigger] s@[l] as int] as int, gun_x as int) by {
                if l < pos {
                } else if k < pos && l == pos {
                } else if k == pos {
                    assert(s@[l] == s_old[l - 1]);
                } else if k < pos {
                    assert(s@[l] == s_old[l - 1]);
                } else {
                    assert(s@[k] == s_old[k - 1]);
                    assert(s@[l] == s_old[l - 1]);
                }
            }
        }
        i += 1;
    }
    proof {
        assert(v@.subrange(0, v@.len() as int) =~= v@);
    }
    s
}

/// The roster of a newly qualifying side: the side itself and all of its
/// candidate trooper indices sorted by distance from the gun, nearest
/// first.  `None` while neither side has reached the quota.  The left side
/// is checked first and wins a tie.
pub fn select_squad(ts: &Vec<Paratrooper>, xs: &Vec<i32>, gun_x: i32, cfg: &Config) -> (r: Option<
    (Side, Vec<usize>),
>)
    requires
        cfg.wf(),
        xs@.len() == ts@.len(),
    ensures
        match r {
            None => candidate_count(ts@, xs@, gun_x as int, Side::Left, ts@.len() as int)
                < cfg.assault_quota && candidate_count(
                ts@,
                xs@,
                gun_x as int,
                Side::Right,
                ts@.len() as int,
            ) < cfg.assault_quota,
            Some((side, roster)) => {
                &&& (side is Left <==> candidate_count(
                    ts@,
                    xs@,
                    gun_x as int,
                    Side::Left,
                    ts@.len() as int,
                ) >= cfg.assault_quota)
                &&& roster@.len() == candidate_count(
                    ts@,
                    xs@,
                    gun_x as int,
                    side,
                    ts@.len() as int,
                )
                &&& roster@.len() >= cfg.assault_quota
                &&& forall|k: int|
                    0 <= k < roster@.len() ==> #[trigger] roster@[k] < ts@.len() && is_candidate(
                        ts@[roster@[k] as int],
                        xs@[roster@[k] as int] as int,
                        gun_x as int,
                        side,
                    )
                &&& sorted_by_dist(roster@, xs@, gun_x as int)
                &&& roster@.no_duplicates()
                &&& forall|i: int|
                    0 <= i < ts@.len() && is_candidate(ts@[i], xs@[i] as int, gun_x as int, side)
                        ==> roster@.contains(i as usize)
            },
        },
{
    broadcast use vstd::seq_lib::group_to_multiset_ensures;

    let left = candidate_indices(ts, xs, gun_x, Side::Left);
    let (side, cands) = if left.len() >= cfg.assault_quota {
        (Side::Left, left)
    } else {
        let right = candidate_indices(ts, xs, gun_x, Side::Right);
        if right.len() >= cfg.assault_quota {
            (Side::Right, right)
        } else {
            return None;
        }
    };
    proof {
        cands@.lemma_multiset_has_no_duplicates();
    }
    let roster = sort_indices_by_dist(&cands, xs, gun_x);
    proof {
        roster@.lemma_multiset_has_no_duplicates_conv();
        assert forall|i: int|
            0 <= i < ts@.len() && is_candidate(
                ts@[i],
                xs@[i] as int,
                gun_x as int,
                side,
            ) implies roster@.contains(i as usize) by {
            assert(cands@.contains(i as usize));
            assert(cands@.to_multiset().count(i as usize) > 0);
            assert(roster@.to_multiset().count(i as usize) > 0);
        }
        assert forall|k: int| 0 <= k < roster@.len() implies #[trigger] roster@[k] < ts@.len()
            && is_candidate(
            ts@[roster@[k] as int],
            xs@[roster@[k] as int] as int,
            gun_x as int,
            side,
        ) by {
            assert(roster@.contains(roster@[k]));
            assert(roster@.to_multiset().count(roster@[k]) > 0);
            assert(cands@.to_multiset().count(roster@[k]) > 0);
            assert(cands@.contains(roster@[k]));
            let j = choose|j: int| 0 <= j < cands@.len() && cands@[j] == roster@[k];
            assert(is_candidate(
                ts@[cands@[j] as int],
                xs@[cands@[j] as int] as int,
                gun_x as int,
                side,
            ));
        }
    }
    Some((side, roster))
}

/// A `Landed` trooper promoted into a role of the new assault.
pub open spec fn promoted(t: Paratrooper, role: AssaultRole) -> Paratrooper {
    Paratrooper { state: ParatrooperState::Assault, role: Some(role), ..t }
}

/// The fixed role order of a roster: nearest to the gun first.
pub open spec fn role_of_rank(k: int) -> AssaultRole {
    if k == 0 {
        AssaultRole::Base
    } else if k == 1 {
        AssaultRole::Climber
    } else if k == 2 {
        AssaultRole::SecondBase
    } else {
        AssaultRole::Sapper
    }
}

/// Promotes the four nearest troopers of a qualifying roster: each gets its
/// role in distance order and moves to the `Assault` state, and each is
/// asked to start colliding with its fellow assaulters so the pyramid can
/// be climbed.  Troopers beyond the fourth stay `Landed`.
pub fn promote_squad(ts: &mut Vec<Paratrooper>, roster: &Vec<usize>) -> (cmds: Vec<PhysicsCommand>)
    requires
        roster@.len() >= 4,
        roster@.no_duplicates(),
        forall|k: int| 0 <= k < roster@.len() ==> #[trigger] roster@[k] < old(ts)@.len(),
    ensures
        final(ts)@.len() == old(ts)@.len(),
        forall|k: int|
            0 <= k < 4 ==> final(ts)@[#[trigger] roster@[k] as int] == promoted(
                old(ts)@[roster@[k] as int],
                role_of_rank(k),
            ),
        forall|i: int|
            0 <= i < old(ts)@.len() && (forall|k: int| 0 <= k < 4 ==> roster@[k] != i as usize)
                ==> final(ts)@[i] == old(ts)@[i],
        cmds@.len() == 4,
        forall|k: int|
            0 <= k < 4 ==> cmds@[k] == (PhysicsCommand::EnableAssaultContacts {
                id: old(ts)@[roster@[k] as int].id,
            }),
{
    let mut cmds: Vec<PhysicsCommand> = Vec::new();
    let mut k: usize = 0;
    while k < 4
        invariant
            k <= 4,
            roster@.len() >= 4,
            roster@.no_duplicates(),
            forall|j: int| 0 <= j < roster@.len() ==> #[trigger] roster@[j] < ts@.len(),
            ts@.len() == old(ts)@.len(),
            forall|j: int|
                k <= j < roster@.len() ==> #[trigger] ts@[roster@[j] as int] == old(
                    ts,
                )@[roster@[j] as int],
            forall|j: int|
                0 <= j < k ==> ts@[#[trigger] roster@[j] as int] == promoted(
                    old(ts)@[roster@[j] as int],
                    role_of_rank(j),
                ),
            forall|i: int|
                0 <= i < old(ts)@.len() && (forall|j: int| 0 <= j < k ==> roster@[j] != i as usize)
                    ==> ts@[i] == old(ts)@[i],
            cmds@.len() == k,
            forall|j: int|
                0 <= j < k ==> cmds@[j] == (PhysicsCommand::EnableAssaultContacts {
                    id: old(ts)@[roster@[j] as int].id,
                }),
        decreases 4 - k,
    {
        let idx = roster[k];
        let role = if k == 0 {
            AssaultRole::Base
        } else if k == 1 {
            AssaultRole::Climber
        } else if k == 2 {
            AssaultRole::SecondBase
        } else {
            AssaultRole::Sapper
        };
        let mut t = ts[idx];
        t.state = ParatrooperState::Assault;
        t.role = Some(role);
        ts[idx] = t;
        cmds.push(PhysicsCommand::EnableAssaultContacts { id: t.id });
        k += 1;
    }
    cmds
}

} // verus!
