//! Collision detection between the player and the auto-movers, and removal
//! of the objects named by the collision events.

use vstd::prelude::*;
use crate::world::AutoMover;
use crate::world::CollisionWithPresentEvent;
use crate::world::CollisionWithSnowflakeEvent;
use crate::world::GameState;
use crate::world::Kind;
use crate::world::POS_HARD_LIMIT;
use crate::world::RADIUS_LIMIT;
use crate::world::ids_below;
use crate::world::movers_wf;
use crate::world::mover_wf;
use crate::world::positions_bounded;
use crate::world::present_event_ids;
use crate::world::snowflake_event_ids;
use crate::world::unique_ids;

verus! {

pub open spec fn square(x: int) -> int {
    x * x
}

/// The proximity test: the Euclidean distance between the player's and the
/// object's centers is below 1.7 times their combined radii. Stated over
/// squares to stay in integers: dist < (pr + or) * 17 / 10 exactly when
/// 100 * dist^2 < (17 * (pr + or))^2, both sides being non-negative.
/// The 1.7 factor widens the hit region beyond the nominal combined radius.
pub open spec fn collides(px: int, py: int, pr: int, o: AutoMover) -> bool {
    100 * (square(px - o.x) + square(py - o.y)) < square(17 * (pr + o.radius))
}

/// The ids of the objects of `kind` that the player currently touches, in
/// object order.
pub open spec fn colliding_ids(
    objs: Seq<AutoMover>,
    kind: Kind,
    px: int,
    py: int,
    pr: int,
) -> Seq<u64>
    decreases objs.len(),
{
    if objs.len() == 0 {
        Seq::empty()
    } else {
        let prefix = colliding_ids(objs.drop_last(), kind, px, py, pr);
        let o = objs.last();
        if o.kind == kind && collides(px, py, pr, o) {
            prefix.push(o.id)
        } else {
            prefix
        }
    }
}

/// There is one collision event per qualifying object, so never more events
/// than objects.
pub proof fn lemma_colliding_ids_len(objs: Seq<AutoMover>, kind: Kind, px: int, py: int, pr: int)
    ensures
        colliding_ids(objs, kind, px, py, pr).len() <= objs.len(),
    decreases objs.len(),
{
    if objs.len() > 0 {
        lemma_colliding_ids_len(objs.drop_last(), kind, px, py, pr);
    }
}

/// The objects that remain once every object whose id is listed in `ids`
/// is removed, in their original order.
pub open spec fn surviving(objs: Seq<AutoMover>, ids: Seq<u64>) -> Seq<AutoMover>
    decreases objs.len(),
{
    if objs.len() == 0 {
        Seq::empty()
    } else {
        let rest = surviving(objs.drop_first(), ids);
        if ids.contains(objs[0].id) {
            rest
        } else {
            seq![objs[0]] + rest
        }
    }
}

/// Removal only drops objects: what remains is drawn from the original
/// objects, and none of it carries a removed id.
pub proof fn lemma_surviving_membership(objs: Seq<AutoMover>, ids: Seq<u64>)
    ensures
        surviving(objs, ids).len() <= objs.len(),
        forall|k: int|
            0 <= k < surviving(objs, ids).len() ==> objs.contains(
                #[trigger] surviving(objs, ids)[k],
            ) && !ids.contains(surviving(objs, ids)[k].id),
    decreases objs.len(),
{
    if objs.len() > 0 {
        let rest = surviving(objs.drop_first(), ids);
        lemma_surviving_membership(objs.drop_first(), ids);
        assert forall|k: int| 0 <= k < surviving(objs, ids).len() implies objs.contains(
            #[trigger] surviving(objs, ids)[k],
        ) && !ids.contains(surviving(objs, ids)[k].id) by {
            if ids.contains(objs[0].id) {
                assert(objs.drop_first().contains(rest[k]));
                let j = choose|j: int|
                    0 <= j < objs.drop_first().len() && objs.drop_first()[j] == rest[k];
                assert(objs[j + 1] == rest[k]);
            } else {
                if k == 0 {
                    assert(objs[0] == surviving(objs, ids)[0]);
                } else {
                    assert(surviving(objs, ids)[k] == rest[k - 1]);
                    assert(objs.drop_first().contains(rest[k - 1]));
                    let j = choose|j: int|
                        0 <= j < objs.drop_first().len() && objs.drop_first()[j] == rest[k - 1];
                    assert(objs[j + 1] == rest[k - 1]);
                }
            }
        }
    }
}

/// Removal keeps the well-formedness of the object list: distinct ids stay
/// distinct, every remaining object is one of the originals, so bounds on
/// directions, radii, positions and ids carry over.
pub proof fn lemma_surviving_preserves(objs: Seq<AutoMover>, ids: Seq<u64>, bound: u64)
    ensures
        unique_ids(objs) ==> unique_ids(surviving(objs, ids)),
        movers_wf(objs) ==> movers_wf(surviving(objs, ids)),
        positions_bounded(objs, POS_HARD_LIMIT as int) ==> positions_bounded(
            surviving(objs, ids),
            POS_HARD_LIMIT as int,
        ),
        ids_below(objs, bound) ==> ids_below(surviving(objs, ids), bound),
    decreases objs.len(),
{
    lemma_surviving_membership(objs, ids);
    let out = surviving(objs, ids);
    if movers_wf(objs) {
        assert forall|k: int| 0 <= k < out.len() implies mover_wf(#[trigger] out[k]) by {
            assert(objs.contains(out[k]));
            let i = choose|i: int| 0 <= i < objs.len() && objs[i] == out[k];
            assert(mover_wf(objs[i]));
        }
    }
    if positions_bounded(objs, POS_HARD_LIMIT as int) {
        assert forall|k: int|
            0 <= k < out.len() implies -POS_HARD_LIMIT <= (#[trigger] out[k]).x <= POS_HARD_LIMIT
            && -POS_HARD_LIMIT <= out[k].y <= POS_HARD_LIMIT by {
            assert(objs.contains(out[k]));
            let i = choose|i: int| 0 <= i < objs.len() && objs[i] == out[k];
            assert(-POS_HARD_LIMIT <= objs[i].x <= POS_HARD_LIMIT);
        }
    }
    if ids_below(objs, bound) {
        assert forall|k: int| 0 <= k < out.len() implies (#[trigger] out[k]).id < bound by {
            assert(objs.contains(out[k]));
            let i = choose|i: int| 0 <= i < objs.len() && objs[i] == out[k];
            assert(objs[i].id < bound);
        }
    }
    if objs.len() > 0 {
        let rest = surviving(objs.drop_first(), ids);
        lemma_surviving_preserves(objs.drop_first(), ids, bound);
        lemma_surviving_membership(objs.drop_first(), ids);
        if unique_ids(objs) {
            assert(unique_ids(objs.drop_first())) by {
                assert forall|i: int, j: int|
                    0 <= i < j < objs.drop_first().len() implies (#[trigger] objs.drop_first()[i].id)
                    != (#[trigger] objs.drop_first()[j].id) by {
                    assert(objs.drop_first()[i] == objs[i + 1]);
                    assert(objs.drop_first()[j] == objs[j + 1]);
                }
            }
            if !ids.contains(objs[0].id) {
                // the head keeps an id no remaining object repeats
                assert forall|k: int, l: int| 0 <= k < l < out.len() implies (#[trigger] out[k].id)
                    != (#[trigger] out[l].id) by {
                    if k == 0 {
                        assert(out[l] == rest[l - 1]);
                        assert(objs.drop_first().contains(rest[l - 1]));
                        let j = choose|j: int|
                            0 <= j < objs.drop_first().len() && objs.drop_first()[j] == rest[l - 1];
                        assert(objs[j + 1] == rest[l - 1]);
                        assert(objs[0].id != objs[j + 1].id);
                    } else {
                        assert(out[k] == rest[k - 1]);
                        assert(out[l] == rest[l - 1]);
                    }
                }
            }
        }
    }
}

/// Executes the `collides` test, with the squares taken in 128-bit arithmetic.
fn check_collision(px: i64, py: i64, pr: i64, o: &AutoMover) -> (b: bool)
    requires
        -POS_HARD_LIMIT <= px <= POS_HARD_LIMIT,
        -POS_HARD_LIMIT <= py <= POS_HARD_LIMIT,
        -POS_HARD_LIMIT <= o.x <= POS_HARD_LIMIT,
        -POS_HARD_LIMIT <= o.y <= POS_HARD_LIMIT,
        0 <= pr <= RADIUS_LIMIT,
        0 <= o.radius <= RADIUS_LIMIT,
    ensures
        b == collides(px as int, py as int, pr as int, *o),
{
    let dx: i128 = (px as i128) - (o.x as i128);
    let dy: i128 = (py as i128) - (o.y as i128);
    proof {
        assert(dx * dx <= 4_000_000_000_000 * 4_000_000_000_000 && dx * dx >= 0)
            by (nonlinear_arith)
            requires
                -4_000_000_000_000 <= dx <= 4_000_000_000_000,
        ;
        assert(dy * dy <= 4_000_000_000_000 * 4_000_000_000_000 && dy * dy >= 0)
            by (nonlinear_arith)
            requires
                -4_000_000_000_000 <= dy <= 4_000_000_000_000,
        ;
    }
    let dist2: i128 = dx * dx + dy * dy;
    let rsum: i128 = 17 * ((pr as i128) + (o.radius as i128));
    proof {
        assert(rsum * rsum <= 34_000_000 * 34_000_000 && rsum * rsum >= 0) by (nonlinear_arith)
            requires
                0 <= rsum <= 34_000_000,
        ;
    }
    100 * dist2 < rsum * rsum
}

/// Collision phase for one target kind: compares the player with every live
/// object of that kind and appends one event, carrying the object's id, per
/// object within collision distance. Nothing else changes.
pub fn detect_collisions_system(state: &mut GameState, kind: Kind)
    requires
        -POS_HARD_LIMIT <= old(state).player_x <= POS_HARD_LIMIT,
        -POS_HARD_LIMIT <= old(state).player_y <= POS_HARD_LIMIT,
        0 <= old(state).player_radius <= RADIUS_LIMIT,
        movers_wf(old(state).objects@),
        positions_bounded(old(state).objects@, POS_HARD_LIMIT as int),
    ensures
        kind == Kind::Present ==> {
            &&& present_event_ids(final(state).present_events@) == present_event_ids(
                old(state).present_events@,
            ) + colliding_ids(
                old(state).objects@,
                kind,
                old(state).player_x as int,
                old(state).player_y as int,
                old(state).player_radius as int,
            )
            &&& *final(state) == (GameState {
                present_events: final(state).present_events,
                ..*old(state)
            })
        },
        kind == Kind::Snowflake ==> {
            &&& snowflake_event_ids(final(state).snowflake_events@) == snowflake_event_ids(
                old(state).snowflake_events@,
            ) + colliding_ids(
                old(state).objects@,
                kind,
                old(state).player_x as int,
                old(state).player_y as int,
                old(state).player_radius as int,
            )
            &&& *final(state) == (GameState {
                snowflake_events: final(state).snowflake_events,
                ..*old(state)
            })
        },
{
    let ghost orig = state.objects@;
    let ghost px = state.player_x as int;
    let ghost py = state.player_y as int;
    let ghost pr = state.player_radius as int;
    let n = state.objects.len();
    let mut i: usize = 0;
    match kind {
        Kind::Present => {
            let ghost q0 = present_event_ids(state.present_events@);
            while i < n
                invariant
                    n == orig.len(),
                    state.objects@ == orig,
                    0 <= i <= n,
                    px == state.player_x as int,
                    py == state.player_y as int,
                    pr == state.player_radius as int,
                    -POS_HARD_LIMIT <= state.player_x <= POS_HARD_LIMIT,
                    -POS_HARD_LIMIT <= state.player_y <= POS_HARD_LIMIT,
                    0 <= state.player_radius <= RADIUS_LIMIT,
                    movers_wf(orig),
                    positions_bounded(orig, POS_HARD_LIMIT as int),
                    present_event_ids(state.present_events@) == q0 + colliding_ids(
                        orig.take(i as int),
                        Kind::Present,
                        px,
                        py,
                        pr,
                    ),
                    *state == (GameState { present_events: state.present_events, ..*old(state) }),
                decreases n - i,
            {
                let o = state.objects[i];
                let ghost pre_events = state.present_events@;
                if matches!(o.kind, Kind::Present) && check_collision(
                    state.player_x,
                    state.player_y,
                    state.player_radius,
                    &o,
                ) {
                    let ev = CollisionWithPresentEvent::new(o.id);
                    state.present_events.push(ev);
                    proof {
                        assert(state.present_events@ == pre_events.push(ev));
                        assert(present_event_ids(state.present_events@) =~= present_event_ids(
                            pre_events,
                        ).push(o.id));
                    }
                }
                proof {
                    assert(orig.take(i + 1).drop_last() =~= orig.take(i as int));
                    assert(orig.take(i + 1).last() == orig[i as int]);
                    let prev = colliding_ids(orig.take(i as int), Kind::Present, px, py, pr);
                    let cur = colliding_ids(orig.take(i + 1), Kind::Present, px, py, pr);
                    if orig[i as int].kind == Kind::Present && collides(px, py, pr, orig[i as int]) {
                        assert(cur == prev.push(orig[i as int].id));
                        assert(q0 + cur =~= (q0 + prev).push(orig[i as int].id));
                    } else {
                        assert(cur == prev);
                    }
                    assert(present_event_ids(state.present_events@) == q0 + cur);
                }
                i = i + 1;
            }
            proof {
                assert(orig.take(n as int) =~= orig);
            }
        },
        Kind::Snowflake => {
            let ghost q0 = snowflake_event_ids(state.snowflake_events@);
            while i < n
                invariant
                    n == orig.len(),
                    state.objects@ == orig,
                    0 <= i <= n,
                    px == state.player_x as int,
                    py == state.player_y as int,
                    pr == state.player_radius as int,
                    -POS_HARD_LIMIT <= state.player_x <= POS_HARD_LIMIT,
                    -POS_HARD_LIMIT <= state.player_y <= POS_HARD_LIMIT,
                    0 <= state.player_radius <= RADIUS_LIMIT,
                    movers_wf(orig),
                    positions_bounded(orig, POS_HARD_LIMIT as int),
                    snowflake_event_ids(state.snowflake_events@) == q0 + colliding_ids(
                        orig.take(i as int),
                        Kind::Snowflake,
                        px,
                        py,
                        pr,
                    ),
                    *state == (GameState {
                        snowflake_events: state.snowflake_events,
                        ..*old(state)
                    }),
                decreases n - i,
            {
                let o = state.objects[i];
                let ghost pre_events = state.snowflake_events@;
                if matches!(o.kind, Kind::Snowflake) && check_collision(
                    state.player_x,
                    state.player_y,
                    state.player_radius,
                    &o,
                ) {
                    let ev = CollisionWithSnowflakeEvent::new(o.id);
                    state.snowflake_events.push(ev);
                    proof {
                        assert(state.snowflake_events@ == pre_events.push(ev));
                        assert(snowflake_event_ids(state.snowflake_events@) =~= snowflake_event_ids(
                            pre_events,
                        ).push(o.id));
                    }
                }
                proof {
                    assert(orig.take(i + 1).drop_last() =~= orig.take(i as int));
                    assert(orig.take(i + 1).last() == orig[i as int]);
                    let prev = colliding_ids(orig.take(i as int), Kind::Snowflake, px, py, pr);
                    let cur = colliding_ids(orig.take(i + 1), Kind::Snowflake, px, py, pr);
                    if orig[i as int].kind == Kind::Snowflake && collides(px, py, pr, orig[i as int]) {
                        assert(cur == prev.push(orig[i as int].id));
                        assert(q0 + cur =~= (q0 + prev).push(orig[i as int].id));
                    } else {
                        assert(cur == prev);
                    }
                    assert(snowflake_event_ids(state.snowflake_events@) == q0 + cur);
                }
                i = i + 1;
            }
            proof {
                assert(orig.take(n as int) =~= orig);
            }
        },
    }
}

/// Whether `ids` holds `id`.
fn ids_contain(ids: &Vec<u64>, id: u64) -> (b: bool)
    ensures
        b == ids@.contains(id),
{
    let n = ids.len();
    let mut i: usize = 0;
    while i < n
        invariant
            n == ids@.len(),
            0 <= i <= n,
            forall|j: int| 0 <= j < i ==> ids@[j] != id,
        decreases n - i,
    {
        if ids[i] == id {
            return true;
        }
        i = i + 1;
    }
    false
}

/// Cleanup phase for one event kind: every object named by a pending event of
/// that kind is destroyed, the queue is drained, and nothing else changes.
/// The gameplay-effect systems run before this, so they still saw the events.
pub fn remove_entity_on_collission_system(state: &mut GameState, kind: Kind)
    ensures
        kind == Kind::Present ==> {
            &&& final(state).objects@ == surviving(
                old(state).objects@,
                present_event_ids(old(state).present_events@),
            )
            &&& final(state).present_events@.len() == 0
            &&& *final(state) == (GameState {
                objects: final(state).objects,
                present_events: final(state).present_events,
                ..*old(state)
            })
        },
        kind == Kind::Snowflake ==> {
            &&& final(state).objects@ == surviving(
                old(state).objects@,
                snowflake_event_ids(old(state).snowflake_events@),
            )
            &&& final(state).snowflake_events@.len() == 0
            &&& *final(state) == (GameState {
                objects: final(state).objects,
                snowflake_events: final(state).snowflake_events,
                ..*old(state)
            })
        },
{
    let mut ids: Vec<u64> = Vec::new();
    match kind {
        Kind::Present => {
            let m = state.present_events.len();
            let mut k: usize = 0;
            while k < m
                invariant
                    m == state.present_events@.len(),
                    0 <= k <= m,
                    ids@.len() == k,
                    forall|j: int| 0 <= j < k ==> ids@[j] == state.present_events@[j].0,
                    *state == *old(state),
                decreases m - k,
            {
                let e = state.present_events[k].entity();
                ids.push(e);
                k = k + 1;
            }
            proof {
                assert(ids@ =~= present_event_ids(state.present_events@));
            }
            state.present_events = Vec::new();
        },
        Kind::Snowflake => {
            let m = state.snowflake_events.len();
            let mut k: usize = 0;
            while k < m
                invariant
                    m == state.snowflake_events@.len(),
                    0 <= k <= m,
                    ids@.len() == k,
                    forall|j: int| 0 <= j < k ==> ids@[j] == state.snowflake_events@[j].0,
                    *state == *old(state),
                decreases m - k,
            {
                let e = state.snowflake_events[k].entity();
                ids.push(e);
                k = k + 1;
            }
            proof {
                assert(ids@ =~= snowflake_event_ids(state.snowflake_events@));
            }
            state.snowflake_events = Vec::new();
        },
    }
    let ghost removed_ids = ids@;
    let ghost orig = state.objects@;
    let n = state.objects.len();
    let mut kept: Vec<AutoMover> = Vec::new();
    let mut i: usize = 0;
    proof {
        assert(orig.skip(0) =~= orig);
    }
    while i < n
        invariant
            n == orig.len(),
            state.objects@ == orig,
            ids@ == removed_ids,
            0 <= i <= n,
            surviving(orig, removed_ids) == kept@ + surviving(orig.skip(i as int), removed_ids),
        decreases n - i,
    {
        let o = state.objects[i];
        proof {
            assert(orig.skip(i as int).len() > 0);
            assert(orig.skip(i as int)[0] == orig[i as int]);
            assert(orig.skip(i as int).drop_first() =~= orig.skip(i + 1));
        }
        if !ids_contain(&ids, o.id) {
            kept.push(o);
            proof {
                assert(kept@ + surviving(orig.skip(i + 1), removed_ids) =~= kept@.drop_last() + (
                seq![orig[i as int]] + surviving(orig.skip(i + 1), removed_ids)));
            }
        }
        i = i + 1;
    }
    proof {
        assert(orig.skip(n as int) =~= Seq::<AutoMover>::empty());
        assert(kept@ + surviving(orig.skip(n as int), removed_ids) =~= kept@);
    }
    state.objects = kept;
}

} // verus!
