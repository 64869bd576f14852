//! Spawning of the auto-movers: random positions inside the window but
//! outside the central free zone, and random unit-like directions.

use vstd::prelude::*;
use crate::world::AutoMover;
use crate::world::GameState;
use crate::world::Kind;
use crate::world::COLLIDER_RADIUS;
use crate::world::DIM_LIMIT;
use crate::world::DIR_SCALE;
use crate::world::FREE_ZONE;
use crate::world::HALF_EXTENT;
use crate::world::ids_below;
use crate::world::mover_wf;
use crate::world::movers_wf;
use crate::world::positions_bounded;
use crate::world::unique_ids;

verus! {

/// How many random draws a spawn makes before settling for a corner; the free
/// zone is small next to the window, so the fallback is all but unreachable.
pub const SPAWN_ATTEMPTS: u32 = 10_000;

/// Relies on fastrand::u32: a value drawn uniformly from the given range,
/// which panics only on an empty range, so the result of `0..n` with
/// positive `n` is below `n`.
#[verifier::external_body]
fn random_below(n: u32) -> (r: u32)
    requires
        n >= 1,
    ensures
        r < n,
{
    fastrand::u32(0..n)
}

/// Integer square root: the largest `r` with `r * r <= n`.
pub fn isqrt(n: u64) -> (r: u64)
    requires
        n <= 0xFFFF_FFFF,
    ensures
        r * r <= n,
        n < (r + 1) * (r + 1),
{
    let mut r: u64 = 0;
    loop
        invariant
            n <= 0xFFFF_FFFF,
            r * r <= n,
            r <= 0x1_0000,
        ensures
            r * r <= n,
            n < (r + 1) * (r + 1),
        decreases 0x1_0000 - r,
    {
        proof {
            assert((r + 1) * (r + 1) <= 0x1_0001 * 0x1_0001) by (nonlinear_arith)
                requires
                    r <= 0x1_0000,
            ;
        }
        let next: u64 = (r + 1) * (r + 1);
        if next <= n {
            proof {
                assert(r + 1 <= 0xFFFF) by (nonlinear_arith)
                    requires
                        (r + 1) * (r + 1) <= 0xFFFF_FFFF,
                ;
            }
            r = r + 1;
        } else {
            break ;
        }
    }
    r
}

/// A position drawn from the window rectangle inset by a half extent whose
/// distance from the window center exceeds the free-zone radius: samples are
/// drawn uniformly and rejected while they fall inside the zone; if every
/// draw is rejected, the near corner, which provably lies outside the zone,
/// is used.
fn random_spawn_position(width: i64, height: i64) -> (p: (i64, i64))
    requires
        2 * (FREE_ZONE + HALF_EXTENT) < width <= DIM_LIMIT,
        2 * (FREE_ZONE + HALF_EXTENT) < height <= DIM_LIMIT,
    ensures
        HALF_EXTENT <= p.0 <= width - HALF_EXTENT,
        HALF_EXTENT <= p.1 <= height - HALF_EXTENT,
        (p.0 - width as int / 2) * (p.0 - width as int / 2) + (p.1 - height as int / 2) * (p.1
            - height as int / 2) > FREE_ZONE * FREE_ZONE,
{
    let cx: i64 = ((width as u64) / 2) as i64;
    let cy: i64 = ((height as u64) / 2) as i64;
    let span_x: u32 = (width - 2 * HALF_EXTENT + 1) as u32;
    let span_y: u32 = (height - 2 * HALF_EXTENT + 1) as u32;
    let mut tries: u32 = 0;
    while tries < SPAWN_ATTEMPTS
        invariant
            2 * (FREE_ZONE + HALF_EXTENT) < width <= DIM_LIMIT,
            2 * (FREE_ZONE + HALF_EXTENT) < height <= DIM_LIMIT,
            cx == width as int / 2,
            cy == height as int / 2,
            span_x == width - 2 * HALF_EXTENT + 1,
            span_y == height - 2 * HALF_EXTENT + 1,
        decreases SPAWN_ATTEMPTS - tries,
    {
        let x: i64 = HALF_EXTENT + (random_below(span_x) as i64);
        let y: i64 = HALF_EXTENT + (random_below(span_y) as i64);
        let dx: i64 = x - cx;
        let dy: i64 = y - cy;
        proof {
            assert(dx * dx <= 1_000_000_000 * 1_000_000_000 && dx * dx >= 0) by (nonlinear_arith)
                requires
                    -1_000_000_000 <= dx <= 1_000_000_000,
            ;
            assert(dy * dy <= 1_000_000_000 * 1_000_000_000 && dy * dy >= 0) by (nonlinear_arith)
                requires
                    -1_000_000_000 <= dy <= 1_000_000_000,
            ;
        }
        if dx * dx + dy * dy > FREE_ZONE * FREE_ZONE {
            return (x, y);
        }
        tries = tries + 1;
    }
    // The near corner: both offsets from the center are at least the
    // free-zone radius, so their squares alone already exceed it.
    proof {
        assert(cx - HALF_EXTENT >= FREE_ZONE);
        assert(cy - HALF_EXTENT >= FREE_ZONE);
        assert((HALF_EXTENT - cx as int) * (HALF_EXTENT - cx as int) >= FREE_ZONE * FREE_ZONE)
            by (nonlinear_arith)
            requires
                cx as int - HALF_EXTENT >= FREE_ZONE > 0,
        ;
        assert((HALF_EXTENT - cy as int) * (HALF_EXTENT - cy as int) >= FREE_ZONE * FREE_ZONE)
            by (nonlinear_arith)
            requires
                cy as int - HALF_EXTENT >= FREE_ZONE > 0,
        ;
    }
    (HALF_EXTENT, HALF_EXTENT)
}

/// A direction sampled by normalizing two uniform non-negative draws to the
/// fixed-point unit scale; both components lie in [0, DIR_SCALE] and at least
/// one is positive. A double zero draw is nudged to a rightward unit.
fn random_direction() -> (d: (i64, i64))
    ensures
        0 <= d.0 <= DIR_SCALE,
        0 <= d.1 <= DIR_SCALE,
        !(d.0 == 0 && d.1 == 0),
{
    let mut a: u32 = random_below(1001);
    let b: u32 = random_below(1001);
    if a == 0 && b == 0 {
        a = 1000;
    }
    let a64: u64 = a as u64;
    let b64: u64 = b as u64;
    proof {
        assert(a64 * a64 <= 1000 * 1000) by (nonlinear_arith)
            requires
                a64 <= 1000,
        ;
        assert(b64 * b64 <= 1000 * 1000) by (nonlinear_arith)
            requires
                b64 <= 1000,
        ;
    }
    let len: u64 = isqrt(a64 * a64 + b64 * b64);
    proof {
        // the root of a sum of squares is no smaller than either side
        assert(len >= a64) by (nonlinear_arith)
            requires
                len * len <= a64 * a64 + b64 * b64,
                a64 * a64 + b64 * b64 < (len + 1) * (len + 1),
                a64 >= 0,
                b64 * b64 >= 0,
                len >= 0,
        ;
        assert(len >= b64) by (nonlinear_arith)
            requires
                len * len <= a64 * a64 + b64 * b64,
                a64 * a64 + b64 * b64 < (len + 1) * (len + 1),
                b64 >= 0,
                a64 * a64 >= 0,
                len >= 0,
        ;
        assert(len >= 1);
        assert(a64 * 1000 <= 1000 * 1000) by (nonlinear_arith)
            requires
                a64 <= 1000,
        ;
        assert(b64 * 1000 <= 1000 * 1000) by (nonlinear_arith)
            requires
                b64 <= 1000,
        ;
        assert(a64 * 1000 / (len as int) <= 1000) by (nonlinear_arith)
            requires
                1 <= len,
                a64 <= len,
        ;
        assert(b64 * 1000 / (len as int) <= 1000) by (nonlinear_arith)
            requires
                1 <= len,
                b64 <= len,
        ;
    }
    let dx: u64 = a64 * 1000 / len;
    let dy: u64 = b64 * 1000 / len;
    if dx == 0 && dy == 0 {
        // cannot happen for draws on this scale; kept as a plain guarantee
        (DIR_SCALE, 0)
    } else {
        (dx as i64, dy as i64)
    }
}

/// Spawner: adds `count` objects of `kind`, each at a random position inside
/// the window inset by a half extent and strictly outside the free zone
/// around the window center, each with a random direction and the fixed
/// collider radius, each under a fresh id. Existing objects are untouched.
pub fn initialize_automovers(state: &mut GameState, kind: Kind, count: u32)
    requires
        2 * (FREE_ZONE + HALF_EXTENT) < old(state).width <= DIM_LIMIT,
        2 * (FREE_ZONE + HALF_EXTENT) < old(state).height <= DIM_LIMIT,
        old(state).next_id + count <= u64::MAX,
        unique_ids(old(state).objects@),
        ids_below(old(state).objects@, old(state).next_id),
    ensures
        final(state).objects@.len() == old(state).objects@.len() + count,
        forall|i: int|
            0 <= i < old(state).objects@.len() ==> final(state).objects@[i] == old(
                state,
            ).objects@[i],
        forall|i: int|
            old(state).objects@.len() <= i < final(state).objects@.len() ==> spawned_ok(
                #[trigger] final(state).objects@[i],
                kind,
                old(state).width as int,
                old(state).height as int,
            ),
        forall|i: int|
            old(state).objects@.len() <= i < final(state).objects@.len()
                ==> (#[trigger] final(state).objects@[i]).id == old(state).next_id + (i - old(
                state,
            ).objects@.len()),
        final(state).next_id == old(state).next_id + count,
        unique_ids(final(state).objects@),
        ids_below(final(state).objects@, final(state).next_id),
        movers_wf(old(state).objects@) ==> movers_wf(final(state).objects@),
        positions_bounded(old(state).objects@, DIM_LIMIT as int) ==> positions_bounded(
            final(state).objects@,
            DIM_LIMIT as int,
        ),
        *final(state) == (GameState {
            objects: final(state).objects,
            next_id: final(state).next_id,
            ..*old(state)
        }),
{
    let width = state.width;
    let height = state.height;
    let mut k: u32 = 0;
    while k < count
        invariant
            width == state.width,
            height == state.height,
            2 * (FREE_ZONE + HALF_EXTENT) < width <= DIM_LIMIT,
            2 * (FREE_ZONE + HALF_EXTENT) < height <= DIM_LIMIT,
            old(state).next_id + count <= u64::MAX,
            0 <= k <= count,
            state.next_id == old(state).next_id + k,
            state.objects@.len() == old(state).objects@.len() + k,
            unique_ids(old(state).objects@),
            ids_below(old(state).objects@, old(state).next_id),
            forall|i: int|
                0 <= i < old(state).objects@.len() ==> state.objects@[i] == old(
                    state,
                ).objects@[i],
            forall|i: int|
                old(state).objects@.len() <= i < state.objects@.len() ==> spawned_ok(
                    #[trigger] state.objects@[i],
                    kind,
                    width as int,
                    height as int,
                ),
            forall|i: int|
                old(state).objects@.len() <= i < state.objects@.len()
                    ==> (#[trigger] state.objects@[i]).id == old(state).next_id + (i - old(
                    state,
                ).objects@.len()),
            *state == (GameState {
                objects: state.objects,
                next_id: state.next_id,
                ..*old(state)
            }),
        decreases count - k,
    {
        let (x, y) = random_spawn_position(width, height);
        let (dir_x, dir_y) = random_direction();
        let id = state.next_id;
        let o = AutoMover { id, kind, x, y, dir_x, dir_y, radius: COLLIDER_RADIUS };
        state.objects.push(o);
        state.next_id = state.next_id + 1;
        k = k + 1;
    }
    proof {
        assert(unique_ids(state.objects@)) by {
            assert forall|i: int, j: int|
                0 <= i < j < state.objects@.len() implies (#[trigger] state.objects@[i].id)
                != (#[trigger] state.objects@[j].id) by {
                let base = old(state).objects@.len() as int;
                if i < base && j >= base {
                    assert(state.objects@[i].id < old(state).next_id);
                    assert(state.objects@[j].id >= old(state).next_id);
                }
            }
        }
        assert(ids_below(state.objects@, state.next_id));
        if movers_wf(old(state).objects@) {
            assert forall|i: int| 0 <= i < state.objects@.len() implies mover_wf(
                #[trigger] state.objects@[i],
            ) by {
                if i >= old(state).objects@.len() {
                    assert(spawned_ok(state.objects@[i], kind, width as int, height as int));
                }
            }
        }
        if positions_bounded(old(state).objects@, DIM_LIMIT as int) {
            assert forall|i: int|
                0 <= i < state.objects@.len() implies -DIM_LIMIT <= (
                #[trigger] state.objects@[i]).x <= DIM_LIMIT && -DIM_LIMIT <= state.objects@[i].y
                <= DIM_LIMIT by {
                if i >= old(state).objects@.len() {
                    assert(spawned_ok(state.objects@[i], kind, width as int, height as int));
                }
            }
        }
    }
}

/// What holds of every freshly spawned object: the given kind, the fixed
/// collider radius, a well-formed direction, a position inside the window
/// inset by a half extent, and — the spawn invariant — a position whose
/// distance from the window center strictly exceeds the free-zone radius.
pub open spec fn spawned_ok(o: AutoMover, kind: Kind, width: int, height: int) -> bool {
    &&& o.kind == kind
    &&& o.radius == COLLIDER_RADIUS
    &&& mover_wf(o)
    &&& 0 <= o.dir_x <= DIR_SCALE
    &&& 0 <= o.dir_y <= DIR_SCALE
    &&& !(o.dir_x == 0 && o.dir_y == 0)
    &&& HALF_EXTENT <= o.x <= width - HALF_EXTENT
    &&& HALF_EXTENT <= o.y <= height - HALF_EXTENT
    &&& (o.x - width / 2) * (o.x - width / 2) + (o.y - height / 2) * (o.y - height / 2)
        > FREE_ZONE * FREE_ZONE
}

} // verus!
