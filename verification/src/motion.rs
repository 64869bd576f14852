//! Movement integration and edge bouncing for the auto-moving objects.

use vstd::prelude::*;
use crate::world::AutoMover;
use crate::world::GameState;
use crate::world::DIR_SCALE;
use crate::world::DIM_LIMIT;
use crate::world::DT_LIMIT;
use crate::world::HALF_EXTENT;
use crate::world::POS_HARD_LIMIT;
use crate::world::POS_LIMIT;
use crate::world::SPEED_LIMIT;
use crate::world::movers_wf;
use crate::world::positions_bounded;

verus! {

/// How far an object moves on one axis in one step: the fixed-point
/// direction component times the shared speed times the elapsed
/// milliseconds, scaled back down (truncated toward zero).
pub open spec fn displacement(dir: int, speed: int, dt_ms: int) -> int {
    if dir >= 0 {
        (dir * speed * dt_ms) / (DIR_SCALE * 1000)
    } else {
        -(((-dir) * speed * dt_ms) / (DIR_SCALE * 1000))
    }
}

/// One object after one movement step.
pub open spec fn moved_mover(o: AutoMover, speed: int, dt_ms: int) -> AutoMover {
    AutoMover {
        x: (o.x + displacement(o.dir_x as int, speed, dt_ms)) as i64,
        y: (o.y + displacement(o.dir_y as int, speed, dt_ms)) as i64,
        ..o
    }
}

/// All objects after one movement step.
pub open spec fn moved_seq(objs: Seq<AutoMover>, speed: int, dt_ms: int) -> Seq<AutoMover> {
    objs.map_values(|o: AutoMover| moved_mover(o, speed, dt_ms))
}

/// The object has reached (or passed) the left or right window edge.
pub open spec fn exits_x(o: AutoMover, width: int) -> bool {
    o.x - HALF_EXTENT <= 0 || o.x + HALF_EXTENT >= width
}

/// The object has reached (or passed) the top or bottom window edge.
pub open spec fn exits_y(o: AutoMover, height: int) -> bool {
    o.y - HALF_EXTENT <= 0 || o.y + HALF_EXTENT >= height
}

/// One object after the boundary check: each direction component whose axis
/// reached an edge is negated (both can flip in the same step), the rest of
/// the object is untouched.
pub open spec fn bounced_mover(o: AutoMover, width: int, height: int) -> AutoMover {
    AutoMover {
        dir_x: if exits_x(o, width) {
            (-o.dir_x) as i64
        } else {
            o.dir_x
        },
        dir_y: if exits_y(o, height) {
            (-o.dir_y) as i64
        } else {
            o.dir_y
        },
        ..o
    }
}

/// All objects after the boundary check.
pub open spec fn bounced_seq(objs: Seq<AutoMover>, width: int, height: int) -> Seq<AutoMover> {
    objs.map_values(|o: AutoMover| bounced_mover(o, width, height))
}

/// The single-step displacement is within `POS_LIMIT` in magnitude.
pub proof fn lemma_displacement_bound(dir: int, speed: int, dt_ms: int)
    requires
        -DIR_SCALE <= dir <= DIR_SCALE,
        1 <= speed <= SPEED_LIMIT,
        0 <= dt_ms <= DT_LIMIT,
    ensures
        -POS_LIMIT <= displacement(dir, speed, dt_ms) <= POS_LIMIT,
{
    if dir >= 0 {
        assert(dir * speed * dt_ms <= DIR_SCALE * SPEED_LIMIT * DT_LIMIT) by (nonlinear_arith)
            requires
                0 <= dir <= DIR_SCALE,
                1 <= speed <= SPEED_LIMIT,
                0 <= dt_ms <= DT_LIMIT,
        ;
        assert(dir * speed * dt_ms >= 0) by (nonlinear_arith)
            requires
                dir >= 0 && speed >= 0 && dt_ms >= 0,
        ;
    } else {
        assert((-dir) * speed * dt_ms <= DIR_SCALE * SPEED_LIMIT * DT_LIMIT) by (nonlinear_arith)
            requires
                0 <= -dir <= DIR_SCALE,
                1 <= speed <= SPEED_LIMIT,
                0 <= dt_ms <= DT_LIMIT,
        ;
        assert((-dir) * speed * dt_ms >= 0) by (nonlinear_arith)
            requires
                -dir >= 0 && speed >= 0 && dt_ms >= 0,
        ;
    }
}

/// Moves one object; the building block of the movement phase.
fn move_one(o: &AutoMover, speed: i64, dt_ms: i64) -> (m: AutoMover)
    requires
        -DIR_SCALE <= o.dir_x <= DIR_SCALE,
        -DIR_SCALE <= o.dir_y <= DIR_SCALE,
        1 <= speed <= SPEED_LIMIT,
        0 <= dt_ms <= DT_LIMIT,
        -POS_LIMIT <= o.x <= POS_LIMIT,
        -POS_LIMIT <= o.y <= POS_LIMIT,
    ensures
        m == moved_mover(*o, speed as int, dt_ms as int),
        -POS_HARD_LIMIT <= m.x <= POS_HARD_LIMIT,
        -POS_HARD_LIMIT <= m.y <= POS_HARD_LIMIT,
{
    proof {
        lemma_displacement_bound(o.dir_x as int, speed as int, dt_ms as int);
        lemma_displacement_bound(o.dir_y as int, speed as int, dt_ms as int);
    }
    let dx = axis_displacement(o.dir_x, speed, dt_ms);
    let dy = axis_displacement(o.dir_y, speed, dt_ms);
    AutoMover { x: o.x + dx, y: o.y + dy, ..*o }
}

/// Computes `displacement` executably, using unsigned arithmetic for the
/// scaled product.
fn axis_displacement(dir: i64, speed: i64, dt_ms: i64) -> (d: i64)
    requires
        -DIR_SCALE <= dir <= DIR_SCALE,
        1 <= speed <= SPEED_LIMIT,
        0 <= dt_ms <= DT_LIMIT,
    ensures
        d == displacement(dir as int, speed as int, dt_ms as int),
{
    let mag: u64 = if dir >= 0 {
        dir as u64
    } else {
        (-dir) as u64
    };
    proof {
        assert(mag * (speed as u64) <= 1000 * 1_000_000_000) by (nonlinear_arith)
            requires
                mag <= 1000,
                (speed as u64) <= 1_000_000_000,
        ;
        assert((mag * (speed as u64)) * (dt_ms as u64) <= 1_000_000_000_000 * 1_000_000)
            by (nonlinear_arith)
            requires
                mag * (speed as u64) <= 1_000_000_000_000,
                (dt_ms as u64) <= 1_000_000,
        ;
    }
    let a: u64 = mag * (speed as u64);
    let num: u64 = a * (dt_ms as u64);
    let q: u64 = num / 1_000_000u64;
    if dir >= 0 {
        q as i64
    } else {
        -(q as i64)
    }
}

/// Movement phase: every auto-mover advances by its direction times the
/// shared speed times the elapsed time. Nothing else changes.
pub fn automoving_system(state: &mut GameState, dt_ms: i64)
    requires
        1 <= old(state).speed <= SPEED_LIMIT,
        0 <= dt_ms <= DT_LIMIT,
        movers_wf(old(state).objects@),
        positions_bounded(old(state).objects@, POS_LIMIT as int),
    ensures
        final(state).objects@ == moved_seq(old(state).objects@, old(state).speed as int, dt_ms as int),
        positions_bounded(final(state).objects@, POS_HARD_LIMIT as int),
        movers_wf(final(state).objects@),
        *final(state) == (GameState { objects: final(state).objects, ..*old(state) }),
{
    let ghost orig = state.objects@;
    let ghost speed0 = state.speed as int;
    let n = state.objects.len();
    let mut moved: Vec<AutoMover> = Vec::new();
    let mut i: usize = 0;
    while i < n
        invariant
            n == orig.len(),
            state.objects@ == orig,
            0 <= i <= n,
            moved@.len() == i,
            state.speed == speed0,
            1 <= speed0 <= SPEED_LIMIT,
            0 <= dt_ms <= DT_LIMIT,
            movers_wf(orig),
            positions_bounded(orig, POS_LIMIT as int),
            forall|j: int| 0 <= j < i ==> moved@[j] == moved_mover(orig[j], speed0, dt_ms as int),
            forall|j: int|
                0 <= j < i ==> -POS_HARD_LIMIT <= (#[trigger] moved@[j]).x <= POS_HARD_LIMIT
                    && -POS_HARD_LIMIT <= moved@[j].y <= POS_HARD_LIMIT,
        decreases n - i,
    {
        let o = state.objects[i];
        let m = move_one(&o, state.speed, dt_ms);
        moved.push(m);
        i = i + 1;
    }
    state.objects = moved;
    proof {
        assert(state.objects@ =~= moved_seq(orig, speed0, dt_ms as int));
    }
}

/// Boundary phase: every auto-mover that reached a window edge on an axis has
/// that direction component negated — an exact sign flip, so the component's
/// magnitude is preserved; everything else is unchanged.
pub fn bounce_automovers_system(state: &mut GameState)
    requires
        2 * HALF_EXTENT <= old(state).width <= DIM_LIMIT,
        2 * HALF_EXTENT <= old(state).height <= DIM_LIMIT,
        movers_wf(old(state).objects@),
        positions_bounded(old(state).objects@, POS_HARD_LIMIT as int),
    ensures
        final(state).objects@ == bounced_seq(
            old(state).objects@,
            old(state).width as int,
            old(state).height as int,
        ),
        movers_wf(final(state).objects@),
        positions_bounded(final(state).objects@, POS_HARD_LIMIT as int),
        *final(state) == (GameState { objects: final(state).objects, ..*old(state) }),
        // An axis that would exit gets its direction negated; the others keep it.
        forall|j: int|
            0 <= j < old(state).objects@.len() ==> {
                let o = #[trigger] old(state).objects@[j];
                let b = final(state).objects@[j];
                &&& b.dir_x == if exits_x(o, old(state).width as int) {
                    -o.dir_x
                } else {
                    o.dir_x as int
                }
                &&& b.dir_y == if exits_y(o, old(state).height as int) {
                    -o.dir_y
                } else {
                    o.dir_y as int
                }
            },
        // The magnitude of each direction component is always preserved.
        forall|j: int|
            0 <= j < old(state).objects@.len() ==> {
                let o = #[trigger] old(state).objects@[j];
                let b = final(state).objects@[j];
                &&& (b.dir_x == o.dir_x || b.dir_x == -o.dir_x)
                &&& (b.dir_y == o.dir_y || b.dir_y == -o.dir_y)
            },
{
    let ghost orig = state.objects@;
    let width = state.width;
    let height = state.height;
    let n = state.objects.len();
    let mut bounced: Vec<AutoMover> = Vec::new();
    let mut i: usize = 0;
    while i < n
        invariant
            n == orig.len(),
            state.objects@ == orig,
            0 <= i <= n,
            bounced@.len() == i,
            width == state.width,
            height == state.height,
            2 * HALF_EXTENT <= width <= DIM_LIMIT,
            2 * HALF_EXTENT <= height <= DIM_LIMIT,
            movers_wf(orig),
            positions_bounded(orig, POS_HARD_LIMIT as int),
            forall|j: int| 0 <= j < i ==> bounced@[j] == bounced_mover(orig[j], width as int, height as int),
        decreases n - i,
    {
        let o = state.objects[i];
        let mut dir_x = o.dir_x;
        let mut dir_y = o.dir_y;
        if o.x - HALF_EXTENT <= 0 || o.x + HALF_EXTENT >= width {
            dir_x = -dir_x;
        }
        if o.y - HALF_EXTENT <= 0 || o.y + HALF_EXTENT >= height {
            dir_y = -dir_y;
        }
        let b = AutoMover { dir_x, dir_y, ..o };
        bounced.push(b);
        i = i + 1;
    }
    state.objects = bounced;
    proof {
        assert(state.objects@ =~= bounced_seq(orig, width as int, height as int));
    }
}

} // verus!
