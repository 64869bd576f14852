//! Player movement from held direction keys, clamped to the window.

use vstd::prelude::*;
use crate::world::GameState;
use crate::world::KeyState;
use crate::world::DIM_LIMIT;
use crate::world::DT_LIMIT;
use crate::world::HALF_EXTENT;
use crate::world::SPEED_LIMIT;

verus! {

/// How far the player moves on one held axis in one step: the shared speed
/// (units per second) times the elapsed milliseconds.
pub open spec fn player_delta(speed: int, dt_ms: int) -> int {
    (speed * dt_ms) / 1000
}

/// One axis move: take the step only if the resulting coordinate stays within
/// the window inset by a half extent; otherwise stay.
pub open spec fn axis_move(pos: int, delta: int, dim: int) -> int {
    if HALF_EXTENT <= pos + delta <= dim - HALF_EXTENT {
        pos + delta
    } else {
        pos
    }
}

/// The player's coordinate on one axis after a step: the negative-direction
/// key applies first, then the positive-direction key, each clamped
/// separately (holding both moves and moves back).
pub open spec fn moved_axis(pos: int, delta: int, dim: int, neg: bool, plus: bool) -> int {
    let p1 = if neg {
        axis_move(pos, -delta, dim)
    } else {
        pos
    };
    if plus {
        axis_move(p1, delta, dim)
    } else {
        p1
    }
}

/// As `moved_axis`, but the positive-direction key applies first — the
/// order in which the vertical keys are read.
pub open spec fn moved_axis_plus_first(pos: int, delta: int, dim: int, plus: bool, neg: bool) -> int {
    let p1 = if plus {
        axis_move(pos, delta, dim)
    } else {
        pos
    };
    if neg {
        axis_move(p1, -delta, dim)
    } else {
        p1
    }
}

/// Executes `axis_move`.
fn axis_move_exec(pos: i64, delta: i64, dim: i64, negate: bool) -> (p: i64)
    requires
        HALF_EXTENT <= pos <= dim - HALF_EXTENT,
        2 * HALF_EXTENT <= dim <= DIM_LIMIT,
        0 <= delta <= 2_000_000_000_000,
    ensures
        p == axis_move(
            pos as int,
            if negate { -(delta as int) } else { delta as int },
            dim as int,
        ),
        HALF_EXTENT <= p <= dim - HALF_EXTENT,
{
    if negate {
        let np = pos - delta;
        if HALF_EXTENT <= np {
            np
        } else {
            pos
        }
    } else {
        let np = pos + delta;
        if np <= dim - HALF_EXTENT {
            np
        } else {
            pos
        }
    }
}

/// Input phase: for each held direction (two key bindings per direction) the
/// player moves by speed times elapsed time on that axis, but only where the
/// result stays within the window inset by a half extent — so a player that
/// starts inside those bounds is still inside them afterwards, whatever keys
/// are held. Diagonal movement applies the full delta on both axes. Nothing
/// but the player position changes.
pub fn move_santa_system(state: &mut GameState, keys: &KeyState, dt_ms: i64)
    requires
        1 <= old(state).speed <= SPEED_LIMIT,
        0 <= dt_ms <= DT_LIMIT,
        2 * HALF_EXTENT <= old(state).width <= DIM_LIMIT,
        2 * HALF_EXTENT <= old(state).height <= DIM_LIMIT,
        HALF_EXTENT <= old(state).player_x <= old(state).width - HALF_EXTENT,
        HALF_EXTENT <= old(state).player_y <= old(state).height - HALF_EXTENT,
    ensures
        final(state).player_x == moved_axis(
            old(state).player_x as int,
            player_delta(old(state).speed as int, dt_ms as int),
            old(state).width as int,
            keys.left(),
            keys.right(),
        ),
        final(state).player_y == moved_axis_plus_first(
            old(state).player_y as int,
            player_delta(old(state).speed as int, dt_ms as int),
            old(state).height as int,
            keys.up(),
            keys.down(),
        ),
        HALF_EXTENT <= final(state).player_x <= final(state).width - HALF_EXTENT,
        HALF_EXTENT <= final(state).player_y <= final(state).height - HALF_EXTENT,
        *final(state) == (GameState {
            player_x: final(state).player_x,
            player_y: final(state).player_y,
            ..*old(state)
        }),
{
    proof {
        assert((state.speed as u64) * (dt_ms as u64) <= 1_000_000_000 * 1_000_000)
            by (nonlinear_arith)
            requires
                (state.speed as u64) <= 1_000_000_000,
                (dt_ms as u64) <= 1_000_000,
        ;
    }
    let delta: i64 = (((state.speed as u64) * (dt_ms as u64)) / 1000u64) as i64;
    if keys.arrow_left || keys.key_j {
        state.player_x = axis_move_exec(state.player_x, delta, state.width, true);
    }
    if keys.arrow_right || keys.key_l {
        state.player_x = axis_move_exec(state.player_x, delta, state.width, false);
    }
    if keys.arrow_up || keys.key_i {
        state.player_y = axis_move_exec(state.player_y, delta, state.height, false);
    }
    if keys.arrow_down || keys.key_k {
        state.player_y = axis_move_exec(state.player_y, delta, state.height, true);
    }
}

} // verus!
