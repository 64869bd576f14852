//! The gameplay effects of collision events: scoring, speed-up, life loss,
//! and the UI resources that mirror score and lives.

use vstd::prelude::*;
use crate::text::score_text;
use crate::text::score_text_spec;
use crate::world::GameState;
use crate::world::SPEED_INCREMENT;
use crate::world::SPEED_LIMIT;

verus! {

/// Scoring rule: each pending present-collision event is worth one point.
pub fn score_points_system(state: &mut GameState)
    requires
        old(state).score + old(state).present_events@.len() <= u32::MAX,
    ensures
        final(state).score == old(state).score + old(state).present_events@.len(),
        *final(state) == (GameState { score: final(state).score, ..*old(state) }),
{
    let n = state.present_events.len();
    let mut k: usize = 0;
    while k < n
        invariant
            n == state.present_events@.len(),
            0 <= k <= n,
            old(state).score + n <= u32::MAX,
            state.score == old(state).score + k,
            *state == (GameState { score: state.score, ..*old(state) }),
        decreases n - k,
    {
        state.score = state.score + 1;
        k = k + 1;
    }
}

/// Speed rule: each collected present makes the whole game faster by a fixed
/// increment, snowflakes included, since the speed scalar is shared.
pub fn speed_up_on_score(state: &mut GameState)
    requires
        old(state).speed + SPEED_INCREMENT * old(state).present_events@.len() <= SPEED_LIMIT,
        0 <= old(state).speed,
    ensures
        final(state).speed == old(state).speed + SPEED_INCREMENT
            * old(state).present_events@.len(),
        *final(state) == (GameState { speed: final(state).speed, ..*old(state) }),
{
    let n = state.present_events.len();
    let mut k: usize = 0;
    while k < n
        invariant
            n == state.present_events@.len(),
            0 <= k <= n,
            0 <= old(state).speed,
            old(state).speed + SPEED_INCREMENT * n <= SPEED_LIMIT,
            state.speed == old(state).speed + SPEED_INCREMENT * k,
            *state == (GameState { speed: state.speed, ..*old(state) }),
        decreases n - k,
    {
        proof {
            assert(SPEED_INCREMENT * (k + 1) <= SPEED_INCREMENT * n) by (nonlinear_arith)
                requires
                    k + 1 <= n,
            ;
            assert(SPEED_INCREMENT * (k + 1) == SPEED_INCREMENT * k + SPEED_INCREMENT)
                by (nonlinear_arith);
            assert(SPEED_INCREMENT * k >= 0) by (nonlinear_arith)
                requires
                    k >= 0,
            ;
        }
        state.speed = state.speed + SPEED_INCREMENT;
        k = k + 1;
    }
}

/// Lives rule: each pending snowflake-collision event costs one life, but
/// lives never go below zero — a hit at zero lives leaves the counter alone.
pub fn take_lives_system(state: &mut GameState)
    ensures
        final(state).lives == if old(state).lives >= old(state).snowflake_events@.len() {
            old(state).lives - old(state).snowflake_events@.len()
        } else {
            0
        },
        final(state).lives <= old(state).lives,
        *final(state) == (GameState { lives: final(state).lives, ..*old(state) }),
{
    let n = state.snowflake_events.len();
    let mut k: usize = 0;
    while k < n
        invariant
            n == state.snowflake_events@.len(),
            0 <= k <= n,
            state.lives == if old(state).lives >= k {
                old(state).lives - k
            } else {
                0
            },
            *state == (GameState { lives: state.lives, ..*old(state) }),
        decreases n - k,
    {
        if state.lives > 0 {
            state.lives = state.lives - 1;
        }
        k = k + 1;
    }
}

/// UI rule: the score label always reads "Score: {score}".
pub fn update_score_ui(state: &mut GameState)
    ensures
        final(state).score_text@ == score_text_spec(old(state).score as nat),
        *final(state) == (GameState { score_text: final(state).score_text, ..*old(state) }),
{
    state.score_text = score_text(state.score);
}

/// UI rule: every heart icon above the current lives count is removed, so
/// the heart row never shows more hearts than lives.
pub fn update_lives_ui(state: &mut GameState)
    ensures
        final(state).hearts == if old(state).hearts <= old(state).lives {
            old(state).hearts
        } else {
            old(state).lives
        },
        *final(state) == (GameState { hearts: final(state).hearts, ..*old(state) }),
{
    if state.hearts > state.lives {
        state.hearts = state.lives;
    }
}

} // verus!
