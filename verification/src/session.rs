//! Session evaluation (win and loss) and the per-frame step that runs every
//! phase in its fixed order: movement, boundary reflection, player input,
//! collision detection, scoring and lives, object removal, then win/loss.

use vstd::prelude::*;
use crate::collision::colliding_ids;
use crate::collision::detect_collisions_system;
use crate::collision::lemma_colliding_ids_len;
use crate::collision::lemma_surviving_preserves;
use crate::collision::remove_entity_on_collission_system;
use crate::collision::surviving;
use crate::effects::score_points_system;
use crate::effects::speed_up_on_score;
use crate::effects::take_lives_system;
use crate::effects::update_lives_ui;
use crate::effects::update_score_ui;
use crate::motion::automoving_system;
use crate::motion::bounce_automovers_system;
use crate::motion::bounced_seq;
use crate::motion::moved_seq;
use crate::player::move_santa_system;
use crate::player::moved_axis;
use crate::player::moved_axis_plus_first;
use crate::player::player_delta;
use crate::world::AutoMover;
use crate::world::GameState;
use crate::world::KeyState;
use crate::world::Kind;
use crate::world::SessionStatus;
use crate::world::DT_LIMIT;
use crate::world::POS_LIMIT;
use crate::world::SPEED_INCREMENT;
use crate::world::SPEED_LIMIT;
use crate::world::ids_below;
use crate::world::movers_wf;
use crate::world::positions_bounded;
use crate::world::unique_ids;

verus! {

/// How many presents are still in the world.
pub open spec fn presents_remaining(objs: Seq<AutoMover>) -> nat
    decreases objs.len(),
{
    if objs.len() == 0 {
        0
    } else {
        presents_remaining(objs.drop_last()) + if objs.last().kind == Kind::Present {
            1nat
        } else {
            0nat
        }
    }
}

/// Counts the presents still in the world.
pub fn count_presents(objects: &Vec<AutoMover>) -> (c: usize)
    ensures
        c == presents_remaining(objects@),
{
    let n = objects.len();
    let mut c: usize = 0;
    let mut i: usize = 0;
    proof {
        assert(objects@.take(0) =~= Seq::<AutoMover>::empty());
    }
    while i < n
        invariant
            n == objects@.len(),
            0 <= i <= n,
            c <= i,
            c == presents_remaining(objects@.take(i as int)),
        decreases n - i,
    {
        proof {
            assert(objects@.take(i + 1).drop_last() =~= objects@.take(i as int));
            assert(objects@.take(i + 1).last() == objects@[i as int]);
        }
        if matches!(objects[i].kind, Kind::Present) {
            c = c + 1;
        }
        i = i + 1;
    }
    proof {
        assert(objects@.take(n as int) =~= objects@);
    }
    c
}

/// Win rule: the session is won as soon as no present is left. On any other
/// frame this changes nothing at all.
pub fn win_system(state: &mut GameState)
    ensures
        final(state).status == if presents_remaining(old(state).objects@) == 0 {
            SessionStatus::Won
        } else {
            old(state).status
        },
        *final(state) == (GameState { status: final(state).status, ..*old(state) }),
        presents_remaining(old(state).objects@) != 0 ==> *final(state) == *old(state),
{
    let c = count_presents(&state.objects);
    if c == 0 {
        state.status = SessionStatus::Won;
    }
}

/// Loss rule: the session is lost as soon as lives reach exactly zero. On any
/// other frame this changes nothing at all.
pub fn loose_system(state: &mut GameState)
    ensures
        final(state).status == if old(state).lives == 0 {
            SessionStatus::Lost
        } else {
            old(state).status
        },
        *final(state) == (GameState { status: final(state).status, ..*old(state) }),
        old(state).lives != 0 ==> *final(state) == *old(state),
{
    if state.lives == 0 {
        state.status = SessionStatus::Lost;
    }
}

/// The message printed when the session ends; none while it runs.
pub fn outcome_message(status: SessionStatus) -> (m: Option<&'static str>)
    ensures
        status == SessionStatus::Won ==> (m matches Some(t) && t@ == "You win!"@),
        status == SessionStatus::Lost ==> (m matches Some(t) && t@ == "You loose!"@),
        status == SessionStatus::Running ==> m is None,
{
    match status {
        SessionStatus::Won => Some("You win!"),
        SessionStatus::Lost => Some("You loose!"),
        SessionStatus::Running => None,
    }
}

/// The objects after the movement and boundary phases of a step.
pub open spec fn step_objs_bounced(s: GameState, dt_ms: int) -> Seq<AutoMover> {
    bounced_seq(moved_seq(s.objects@, s.speed as int, dt_ms), s.width as int, s.height as int)
}

/// The player's x after the input phase of a step.
pub open spec fn step_player_x(s: GameState, keys: KeyState, dt_ms: int) -> int {
    moved_axis(
        s.player_x as int,
        player_delta(s.speed as int, dt_ms),
        s.width as int,
        keys.left(),
        keys.right(),
    )
}

/// The player's y after the input phase of a step.
pub open spec fn step_player_y(s: GameState, keys: KeyState, dt_ms: int) -> int {
    moved_axis_plus_first(
        s.player_y as int,
        player_delta(s.speed as int, dt_ms),
        s.height as int,
        keys.up(),
        keys.down(),
    )
}

/// The presents the player touches during a step, after movement and input.
pub open spec fn step_present_hits(s: GameState, keys: KeyState, dt_ms: int) -> Seq<u64> {
    colliding_ids(
        step_objs_bounced(s, dt_ms),
        Kind::Present,
        step_player_x(s, keys, dt_ms),
        step_player_y(s, keys, dt_ms),
        s.player_radius as int,
    )
}

/// The snowflakes the player touches during a step, after movement and input.
pub open spec fn step_snowflake_hits(s: GameState, keys: KeyState, dt_ms: int) -> Seq<u64> {
    colliding_ids(
        step_objs_bounced(s, dt_ms),
        Kind::Snowflake,
        step_player_x(s, keys, dt_ms),
        step_player_y(s, keys, dt_ms),
        s.player_radius as int,
    )
}

/// The objects that survive a step: everything the player touched is gone.
pub open spec fn step_surviving_objs(s: GameState, keys: KeyState, dt_ms: int) -> Seq<AutoMover> {
    surviving(
        surviving(step_objs_bounced(s, dt_ms), step_present_hits(s, keys, dt_ms)),
        step_snowflake_hits(s, keys, dt_ms),
    )
}

/// The lives left after a step: one per touched snowflake, never below zero.
pub open spec fn step_lives(s: GameState, keys: KeyState, dt_ms: int) -> int {
    if s.lives >= step_snowflake_hits(s, keys, dt_ms).len() {
        s.lives - step_snowflake_hits(s, keys, dt_ms).len()
    } else {
        0
    }
}

/// One frame of the session, all phases in their fixed order. On a frame
/// where the session is over, nothing happens. Otherwise: every auto-mover
/// advances and bounces, the player moves by the held keys and stays inside
/// the window, each touched present is worth a point and a speed increment,
/// each touched snowflake costs a life (never below zero) and a heart icon,
/// every touched object is removed, the score label tracks the score, and
/// the session ends won exactly when no present is left, or else lost
/// exactly when no life is left. Score never falls, lives never rise, speed
/// never slows.
pub fn step(state: &mut GameState, keys: &KeyState, dt_ms: i64)
    requires
        old(state).wf(),
        0 <= dt_ms <= DT_LIMIT,
        positions_bounded(old(state).objects@, POS_LIMIT as int),
        old(state).score + old(state).objects@.len() <= u32::MAX,
        old(state).speed + SPEED_INCREMENT * old(state).objects@.len() <= SPEED_LIMIT,
    ensures
        final(state).wf(),
        old(state).status != SessionStatus::Running ==> *final(state) == *old(state),
        final(state).score >= old(state).score,
        final(state).lives <= old(state).lives,
        final(state).speed >= old(state).speed,
        final(state).width == old(state).width,
        final(state).height == old(state).height,
        final(state).player_radius == old(state).player_radius,
        final(state).next_id == old(state).next_id,
        old(state).status == SessionStatus::Running ==> {
            &&& final(state).player_x == step_player_x(*old(state), *keys, dt_ms as int)
            &&& final(state).player_y == step_player_y(*old(state), *keys, dt_ms as int)
            &&& final(state).objects@ == step_surviving_objs(*old(state), *keys, dt_ms as int)
            &&& final(state).score == old(state).score + step_present_hits(
                *old(state),
                *keys,
                dt_ms as int,
            ).len()
            &&& final(state).speed == old(state).speed + SPEED_INCREMENT * step_present_hits(
                *old(state),
                *keys,
                dt_ms as int,
            ).len()
            &&& final(state).lives == step_lives(*old(state), *keys, dt_ms as int)
            &&& final(state).hearts == final(state).lives
            &&& final(state).status == if presents_remaining(final(state).objects@) == 0 {
                SessionStatus::Won
            } else if final(state).lives == 0 {
                SessionStatus::Lost
            } else {
                SessionStatus::Running
            }
        },
{
    if !matches!(state.status, SessionStatus::Running) {
        return ;
    }
    let ghost s0 = *state;
    proof {
        assert(SPEED_INCREMENT * s0.objects@.len() >= 0) by (nonlinear_arith)
            requires
                s0.objects@.len() >= 0,
        ;
    }
    automoving_system(state, dt_ms);
    let ghost s1 = *state;
    bounce_automovers_system(state);
    let ghost s2 = *state;
    proof {
        assert(s2.objects@ == step_objs_bounced(s0, dt_ms as int));
        // ids and kinds are untouched by movement and bouncing
        assert forall|i: int| 0 <= i < s2.objects@.len() implies (#[trigger] s2.objects@[i]).id
            == s0.objects@[i].id && s2.objects@[i].kind == s0.objects@[i].kind by {
            assert(s1.objects@[i] == crate::motion::moved_mover(
                s0.objects@[i],
                s0.speed as int,
                dt_ms as int,
            ));
        }
        assert(unique_ids(s2.objects@));
        assert(ids_below(s2.objects@, s0.next_id));
    }
    move_santa_system(state, keys, dt_ms);
    let ghost s3 = *state;
    detect_collisions_system(state, Kind::Present);
    let ghost s4 = *state;
    proof {
        let pids = step_present_hits(s0, *keys, dt_ms as int);
        assert(crate::world::present_event_ids(s4.present_events@) =~= Seq::<u64>::empty() + pids);
        assert(Seq::<u64>::empty() + pids =~= pids);
        assert(s4.present_events@.len() == pids.len());
        lemma_colliding_ids_len(
            s2.objects@,
            Kind::Present,
            s3.player_x as int,
            s3.player_y as int,
            s3.player_radius as int,
        );
        assert(pids.len() <= s0.objects@.len());
    }
    detect_collisions_system(state, Kind::Snowflake);
    let ghost s5 = *state;
    proof {
        let sids = step_snowflake_hits(s0, *keys, dt_ms as int);
        assert(crate::world::snowflake_event_ids(s5.snowflake_events@) =~= Seq::<u64>::empty()
            + sids);
        assert(Seq::<u64>::empty() + sids =~= sids);
        assert(s5.snowflake_events@.len() == sids.len());
        lemma_colliding_ids_len(
            s2.objects@,
            Kind::Snowflake,
            s3.player_x as int,
            s3.player_y as int,
            s3.player_radius as int,
        );
        let pids = step_present_hits(s0, *keys, dt_ms as int);
        assert(SPEED_INCREMENT * pids.len() <= SPEED_INCREMENT * s0.objects@.len())
            by (nonlinear_arith)
            requires
                0 <= pids.len() <= s0.objects@.len(),
        ;
        assert(SPEED_INCREMENT * pids.len() >= 0) by (nonlinear_arith)
            requires
                pids.len() >= 0,
        ;
    }
    score_points_system(state);
    update_score_ui(state);
    take_lives_system(state);
    update_lives_ui(state);
    speed_up_on_score(state);
    let ghost s6 = *state;
    remove_entity_on_collission_system(state, Kind::Present);
    let ghost s7 = *state;
    remove_entity_on_collission_system(state, Kind::Snowflake);
    let ghost s8 = *state;
    proof {
        let pids = step_present_hits(s0, *keys, dt_ms as int);
        let sids = step_snowflake_hits(s0, *keys, dt_ms as int);
        assert(s7.objects@ == surviving(s2.objects@, pids));
        assert(s8.objects@ == step_surviving_objs(s0, *keys, dt_ms as int));
        lemma_surviving_preserves(s2.objects@, pids, s0.next_id);
        lemma_surviving_preserves(s7.objects@, sids, s0.next_id);
        assert(movers_wf(s8.objects@));
        assert(unique_ids(s8.objects@));
        assert(ids_below(s8.objects@, s0.next_id));
    }
    win_system(state);
    if matches!(state.status, SessionStatus::Running) {
        loose_system(state);
    }
}

} // verus!
