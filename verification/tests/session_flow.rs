use santa_game::session::step;
use santa_game::world::AutoMover;
use santa_game::world::GameState;
use santa_game::world::KeyState;
use santa_game::world::Kind;
use santa_game::world::SessionStatus;

fn mover(id: u64, kind: Kind, x: i64, y: i64, dir_x: i64, dir_y: i64) -> AutoMover {
    AutoMover { id, kind, x, y, dir_x, dir_y, radius: 16 }
}

fn base_state() -> GameState {
    GameState::new(2000, 1000)
}

#[test]
fn collecting_a_present_scores_and_speeds_up() {
    let mut s = base_state();
    // one present on the player, one present and one snowflake far away
    s.objects.push(mover(0, Kind::Present, 1000, 500, 0, 1000));
    s.objects.push(mover(1, Kind::Present, 1800, 800, 0, 1000));
    s.objects.push(mover(2, Kind::Snowflake, 200, 200, 0, 1000));
    s.next_id = 3;
    let keys = KeyState::default();
    step(&mut s, &keys, 0);
    assert_eq!(s.score, 1);
    assert_eq!(s.speed, 150); // exactly one increment of 50
    assert_eq!(s.score_text.as_str(), "Score: 1");
    assert_eq!(s.lives, 3);
    assert_eq!(s.hearts, 3);
    // the collected present is gone, the others remain
    assert_eq!(s.objects.len(), 2);
    assert!(s.objects.iter().all(|o| o.id != 0));
    assert!(matches!(s.status, SessionStatus::Running));
}

#[test]
fn hitting_a_snowflake_costs_a_life_and_a_heart() {
    let mut s = base_state();
    s.objects.push(mover(0, Kind::Snowflake, 1000, 500, 0, 1000));
    s.objects.push(mover(1, Kind::Present, 1800, 800, 0, 1000));
    s.next_id = 2;
    let keys = KeyState::default();
    step(&mut s, &keys, 0);
    assert_eq!(s.lives, 2);
    assert_eq!(s.hearts, 2);
    assert_eq!(s.score, 0);
    assert_eq!(s.speed, 100);
    assert_eq!(s.objects.len(), 1);
    assert!(s.objects.iter().all(|o| o.id != 0));
    assert!(matches!(s.status, SessionStatus::Running));
}

#[test]
fn three_snowflake_hits_in_sequence_lose_the_session() {
    let mut s = base_state();
    // three snowflakes rolling rightwards onto the player, 100 units apart,
    // and a present drifting far away so the session is not won meanwhile
    s.objects.push(mover(0, Kind::Snowflake, 900, 500, 1000, 0));
    s.objects.push(mover(1, Kind::Snowflake, 800, 500, 1000, 0));
    s.objects.push(mover(2, Kind::Snowflake, 700, 500, 1000, 0));
    s.objects.push(mover(3, Kind::Present, 1800, 800, 0, -1000));
    s.next_id = 4;
    let keys = KeyState::default();

    step(&mut s, &keys, 1000);
    assert_eq!(s.lives, 2);
    assert_eq!(s.hearts, 2);
    assert_eq!(s.objects.len(), 3);
    assert!(matches!(s.status, SessionStatus::Running));

    step(&mut s, &keys, 1000);
    assert_eq!(s.lives, 1);
    assert!(matches!(s.status, SessionStatus::Running));

    step(&mut s, &keys, 1000);
    assert_eq!(s.lives, 0);
    assert_eq!(s.hearts, 0);
    assert!(matches!(s.status, SessionStatus::Lost));
    // the untouched present survived; only the snowflakes are gone
    assert_eq!(s.objects.len(), 1);
    assert!(matches!(s.objects[0].kind, Kind::Present));
}

#[test]
fn collecting_all_presents_wins_with_full_score() {
    let mut s = base_state();
    for id in 0..10 {
        s.objects.push(mover(id, Kind::Present, 1000, 500, 0, 1000));
    }
    s.next_id = 10;
    let keys = KeyState::default();
    step(&mut s, &keys, 0);
    assert_eq!(s.score, 10);
    assert_eq!(s.score_text.as_str(), "Score: 10");
    assert_eq!(s.speed, 600); // 100 + 10 * 50
    assert_eq!(s.lives, 3);
    assert_eq!(s.objects.len(), 0);
    assert!(matches!(s.status, SessionStatus::Won));
}

#[test]
fn uneventful_step_changes_no_counter() {
    let mut s = base_state();
    s.objects.push(mover(0, Kind::Present, 1800, 800, 0, 1000));
    s.objects.push(mover(1, Kind::Snowflake, 200, 200, 0, 1000));
    s.next_id = 2;
    let keys = KeyState::default();
    step(&mut s, &keys, 0);
    // neither the win nor the loss condition newly holds: nothing changes
    assert_eq!(s.score, 0);
    assert_eq!(s.lives, 3);
    assert_eq!(s.hearts, 3);
    assert_eq!(s.speed, 100);
    assert_eq!(s.score_text.as_str(), "Score: 0");
    assert_eq!(s.objects.len(), 2);
    assert!(matches!(s.status, SessionStatus::Running));
}

#[test]
fn ended_session_processes_no_further_steps() {
    let mut s = base_state();
    s.objects.push(mover(0, Kind::Snowflake, 1000, 500, 0, 1000));
    s.next_id = 1;
    s.status = SessionStatus::Won;
    let keys = KeyState::default();
    step(&mut s, &keys, 1000);
    // the colliding snowflake is ignored: the session is already over
    assert_eq!(s.lives, 3);
    assert_eq!(s.objects.len(), 1);
    assert_eq!(s.objects[0].x, 1000);
    assert!(matches!(s.status, SessionStatus::Won));
}

#[test]
fn win_checked_before_loss() {
    // the last present and the last life fall in the same step: win prevails
    let mut s = base_state();
    s.lives = 1;
    s.hearts = 1;
    s.objects.push(mover(0, Kind::Present, 1000, 500, 0, 1000));
    s.objects.push(mover(1, Kind::Snowflake, 1000, 500, 0, 1000));
    s.next_id = 2;
    let keys = KeyState::default();
    step(&mut s, &keys, 0);
    assert_eq!(s.score, 1);
    assert_eq!(s.lives, 0);
    assert!(matches!(s.status, SessionStatus::Won));
}
