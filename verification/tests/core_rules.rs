use santa_game::collision::detect_collisions_system;
use santa_game::effects::score_points_system;
use santa_game::effects::speed_up_on_score;
use santa_game::effects::take_lives_system;
use santa_game::effects::update_lives_ui;
use santa_game::motion::automoving_system;
use santa_game::motion::bounce_automovers_system;
use santa_game::player::move_santa_system;
use santa_game::session::outcome_message;
use santa_game::spawn::initialize_automovers;
use santa_game::spawn::isqrt;
use santa_game::text::score_text;
use santa_game::text::u32_to_string;
use santa_game::world::AutoMover;
use santa_game::world::CollisionWithPresentEvent;
use santa_game::world::CollisionWithSnowflakeEvent;
use santa_game::world::GameState;
use santa_game::world::KeyState;
use santa_game::world::Kind;
use santa_game::world::SessionStatus;

fn mover(id: u64, kind: Kind, x: i64, y: i64, dir_x: i64, dir_y: i64) -> AutoMover {
    AutoMover { id, kind, x, y, dir_x, dir_y, radius: 16 }
}

fn base_state() -> GameState {
    // 2000 x 1000 window, player at the center (1000, 500)
    GameState::new(2000, 1000)
}

#[test]
fn new_session_fields() {
    let s = base_state();
    assert_eq!(s.player_x, 1000);
    assert_eq!(s.player_y, 500);
    assert_eq!(s.score, 0);
    assert_eq!(s.lives, 3);
    assert_eq!(s.hearts, 3);
    assert_eq!(s.speed, 100);
    assert_eq!(s.score_text.as_str(), "Score: 0");
    assert!(matches!(s.status, SessionStatus::Running));
    assert!(s.objects.is_empty());
}

#[test]
fn movement_advances_by_direction_speed_time() {
    let mut s = base_state();
    // full-right direction, speed 100 units/s, one second
    s.objects.push(mover(0, Kind::Snowflake, 500, 400, 1000, 0));
    s.next_id = 1;
    automoving_system(&mut s, 1000);
    assert_eq!(s.objects[0].x, 600);
    assert_eq!(s.objects[0].y, 400);
    // diagonal fixed-point direction moves each axis by its share
    let mut s2 = base_state();
    s2.objects.push(mover(0, Kind::Present, 500, 400, 707, -707));
    s2.next_id = 1;
    automoving_system(&mut s2, 1000);
    assert_eq!(s2.objects[0].x, 570); // 707 * 100 * 1000 / 1_000_000
    assert_eq!(s2.objects[0].y, 330);
}

#[test]
fn bounce_flips_direction_at_edges() {
    let mut s = base_state();
    // at the left edge: x - 16 <= 0
    s.objects.push(mover(0, Kind::Snowflake, 16, 400, -800, 300));
    // at the bottom edge: y - 16 <= 0
    s.objects.push(mover(1, Kind::Snowflake, 900, 10, 250, -400));
    // in a corner: both axes flip in the same step
    s.objects.push(mover(2, Kind::Present, 1990, 995, 600, 600));
    // in the middle: nothing flips
    s.objects.push(mover(3, Kind::Present, 1000, 400, -500, 500));
    s.next_id = 4;
    bounce_automovers_system(&mut s);
    assert_eq!((s.objects[0].dir_x, s.objects[0].dir_y), (800, 300));
    assert_eq!((s.objects[1].dir_x, s.objects[1].dir_y), (250, 400));
    assert_eq!((s.objects[2].dir_x, s.objects[2].dir_y), (-600, -600));
    assert_eq!((s.objects[3].dir_x, s.objects[3].dir_y), (-500, 500));
    // magnitude preserved, positions untouched
    assert_eq!(s.objects[0].x, 16);
    assert_eq!(s.objects[2].x, 1990);
}

#[test]
fn player_moves_and_stays_inside_window() {
    let mut s = base_state();
    let mut keys = KeyState::default();
    keys.arrow_left = true;
    move_santa_system(&mut s, &keys, 1000);
    assert_eq!(s.player_x, 900); // 100 units/s for one second
    assert_eq!(s.player_y, 500);

    // the alternate binding works the same
    let mut s2 = base_state();
    let mut keys2 = KeyState::default();
    keys2.key_i = true;
    keys2.key_l = true;
    move_santa_system(&mut s2, &keys2, 500);
    assert_eq!(s2.player_x, 1050);
    assert_eq!(s2.player_y, 550);

    // at the edge a move that would leave the window is refused
    let mut s3 = base_state();
    s3.player_x = 20;
    let mut keys3 = KeyState::default();
    keys3.arrow_left = true;
    keys3.arrow_down = true;
    s3.player_y = 16;
    move_santa_system(&mut s3, &keys3, 1000);
    assert_eq!(s3.player_x, 20);
    assert_eq!(s3.player_y, 16);
    assert!(s3.player_x >= 16 && s3.player_x <= 2000 - 16);
    assert!(s3.player_y >= 16 && s3.player_y <= 1000 - 16);
}

#[test]
fn collision_threshold_is_1_7_times_combined_radii() {
    // combined radii 32, widened: dist < 54.4, so 54 hits and 55 does not
    let mut s = base_state();
    s.objects.push(mover(0, Kind::Present, 1000 + 54, 500, 500, 500));
    s.objects.push(mover(1, Kind::Present, 1000 + 55, 500, 500, 500));
    s.next_id = 2;
    detect_collisions_system(&mut s, Kind::Present);
    assert_eq!(s.present_events.len(), 1);
    assert_eq!(s.present_events[0].entity(), 0);
    // snowflake detection feeds its own queue
    let mut s2 = base_state();
    s2.objects.push(mover(7, Kind::Snowflake, 1000, 530, 0, 1000));
    s2.next_id = 8;
    detect_collisions_system(&mut s2, Kind::Snowflake);
    assert_eq!(s2.snowflake_events.len(), 1);
    assert_eq!(s2.snowflake_events[0].entity(), 7);
    assert_eq!(s2.present_events.len(), 0);
}

#[test]
fn events_carry_their_entity() {
    let p = CollisionWithPresentEvent::new(42);
    assert_eq!(p.entity(), 42);
    let f = CollisionWithSnowflakeEvent::new(7);
    assert_eq!(f.entity(), 7);
}

#[test]
fn scoring_and_speed_per_present_event() {
    let mut s = base_state();
    s.present_events.push(CollisionWithPresentEvent::new(0));
    s.present_events.push(CollisionWithPresentEvent::new(1));
    score_points_system(&mut s);
    assert_eq!(s.score, 2);
    speed_up_on_score(&mut s);
    assert_eq!(s.speed, 200); // 100 + 2 * 50
}

#[test]
fn lives_clamp_at_zero() {
    let mut s = base_state();
    for id in 0..5 {
        s.snowflake_events.push(CollisionWithSnowflakeEvent::new(id));
    }
    take_lives_system(&mut s);
    assert_eq!(s.lives, 0); // 3 hits consumed the lives, 2 more are no-ops
    update_lives_ui(&mut s);
    assert_eq!(s.hearts, 0);
}

#[test]
fn spawn_keeps_the_free_zone_clear() {
    let mut s = base_state();
    initialize_automovers(&mut s, Kind::Present, 10);
    initialize_automovers(&mut s, Kind::Snowflake, 10);
    assert_eq!(s.objects.len(), 20);
    assert_eq!(s.next_id, 20);
    for (i, o) in s.objects.iter().enumerate() {
        assert_eq!(o.id, i as u64);
        assert_eq!(o.radius, 16);
        if i < 10 {
            assert!(matches!(o.kind, Kind::Present));
        } else {
            assert!(matches!(o.kind, Kind::Snowflake));
        }
        // inside the window, inset by the half extent
        assert!(o.x >= 16 && o.x <= 2000 - 16);
        assert!(o.y >= 16 && o.y <= 1000 - 16);
        // strictly outside the free zone around the center
        let dx = o.x - 1000;
        let dy = o.y - 500;
        assert!(dx * dx + dy * dy > 200 * 200);
        // a usable direction
        assert!(o.dir_x >= 0 && o.dir_x <= 1000);
        assert!(o.dir_y >= 0 && o.dir_y <= 1000);
        assert!(!(o.dir_x == 0 && o.dir_y == 0));
    }
}

#[test]
fn isqrt_exact_values() {
    assert_eq!(isqrt(0), 0);
    assert_eq!(isqrt(1), 1);
    assert_eq!(isqrt(15), 3);
    assert_eq!(isqrt(16), 4);
    assert_eq!(isqrt(2_000_000), 1414);
    assert_eq!(isqrt(0xFFFF_FFFF), 65535);
}

#[test]
fn decimal_rendering() {
    assert_eq!(u32_to_string(0).as_str(), "0");
    assert_eq!(u32_to_string(7).as_str(), "7");
    assert_eq!(u32_to_string(10).as_str(), "10");
    assert_eq!(u32_to_string(305).as_str(), "305");
    assert_eq!(u32_to_string(4294967295).as_str(), "4294967295");
    assert_eq!(score_text(42).as_str(), "Score: 42");
}

#[test]
fn sprite_paths_by_kind() {
    assert_eq!(santa_game::world::sprite_path(Kind::Present), "present.png");
    assert_eq!(santa_game::world::sprite_path(Kind::Snowflake), "snowflake.png");
    assert_eq!(santa_game::world::player_sprite_path(), "santa.png");
    assert_eq!(santa_game::world::heart_sprite_path(), "heart.png");
}

#[test]
fn outcome_messages() {
    assert_eq!(outcome_message(SessionStatus::Won), Some("You win!"));
    assert_eq!(outcome_message(SessionStatus::Lost), Some("You loose!"));
    assert_eq!(outcome_message(SessionStatus::Running), None);
}
