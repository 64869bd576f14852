//! The game's data model: movable objects, the session state, the collision
//! events, and the well-formedness invariants that every frame preserves.

use vstd::prelude::*;
use crate::text::score_text_spec;
use crate::text::score_text;

verus! {

/// Half of an object sprite's side (sprites are 32 units square).
pub const HALF_EXTENT: i64 = 16;

/// Radius around the window center where no auto-mover may spawn.
pub const FREE_ZONE: i64 = 200;

/// Collider radius given to every spawned object and to the player.
pub const COLLIDER_RADIUS: i64 = 16;

/// Speed shared by the player and all auto-movers at session start.
pub const START_SPEED: i64 = 100;

/// Speed gained with each collected present.
pub const SPEED_INCREMENT: i64 = 50;

/// Lives at session start.
pub const START_LIVES: u32 = 3;

/// Denominator of the fixed-point direction components: a direction
/// component of `DIR_SCALE` stands for 1.0.
pub const DIR_SCALE: i64 = 1000;

/// Largest window dimension the arithmetic is sized for.
pub const DIM_LIMIT: i64 = 1_000_000_000;

/// Largest shared speed the arithmetic is sized for.
pub const SPEED_LIMIT: i64 = 1_000_000_000;

/// Largest frame duration, in milliseconds, the arithmetic is sized for.
pub const DT_LIMIT: i64 = 1_000_000;

/// Largest collider radius the arithmetic is sized for.
pub const RADIUS_LIMIT: i64 = 1_000_000;

/// Object positions handed to a step must lie within this bound.
pub const POS_LIMIT: i64 = 1_000_000_000_000;

/// Largest coordinate a single step can produce from a position within
/// `POS_LIMIT`; the collision and bounce arithmetic is sized for it.
pub const POS_HARD_LIMIT: i64 = 2_000_000_000_000;

/// What an auto-moving object is: a present to collect or a snowflake to avoid.
#[derive(Clone, Copy, PartialEq, Eq, Structural, Debug)]
pub enum Kind {
    Present,
    Snowflake,
}

/// Whether the session is still running or has ended.
#[derive(Clone, Copy, PartialEq, Eq, Structural, Debug)]
pub enum SessionStatus {
    Running,
    Won,
    Lost,
}

/// An auto-moving object: a position, a fixed-point direction, a collider
/// radius and a kind tag. `id` identifies it in collision events.
#[derive(Clone, Copy, PartialEq, Eq, Structural, Debug)]
pub struct AutoMover {
    pub id: u64,
    pub kind: Kind,
    pub x: i64,
    pub y: i64,
    pub dir_x: i64,
    pub dir_y: i64,
    pub radius: i64,
}

/// The player touched a present this frame; carries the present's id.
#[derive(Clone, Copy, PartialEq, Eq, Structural, Debug)]
pub struct CollisionWithPresentEvent(pub u64);

impl CollisionWithPresentEvent {
    pub fn new(entity: u64) -> (e: Self)
        ensures
            e.0 == entity,
    {
        CollisionWithPresentEvent(entity)
    }

    pub fn entity(&self) -> (id: u64)
        ensures
            id == self.0,
    {
        self.0
    }
}

/// The player touched a snowflake this frame; carries the snowflake's id.
#[derive(Clone, Copy, PartialEq, Eq, Structural, Debug)]
pub struct CollisionWithSnowflakeEvent(pub u64);

impl CollisionWithSnowflakeEvent {
    pub fn new(entity: u64) -> (e: Self)
        ensures
            e.0 == entity,
    {
        CollisionWithSnowflakeEvent(entity)
    }

    pub fn entity(&self) -> (id: u64)
        ensures
            id == self.0,
    {
        self.0
    }
}

/// Which of the eight direction keys are currently held
/// (arrow keys and the I/J/K/L alternate binding).
#[derive(Clone, Copy, PartialEq, Eq, Structural, Debug)]
pub struct KeyState {
    pub arrow_left: bool,
    pub key_j: bool,
    pub arrow_right: bool,
    pub key_l: bool,
    pub arrow_up: bool,
    pub key_i: bool,
    pub arrow_down: bool,
    pub key_k: bool,
}

impl KeyState {
    pub open spec fn left(self) -> bool {
        self.arrow_left || self.key_j
    }

    pub open spec fn right(self) -> bool {
        self.arrow_right || self.key_l
    }

    pub open spec fn up(self) -> bool {
        self.arrow_up || self.key_i
    }

    pub open spec fn down(self) -> bool {
        self.arrow_down || self.key_k
    }
}

impl Default for KeyState {
    /// No key held.
    fn default() -> (k: Self)
        ensures
            !k.left() && !k.right() && !k.up() && !k.down(),
    {
        KeyState {
            arrow_left: false,
            key_j: false,
            arrow_right: false,
            key_l: false,
            arrow_up: false,
            key_i: false,
            arrow_down: false,
            key_k: false,
        }
    }
}

/// The sprite asset shown for each kind of auto-mover.
pub fn sprite_path(kind: Kind) -> (p: &'static str)
    ensures
        kind == Kind::Present ==> p@ == "present.png"@,
        kind == Kind::Snowflake ==> p@ == "snowflake.png"@,
{
    match kind {
        Kind::Present => "present.png",
        Kind::Snowflake => "snowflake.png",
    }
}

/// The sprite asset shown for the player.
pub fn player_sprite_path() -> (p: &'static str)
    ensures
        p@ == "santa.png"@,
{
    "santa.png"
}

/// The image shown for one remaining life.
pub fn heart_sprite_path() -> (p: &'static str)
    ensures
        p@ == "heart.png"@,
{
    "heart.png"
}

/// Direction components and radius of one object are within the sizes the
/// arithmetic is designed for.
pub open spec fn mover_wf(o: AutoMover) -> bool {
    &&& -DIR_SCALE <= o.dir_x <= DIR_SCALE
    &&& -DIR_SCALE <= o.dir_y <= DIR_SCALE
    &&& 0 <= o.radius <= RADIUS_LIMIT
}

pub open spec fn movers_wf(objs: Seq<AutoMover>) -> bool {
    forall|i: int| 0 <= i < objs.len() ==> mover_wf(#[trigger] objs[i])
}

/// No two objects share an id.
pub open spec fn unique_ids(objs: Seq<AutoMover>) -> bool {
    forall|i: int, j: int|
        0 <= i < j < objs.len() ==> (#[trigger] objs[i].id) != (#[trigger] objs[j].id)
}

/// Every object id was handed out before `bound`.
pub open spec fn ids_below(objs: Seq<AutoMover>, bound: u64) -> bool {
    forall|i: int| 0 <= i < objs.len() ==> (#[trigger] objs[i].id) < bound
}

/// Every object position lies within `limit` of the origin on both axes.
pub open spec fn positions_bounded(objs: Seq<AutoMover>, limit: int) -> bool {
    forall|i: int|
        0 <= i < objs.len() ==> -limit <= (#[trigger] objs[i]).x <= limit && -limit <= objs[i].y
            <= limit
}

/// The ids carried by a queue of present-collision events.
pub open spec fn present_event_ids(es: Seq<CollisionWithPresentEvent>) -> Seq<u64> {
    es.map_values(|e: CollisionWithPresentEvent| e.0)
}

/// The ids carried by a queue of snowflake-collision events.
pub open spec fn snowflake_event_ids(es: Seq<CollisionWithSnowflakeEvent>) -> Seq<u64> {
    es.map_values(|e: CollisionWithSnowflakeEvent| e.0)
}

/// The whole session: window, player, objects, counters and event queues.
pub struct GameState {
    pub width: i64,
    pub height: i64,
    pub player_x: i64,
    pub player_y: i64,
    pub player_radius: i64,
    pub objects: Vec<AutoMover>,
    pub next_id: u64,
    pub score: u32,
    pub lives: u32,
    pub speed: i64,
    pub hearts: u32,
    pub score_text: String,
    pub status: SessionStatus,
    pub present_events: Vec<CollisionWithPresentEvent>,
    pub snowflake_events: Vec<CollisionWithSnowflakeEvent>,
}

impl GameState {
    /// Holds between frames: the player is inside the window inset by a half
    /// extent, speed is positive, objects are well formed with distinct ids,
    /// the heart row shows exactly the remaining lives, the score label shows
    /// the score, and the event queues are drained.
    pub open spec fn wf(self) -> bool {
        &&& 2 * HALF_EXTENT <= self.width <= DIM_LIMIT
        &&& 2 * HALF_EXTENT <= self.height <= DIM_LIMIT
        &&& HALF_EXTENT <= self.player_x <= self.width - HALF_EXTENT
        &&& HALF_EXTENT <= self.player_y <= self.height - HALF_EXTENT
        &&& 0 <= self.player_radius <= RADIUS_LIMIT
        &&& 1 <= self.speed
        &&& movers_wf(self.objects@)
        &&& unique_ids(self.objects@)
        &&& ids_below(self.objects@, self.next_id)
        &&& self.hearts == self.lives
        &&& self.score_text@ == score_text_spec(self.score as nat)
        &&& self.present_events@.len() == 0
        &&& self.snowflake_events@.len() == 0
    }

    /// A fresh session: the player at the window center with the starting
    /// speed, score and lives, no objects yet, the session running.
    pub fn new(width: i64, height: i64) -> (s: GameState)
        requires
            2 * HALF_EXTENT <= width <= DIM_LIMIT,
            2 * HALF_EXTENT <= height <= DIM_LIMIT,
        ensures
            s.wf(),
            s.width == width,
            s.height == height,
            s.player_x == width as int / 2,
            s.player_y == height as int / 2,
            s.player_radius == COLLIDER_RADIUS,
            s.objects@.len() == 0,
            s.next_id == 0,
            s.score == 0,
            s.lives == START_LIVES,
            s.speed == START_SPEED,
            s.hearts == START_LIVES,
            s.status == SessionStatus::Running,
    {
        let half_w = ((width as u64) / 2) as i64;
        let half_h = ((height as u64) / 2) as i64;
        GameState {
            width,
            height,
            player_x: half_w,
            player_y: half_h,
            player_radius: COLLIDER_RADIUS,
            objects: Vec::new(),
            next_id: 0,
            score: 0,
            lives: START_LIVES,
            speed: START_SPEED,
            hearts: START_LIVES,
            score_text: score_text(0),
            status: SessionStatus::Running,
            present_events: Vec::new(),
            snowflake_events: Vec::new(),
        }
    }
}

} // verus!
