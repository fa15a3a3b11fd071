//! Fixed configuration constants of the simulation: field dimensions, sprite
//! extents, speeds, spawn periods and probabilities, and coordinate bounds.

use vstd::prelude::*;

verus! {

/// Side of one pixel-art block, in pixels; star sprites and cull margins are
/// measured in blocks.
pub const BLOCK_SIZE: i32 = 5;

/// Playfield width in pixels.
pub const FIELD_WIDTH: i32 = 800;

/// Playfield height in pixels.
pub const FIELD_HEIGHT: i32 = 600;

/// Player sprite extent: 3 by 7 blocks.
pub const PLAYER_WIDTH: i32 = 3 * BLOCK_SIZE;
pub const PLAYER_HEIGHT: i32 = 7 * BLOCK_SIZE;

/// Monster sprite extent: 3 by 5 blocks at double scale.
pub const MONSTER_WIDTH: i32 = 2 * 3 * BLOCK_SIZE;
pub const MONSTER_HEIGHT: i32 = 2 * 5 * BLOCK_SIZE;

/// Missile sprite extent: 1 by 3 blocks.
pub const MISSILE_WIDTH: i32 = BLOCK_SIZE;
pub const MISSILE_HEIGHT: i32 = 3 * BLOCK_SIZE;

/// Pixels the player moves per tick while a directional key is held.
pub const PLAYER_SPEED: i32 = 5;

/// Pixels a missile climbs per tick.
pub const MISSILE_SPEED: i32 = 7;

/// Pixels a monster descends per tick.
pub const MONSTER_SPEED: i32 = 3;

/// Pixels the star layers descend per tick.
pub const BIG_STAR_SPEED: i32 = 2;
pub const LITTLE_STAR_SPEED: i32 = 1;

/// Minimum elapsed milliseconds between two successful missile fires.
pub const FIRE_COOLDOWN_MS: u32 = 250;

/// Milliseconds between two monster spawn periods.
pub const MONSTER_SPAWN_PERIOD_MS: u32 = 500;

/// Milliseconds between two star spawn periods.
pub const STAR_SPAWN_PERIOD_MS: u32 = 250;

/// Spawn trials are uniform draws in `[0, TRIAL_SCALE)`; a draw strictly below
/// a class's threshold spawns one entity of that class this period.
pub const TRIAL_SCALE: i32 = 100;
pub const MONSTER_SPAWN_PERCENT: i32 = 50;
pub const BIG_STAR_SPAWN_PERCENT: i32 = 10;
pub const LITTLE_STAR_SPAWN_PERCENT: i32 = 25;

/// Bounds the player's center is clamped to: half a player sprite in from
/// each field edge.
pub const PLAYER_MIN_X: i32 = 7;
pub const PLAYER_MAX_X: i32 = FIELD_WIDTH - 7;
pub const PLAYER_MIN_Y: i32 = 17;
pub const PLAYER_MAX_Y: i32 = FIELD_HEIGHT - 17;

/// A monster spawns half a monster sprite above the top edge.
pub const MONSTER_START_Y: i32 = -25;

/// Every live entity keeps both coordinates within this bound: generous
/// enough for the whole field plus every cull margin, and small enough that a
/// per-tick move can never overflow `i32`.
pub const COORD_BOUND: i32 = 100000;

} // verus!
