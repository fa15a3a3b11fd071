//! Entity spawning: per-class periodic tickers, the Bernoulli trial that
//! decides each spawn, and the offline backlog that seeds the starfield
//! before the first frame.

use vstd::prelude::*;

use crate::config::STAR_SPAWN_PERIOD_MS;
use crate::entity::Sprite;
use crate::rng::draw_in_range;

verus! {

/// Has a periodic ticker that last fired at `last` come due at `now`?
pub fn ticker_due(now: u32, last: u32, period: u32) -> (r: bool)
    requires
        last <= now,
    ensures
        r == (now - last >= period),
{
    now - last >= period
}

/// The outcome of one spawn trial: a uniform draw strictly below the
/// threshold spawns one entity at `(x, y)`.
pub open spec fn spec_spawn(trial: int, threshold: int, x: int, y: int) -> Option<Sprite> {
    if trial < threshold {
        Some(Sprite { x: x as i32, y: y as i32 })
    } else {
        None
    }
}

/// Decide one spawn from an already-drawn trial and position: a pure
/// function of its arguments, so injected draws give reproducible spawns.
pub fn spawn_from_draw(trial: i32, threshold: i32, x: i32, y: i32) -> (r: Option<Sprite>)
    ensures
        r == spec_spawn(trial as int, threshold as int, x as int, y as int),
{
    if trial < threshold {
        Some(Sprite::new(x, y))
    } else {
        None
    }
}

/// How many spawn periods fit into the time an entity of the class needs to
/// cross the field height at the display's refresh rate.
pub open spec fn spec_backlog_generations(height: int, speed: int, refresh_rate: int) -> int {
    height / speed * 1000 / refresh_rate / (STAR_SPAWN_PERIOD_MS as int)
}

pub fn star_backlog_generations(height: i32, speed: i32, refresh_rate: i32) -> (g: i32)
    requires
        0 <= height <= 1000000,
        1 <= speed,
        1 <= refresh_rate,
    ensures
        g == spec_backlog_generations(height as int, speed as int, refresh_rate as int),
        0 <= g <= 4000000,
{
    let frames = height / speed;
    let ms = frames * 1000 / refresh_rate;
    ms / STAR_SPAWN_PERIOD_MS as i32
}

/// Seed one star class with a synthetic backlog: run the class's spawn trial
/// once per period that fits into the time the starfield needs to scroll
/// across the field, placing each spawned star at a uniform position anywhere
/// on the field, since it is already mid-flight. Every star lies within
/// `[0, width)` by `[0, height)`, and there is at most one per period.
pub fn populate_stars(spawn_percent: i32, width: i32, height: i32, starfield_speed: i32, refresh_rate: i32) -> (stars: Vec<Sprite>)
    requires
        0 <= spawn_percent <= crate::config::TRIAL_SCALE,
        1 <= width <= 100000,
        1 <= height <= 100000,
        1 <= starfield_speed,
        1 <= refresh_rate,
    ensures
        stars@.len() <= spec_backlog_generations(
            height as int,
            starfield_speed as int,
            refresh_rate as int,
        ),
        forall|i: int|
            0 <= i < stars@.len() ==> 0 <= (#[trigger] stars@[i]).x < width && 0 <= stars@[i].y
                < height,
{
    let generations = star_backlog_generations(height, starfield_speed, refresh_rate);
    let mut stars: Vec<Sprite> = Vec::new();
    let mut k: i32 = 0;
    while k < generations
        invariant
            0 <= k <= generations,
            1 <= width <= 100000,
            1 <= height <= 100000,
            0 <= spawn_percent <= crate::config::TRIAL_SCALE,
            stars@.len() <= k,
            forall|i: int|
                0 <= i < stars@.len() ==> 0 <= (#[trigger] stars@[i]).x < width && 0 <= stars@[i].y
                    < height,
        decreases generations - k,
    {
        let trial = draw_in_range(0, crate::config::TRIAL_SCALE);
        if trial < spawn_percent {
            let x = draw_in_range(0, width);
            let y = draw_in_range(0, height);
            stars.push(Sprite::new(x, y));
        }
        k = k + 1;
    }
    stars
}

} // verus!
