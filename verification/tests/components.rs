use starfighter::collide::{missile_hits_monster, player_hit, resolve_missiles};
use starfighter::cull::cull_past;
use starfighter::entity::Sprite;
use starfighter::motion::translate_y;
use starfighter::spawn::{
    populate_stars, spawn_from_draw, star_backlog_generations, ticker_due,
};

fn sprites(points: &[(i32, i32)]) -> Vec<Sprite> {
    let mut v = Vec::new();
    for &(x, y) in points {
        v.push(Sprite::new(x, y));
    }
    v
}

fn positions(v: &Vec<Sprite>) -> Vec<(i32, i32)> {
    let mut out = Vec::new();
    for s in v {
        out.push((s.x, s.y));
    }
    out
}

#[test]
fn cull_drops_strictly_past_the_bound() {
    // Monster margin: one full sprite height past the bottom edge.
    let mut v = sprites(&[(10, 651), (10, 650), (10, 649), (10, -3), (10, 700)]);
    cull_past(&mut v, 600 + 50);
    assert_eq!(positions(&v), vec![(10, 650), (10, 649), (10, -3)]);
}

#[test]
fn cull_star_margins_are_per_class() {
    // Little stars: one block past the bottom.
    let mut little = sprites(&[(0, 606), (0, 605), (0, 604)]);
    cull_past(&mut little, 600 + 5);
    assert_eq!(positions(&little), vec![(0, 605), (0, 604)]);
    // Big stars: three blocks past the bottom.
    let mut big = sprites(&[(0, 616), (0, 615), (0, 614)]);
    cull_past(&mut big, 600 + 15);
    assert_eq!(positions(&big), vec![(0, 615), (0, 614)]);
}

#[test]
fn cull_twice_is_cull_once() {
    let mut once = sprites(&[(1, 700), (2, 650), (3, 100), (4, 651), (5, 0)]);
    cull_past(&mut once, 650);
    let mut twice = once.clone();
    cull_past(&mut twice, 650);
    assert_eq!(positions(&once), positions(&twice));
}

#[test]
fn translate_moves_every_entity_vertically() {
    let mut v = sprites(&[(10, 20), (30, -5)]);
    translate_y(&mut v, 3);
    assert_eq!(positions(&v), vec![(10, 23), (30, -2)]);
    translate_y(&mut v, -7);
    assert_eq!(positions(&v), vec![(10, 16), (30, -9)]);
}

#[test]
fn missile_reaches_monster_after_seven_ticks() {
    // Fired at the player's position (400, 450), climbing 7 per tick.
    let mut missiles = sprites(&[(400, 450)]);
    for _ in 0..7 {
        translate_y(&mut missiles, -7);
    }
    assert_eq!(positions(&missiles), vec![(400, 401)]);
    // Its box now overlaps a monster box centered at (400, 400), 30 by 50.
    assert!(missile_hits_monster(missiles[0], Sprite::new(400, 400)));
}

#[test]
fn hit_removes_monster_and_missile_same_tick() {
    let mut missiles = sprites(&[(400, 401)]);
    let mut monsters = sprites(&[(400, 400)]);
    resolve_missiles(&mut missiles, &mut monsters);
    assert!(missiles.is_empty());
    assert!(monsters.is_empty());
}

#[test]
fn missile_that_misses_is_retained() {
    let mut missiles = sprites(&[(100, 300)]);
    let mut monsters = sprites(&[(400, 400)]);
    resolve_missiles(&mut missiles, &mut monsters);
    assert_eq!(positions(&missiles), vec![(100, 300)]);
    assert_eq!(positions(&monsters), vec![(400, 400)]);
}

#[test]
fn missile_past_the_top_is_removed() {
    // The missile margin is its own height: retained at the boundary,
    // dropped strictly past it.
    let mut missiles = sprites(&[(100, -16), (200, -15)]);
    let mut monsters = Vec::new();
    resolve_missiles(&mut missiles, &mut monsters);
    assert_eq!(positions(&missiles), vec![(200, -15)]);
}

#[test]
fn one_missile_removes_every_monster_it_overlaps() {
    let mut missiles = sprites(&[(400, 401)]);
    let mut monsters = sprites(&[(400, 400), (401, 402), (100, 100)]);
    resolve_missiles(&mut missiles, &mut monsters);
    assert!(missiles.is_empty());
    assert_eq!(positions(&monsters), vec![(100, 100)]);
}

#[test]
fn later_missile_sees_monsters_left_by_earlier_ones() {
    // The first missile removes the monster; the second, which would have
    // hit the same monster, then survives.
    let mut missiles = sprites(&[(400, 401), (400, 402)]);
    let mut monsters = sprites(&[(400, 400)]);
    resolve_missiles(&mut missiles, &mut monsters);
    assert!(monsters.is_empty());
    assert_eq!(positions(&missiles), vec![(400, 402)]);
}

#[test]
fn no_surviving_missile_overlaps_a_surviving_monster() {
    let mut missiles = sprites(&[(400, 401), (100, 300), (250, 250), (500, -16)]);
    let mut monsters = sprites(&[(400, 400), (250, 260), (700, 500), (90, 305)]);
    resolve_missiles(&mut missiles, &mut monsters);
    for &m in missiles.iter() {
        for &b in monsters.iter() {
            assert!(!missile_hits_monster(m, b));
        }
    }
}

#[test]
fn player_collision_is_detected_post_move() {
    let player = Sprite::new(400, 450);
    assert!(player_hit(player, &sprites(&[(400, 450)])));
    assert!(player_hit(player, &sprites(&[(100, 100), (410, 460)])));
    assert!(!player_hit(player, &sprites(&[(100, 100)])));
    assert!(!player_hit(player, &Vec::new()));
    // Touching boxes do not collide: player box right edge is 408,
    // a monster box starting at x = 408 has its center at 423.
    assert!(!player_hit(player, &sprites(&[(423, 450)])));
    assert!(player_hit(player, &sprites(&[(422, 450)])));
}

#[test]
fn ticker_fires_only_after_a_full_period() {
    assert!(ticker_due(1000, 500, 500));
    assert!(!ticker_due(999, 500, 500));
    assert!(ticker_due(500, 500, 0));
    assert!(!ticker_due(249, 0, 250));
    assert!(ticker_due(250, 0, 250));
}

#[test]
fn spawn_trial_compares_draw_to_threshold() {
    assert_eq!(spawn_from_draw(49, 50, 300, -25), Some(Sprite::new(300, -25)));
    assert_eq!(spawn_from_draw(50, 50, 300, -25), None);
    assert_eq!(spawn_from_draw(9, 10, 4, 0), Some(Sprite::new(4, 0)));
    assert_eq!(spawn_from_draw(10, 10, 4, 0), None);
    assert_eq!(spawn_from_draw(24, 25, 4, 0), Some(Sprite::new(4, 0)));
    assert_eq!(spawn_from_draw(25, 25, 4, 0), None);
}

#[test]
fn backlog_periods_follow_the_crossing_time() {
    // 600 rows at 1 per frame and 60 frames per second: 10 s, forty
    // 250 ms periods.
    assert_eq!(star_backlog_generations(600, 1, 60), 40);
    // Twice the speed halves the crossing time.
    assert_eq!(star_backlog_generations(600, 2, 60), 20);
    assert_eq!(star_backlog_generations(0, 1, 60), 0);
}

#[test]
fn populated_stars_stay_on_the_field() {
    // A certain trial spawns one star per period.
    let stars = populate_stars(100, 5, 600, 1, 60);
    assert_eq!(stars.len(), 40);
    for s in &stars {
        assert!(0 <= s.x && s.x < 5);
        assert!(0 <= s.y && s.y < 600);
    }
    // An impossible trial spawns none.
    let stars = populate_stars(0, 800, 600, 2, 60);
    assert!(stars.is_empty());
}
