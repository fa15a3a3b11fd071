use starfighter::driver::{Game, GameState, InputState, TickDraws};
use starfighter::entity::Sprite;

fn no_input() -> InputState {
    InputState { left: false, right: false, up: false, down: false, fire: false, quit: false }
}

fn idle_draws() -> TickDraws {
    // Trials at the top of the scale never succeed, so nothing spawns.
    TickDraws {
        monster_trial: 99,
        monster_x: 400,
        big_star_trial: 99,
        big_star_x: 0,
        little_star_trial: 99,
        little_star_x: 0,
    }
}

fn fresh(now: u32) -> Game {
    Game::new(now, Vec::new(), Vec::new())
}

#[test]
fn new_game_starts_at_the_fixed_position() {
    let g = fresh(17);
    assert_eq!(g.state, GameState::Running);
    assert_eq!((g.player.x, g.player.y), (400, 450));
    assert!(g.monsters.is_empty());
    assert!(g.missiles.is_empty());
    assert_eq!(g.spawn_ticker, 17);
    assert_eq!(g.star_ticker, 17);
    assert_eq!(g.last_fire, 17);
}

#[test]
fn quit_terminates_and_touches_nothing_else() {
    let mut g = fresh(0);
    g.monsters.push(Sprite::new(300, 100));
    let mut input = no_input();
    input.quit = true;
    g.tick_with_draws(16, &input, &idle_draws());
    assert_eq!(g.state, GameState::Terminated);
    assert_eq!((g.monsters[0].x, g.monsters[0].y), (300, 100));
    assert_eq!(g.spawn_ticker, 0);
}

#[test]
fn terminated_game_never_runs_again() {
    let mut g = fresh(0);
    let mut input = no_input();
    input.quit = true;
    g.tick_with_draws(16, &input, &idle_draws());
    let before = (g.player.x, g.player.y);
    let mut fire = no_input();
    fire.fire = true;
    g.tick_with_draws(1000, &fire, &idle_draws());
    assert_eq!(g.state, GameState::Terminated);
    assert_eq!((g.player.x, g.player.y), before);
    assert!(g.missiles.is_empty());
}

#[test]
fn monster_spawns_only_when_the_period_elapsed() {
    let mut draws = idle_draws();
    draws.monster_trial = 0;
    draws.monster_x = 300;
    let mut g = fresh(0);
    g.tick_with_draws(499, &no_input(), &draws);
    assert!(g.monsters.is_empty());
    assert_eq!(g.spawn_ticker, 0);
    // One tick later the ticker is due: the monster appears half a sprite
    // above the top edge, then moves down 3 in the same tick.
    g.tick_with_draws(500, &no_input(), &draws);
    assert_eq!(g.monsters.len(), 1);
    assert_eq!((g.monsters[0].x, g.monsters[0].y), (300, -22));
    assert_eq!(g.spawn_ticker, 500);
}

#[test]
fn failed_trial_spawns_no_monster() {
    let mut draws = idle_draws();
    draws.monster_trial = 50;
    let mut g = fresh(0);
    g.tick_with_draws(500, &no_input(), &draws);
    assert!(g.monsters.is_empty());
    // The ticker still reset.
    assert_eq!(g.spawn_ticker, 500);
}

#[test]
fn stars_spawn_at_the_top_on_their_own_period() {
    let mut draws = idle_draws();
    draws.big_star_trial = 9;
    draws.big_star_x = 100;
    draws.little_star_trial = 24;
    draws.little_star_x = 200;
    let mut g = fresh(0);
    g.tick_with_draws(249, &no_input(), &draws);
    assert!(g.big_stars.is_empty());
    assert!(g.little_stars.is_empty());
    g.tick_with_draws(250, &no_input(), &draws);
    // Spawned at y = 0, then moved by the class speed in the same tick.
    assert_eq!(g.big_stars.len(), 1);
    assert_eq!((g.big_stars[0].x, g.big_stars[0].y), (100, 2));
    assert_eq!(g.little_stars.len(), 1);
    assert_eq!((g.little_stars[0].x, g.little_stars[0].y), (200, 1));
    assert_eq!(g.star_ticker, 250);
}

#[test]
fn failed_star_trials_spawn_nothing() {
    let mut draws = idle_draws();
    draws.big_star_trial = 10;
    draws.little_star_trial = 25;
    let mut g = fresh(0);
    g.tick_with_draws(250, &no_input(), &draws);
    assert!(g.big_stars.is_empty());
    assert!(g.little_stars.is_empty());
}

#[test]
fn player_movement_is_clamped_to_the_field() {
    let mut g = fresh(0);
    let mut left = no_input();
    left.left = true;
    for k in 0..100 {
        g.tick_with_draws(k, &left, &idle_draws());
    }
    assert_eq!(g.player.x, 7);
    let mut right = no_input();
    right.right = true;
    for k in 100..300 {
        g.tick_with_draws(k, &right, &idle_draws());
    }
    assert_eq!(g.player.x, 793);
    let mut down = no_input();
    down.down = true;
    for k in 300..400 {
        g.tick_with_draws(k, &down, &idle_draws());
    }
    assert_eq!(g.player.y, 583);
    let mut up = no_input();
    up.up = true;
    for k in 400..600 {
        g.tick_with_draws(k, &up, &idle_draws());
    }
    assert_eq!(g.player.y, 17);
}

#[test]
fn missile_fires_at_the_moved_player_position() {
    let mut g = fresh(0);
    let mut input = no_input();
    input.right = true;
    input.fire = true;
    g.tick_with_draws(300, &input, &idle_draws());
    // The player moved to 405 first; the missile spawned there and climbed 7.
    assert_eq!((g.player.x, g.player.y), (405, 450));
    assert_eq!(g.missiles.len(), 1);
    assert_eq!((g.missiles[0].x, g.missiles[0].y), (405, 443));
    assert_eq!(g.last_fire, 300);
}

#[test]
fn fire_held_respects_the_cooldown() {
    let mut g = fresh(0);
    let mut input = no_input();
    input.fire = true;
    let mut now: u32 = 0;
    while now < 800 {
        now += 16;
        g.tick_with_draws(now, &input, &idle_draws());
    }
    // Fires happened at 256, 512 and 768: never more than one per 250 ms
    // of elapsed clock, however fast the ticks come.
    assert_eq!(g.missiles.len(), 3);
    assert!(g.missiles.len() as u32 <= 800 / 250 + 1);
    assert_eq!(g.last_fire, 768);
}

#[test]
fn descending_monster_ends_the_session() {
    let mut g = fresh(0);
    g.monsters.push(Sprite::new(400, -12));
    let mut now: u32 = 0;
    for _ in 0..154 {
        now += 1;
        g.tick_with_draws(now, &no_input(), &idle_draws());
    }
    // Descending 3 per tick from -12, the monster's box reaches the
    // player's box at (400, 450) well within 154 ticks.
    assert_eq!(g.state, GameState::Terminated);
}

#[test]
fn monster_overlapping_player_position_collides() {
    let mut g = fresh(0);
    // A monster sitting exactly on the player's center this tick.
    g.monsters.push(Sprite::new(400, 447));
    g.tick_with_draws(1, &no_input(), &idle_draws());
    assert_eq!(g.state, GameState::Terminated);
}

#[test]
fn monsters_leaving_the_field_are_culled() {
    let mut g = fresh(0);
    g.monsters.push(Sprite::new(100, 648));
    g.tick_with_draws(1, &no_input(), &idle_draws());
    // Moved to 651, strictly past 600 + 50: culled.
    assert!(g.monsters.is_empty());
    let mut g = fresh(0);
    g.monsters.push(Sprite::new(100, 646));
    g.tick_with_draws(1, &no_input(), &idle_draws());
    // Moved to 649, within the margin: retained.
    assert_eq!(g.monsters.len(), 1);
}

#[test]
fn identical_draws_give_identical_runs() {
    let stars = vec![Sprite::new(5, 5), Sprite::new(700, 300)];
    let mut a = Game::new(0, stars.clone(), stars.clone());
    let mut b = Game::new(0, stars.clone(), stars.clone());
    a.monsters.push(Sprite::new(300, 0));
    b.monsters.push(Sprite::new(300, 0));
    let mut input = no_input();
    input.fire = true;
    input.left = true;
    let mut now: u32 = 0;
    for k in 0..40u32 {
        now += 16;
        let draws = TickDraws {
            monster_trial: ((k * 37) % 100) as i32,
            monster_x: (15 + (k * 91) % 770) as i32,
            big_star_trial: ((k * 13) % 100) as i32,
            big_star_x: ((k * 53) % 800) as i32,
            little_star_trial: ((k * 29) % 100) as i32,
            little_star_x: ((k * 71) % 800) as i32,
        };
        a.tick_with_draws(now, &input, &draws);
        b.tick_with_draws(now, &input, &draws);
    }
    assert_eq!(a.state, b.state);
    assert_eq!((a.player.x, a.player.y), (b.player.x, b.player.y));
    assert_eq!(a.monsters, b.monsters);
    assert_eq!(a.missiles, b.missiles);
    assert_eq!(a.big_stars, b.big_stars);
    assert_eq!(a.little_stars, b.little_stars);
    assert_eq!(a.spawn_ticker, b.spawn_ticker);
    assert_eq!(a.star_ticker, b.star_ticker);
    assert_eq!(a.last_fire, b.last_fire);
}

#[test]
fn random_ticks_keep_entities_inside_their_bounds() {
    let mut g = fresh(0);
    let mut now: u32 = 0;
    for _ in 0..600 {
        now += 16;
        g.tick(now, &no_input());
        for m in &g.monsters {
            assert!(15 <= m.x && m.x < 785);
            assert!(-25 <= m.y && m.y <= 650);
        }
        for s in &g.big_stars {
            assert!(0 <= s.x && s.x < 800);
            assert!(0 <= s.y && s.y <= 615);
        }
        for s in &g.little_stars {
            assert!(0 <= s.x && s.x < 800);
            assert!(0 <= s.y && s.y <= 605);
        }
    }
}
