//! The simulation driver: a two-state machine (`Running`, `Terminated`) that
//! advances one tick at a time. A tick samples the input flags, spawns
//! entities whose periodic tickers are due, moves the player with clamped
//! bounds, fires a missile subject to the re-fire cooldown, moves missiles,
//! resolves missile/monster hits against the monsters' pre-move positions,
//! moves the monsters and tests them against the player, and finally culls
//! everything that left the field. A terminated driver never runs again.

use vstd::prelude::*;

use crate::collide::monsters_after;
use crate::collide::missiles_after;
use crate::collide::player_overlaps_any;
use crate::collide::player_hit;
use crate::collide::resolve_missiles;
use crate::config::BIG_STAR_SPAWN_PERCENT;
use crate::config::BIG_STAR_SPEED;
use crate::config::BLOCK_SIZE;
use crate::config::COORD_BOUND;
use crate::config::FIELD_HEIGHT;
use crate::config::FIELD_WIDTH;
use crate::config::FIRE_COOLDOWN_MS;
use crate::config::LITTLE_STAR_SPAWN_PERCENT;
use crate::config::LITTLE_STAR_SPEED;
use crate::config::MISSILE_HEIGHT;
use crate::config::MISSILE_SPEED;
use crate::config::MONSTER_HEIGHT;
use crate::config::MONSTER_SPAWN_PERCENT;
use crate::config::MONSTER_SPAWN_PERIOD_MS;
use crate::config::MONSTER_SPEED;
use crate::config::MONSTER_START_Y;
use crate::config::MONSTER_WIDTH;
use crate::config::PLAYER_MAX_X;
use crate::config::PLAYER_MAX_Y;
use crate::config::PLAYER_MIN_X;
use crate::config::PLAYER_MIN_Y;
use crate::config::PLAYER_SPEED;
use crate::config::STAR_SPAWN_PERIOD_MS;
use crate::config::TRIAL_SCALE;
use crate::cull::cull_past;
use crate::cull::kept_below;
use crate::cull::lemma_kept_below_membership;
use crate::entity::Sprite;
use crate::entity::all_in_coord_box;
use crate::entity::in_coord_box;
use crate::motion::shifted_y;
use crate::motion::translate_y;
use crate::rng::draw_in_range;
use crate::spawn::spawn_from_draw;
use crate::spawn::ticker_due;

verus! {

/// The session is either live or over; there is no transition back.
#[derive(Clone, Copy, Debug, PartialEq, Eq, Structural)]
pub enum GameState {
    Running,
    Terminated,
}

/// The input flags sampled once per tick from the caller's key events:
/// press sets a flag, release clears it, independently per key.
#[derive(Clone, Copy, Debug, PartialEq, Eq, Structural)]
pub struct InputState {
    pub left: bool,
    pub right: bool,
    pub up: bool,
    pub down: bool,
    pub fire: bool,
    pub quit: bool,
}

/// The random draws one tick consumes, already taken: one trial and one
/// spawn position per spawn class. Injecting them makes a tick a pure
/// function of its arguments.
#[derive(Clone, Copy, Debug, PartialEq, Eq, Structural)]
pub struct TickDraws {
    pub monster_trial: i32,
    pub monster_x: i32,
    pub big_star_trial: i32,
    pub big_star_x: i32,
    pub little_star_trial: i32,
    pub little_star_x: i32,
}

/// Each trial is a uniform draw in `[0, TRIAL_SCALE)` and each position a
/// uniform draw across the class's spawn range.
pub open spec fn draws_ok(d: TickDraws) -> bool {
    &&& 0 <= d.monster_trial < TRIAL_SCALE
    &&& MONSTER_WIDTH / 2 <= d.monster_x < FIELD_WIDTH - MONSTER_WIDTH / 2
    &&& 0 <= d.big_star_trial < TRIAL_SCALE
    &&& 0 <= d.big_star_x < FIELD_WIDTH
    &&& 0 <= d.little_star_trial < TRIAL_SCALE
    &&& 0 <= d.little_star_x < FIELD_WIDTH
}

/// Every live monster is bounded and has not been culled past the bottom.
pub open spec fn monsters_ok(s: Seq<Sprite>) -> bool {
    forall|i: int|
        0 <= i < s.len() ==> in_coord_box(#[trigger] s[i]) && s[i].y <= FIELD_HEIGHT
            + MONSTER_HEIGHT
}

/// Every live missile is bounded and has not been culled past the top.
pub open spec fn missiles_ok(s: Seq<Sprite>) -> bool {
    forall|i: int|
        0 <= i < s.len() ==> in_coord_box(#[trigger] s[i]) && s[i].y >= -MISSILE_HEIGHT
}

/// Every live star is bounded and has not been culled past the bottom plus
/// its class's margin.
pub open spec fn stars_ok(s: Seq<Sprite>, margin: int) -> bool {
    forall|i: int|
        0 <= i < s.len() ==> in_coord_box(#[trigger] s[i]) && s[i].y <= FIELD_HEIGHT + margin
}

/// The whole state of one session. There is exactly one player; monsters,
/// missiles and the two star layers are held in spawn order.
pub struct Game {
    pub state: GameState,
    pub player: Sprite,
    pub monsters: Vec<Sprite>,
    pub missiles: Vec<Sprite>,
    pub big_stars: Vec<Sprite>,
    pub little_stars: Vec<Sprite>,
    pub spawn_ticker: u32,
    pub star_ticker: u32,
    pub last_fire: u32,
}

impl Game {
    /// The driver's invariant: the player is clamped inside the field, and
    /// every other entity is bounded and within its cull boundary.
    pub open spec fn wf(self) -> bool {
        &&& PLAYER_MIN_X <= self.player.x <= PLAYER_MAX_X
        &&& PLAYER_MIN_Y <= self.player.y <= PLAYER_MAX_Y
        &&& monsters_ok(self.monsters@)
        &&& missiles_ok(self.missiles@)
        &&& stars_ok(self.big_stars@, 3 * BLOCK_SIZE as int)
        &&& stars_ok(self.little_stars@, BLOCK_SIZE as int)
    }
}

/// Everything but the state flag agrees between the two games.
pub open spec fn same_entities(a: Game, b: Game) -> bool {
    &&& a.player == b.player
    &&& a.monsters@ == b.monsters@
    &&& a.missiles@ == b.missiles@
    &&& a.big_stars@ == b.big_stars@
    &&& a.little_stars@ == b.little_stars@
    &&& a.spawn_ticker == b.spawn_ticker
    &&& a.star_ticker == b.star_ticker
    &&& a.last_fire == b.last_fire
}

pub open spec fn games_match(a: Game, b: Game) -> bool {
    a.state == b.state && same_entities(a, b)
}

/// The monster spawn ticker is due at `now`.
pub open spec fn monster_due(g: Game, now: u32) -> bool {
    now - g.spawn_ticker >= MONSTER_SPAWN_PERIOD_MS
}

/// The star spawn ticker is due at `now`.
pub open spec fn star_due(g: Game, now: u32) -> bool {
    now - g.star_ticker >= STAR_SPAWN_PERIOD_MS
}

/// The fire key is held and the cooldown since the last successful fire has
/// elapsed.
pub open spec fn spec_fired(g: Game, now: u32, input: InputState) -> bool {
    input.fire && now - g.last_fire > FIRE_COOLDOWN_MS
}

/// The monsters after the spawn phase: when the ticker is due and the trial
/// succeeds, one monster appears half a sprite above the top edge.
pub open spec fn monsters_spawned(g: Game, now: u32, d: TickDraws) -> Seq<Sprite> {
    if monster_due(g, now) && d.monster_trial < MONSTER_SPAWN_PERCENT {
        g.monsters@.push(Sprite { x: d.monster_x, y: MONSTER_START_Y })
    } else {
        g.monsters@
    }
}

/// The big stars after the spawn phase: a new star appears at the top edge.
pub open spec fn big_stars_spawned(g: Game, now: u32, d: TickDraws) -> Seq<Sprite> {
    if star_due(g, now) && d.big_star_trial < BIG_STAR_SPAWN_PERCENT {
        g.big_stars@.push(Sprite { x: d.big_star_x, y: 0 })
    } else {
        g.big_stars@
    }
}

pub open spec fn little_stars_spawned(g: Game, now: u32, d: TickDraws) -> Seq<Sprite> {
    if star_due(g, now) && d.little_star_trial < LITTLE_STAR_SPAWN_PERCENT {
        g.little_stars@.push(Sprite { x: d.little_star_x, y: 0 })
    } else {
        g.little_stars@
    }
}

/// The player's horizontal position after this tick's input: left is applied
/// before right, each clamped half a sprite in from the field edge.
pub open spec fn player_x_after(x: int, input: InputState) -> int {
    let a = if input.left {
        if x - PLAYER_SPEED > PLAYER_MIN_X {
            x - PLAYER_SPEED
        } else {
            PLAYER_MIN_X as int
        }
    } else {
        x
    };
    if input.right {
        if a + PLAYER_SPEED < PLAYER_MAX_X {
            a + PLAYER_SPEED
        } else {
            PLAYER_MAX_X as int
        }
    } else {
        a
    }
}

/// The player's vertical position after this tick's input: down is applied
/// before up, each clamped half a sprite in from the field edge.
pub open spec fn player_y_after(y: int, input: InputState) -> int {
    let a = if input.down {
        if y + PLAYER_SPEED < PLAYER_MAX_Y {
            y + PLAYER_SPEED
        } else {
            PLAYER_MAX_Y as int
        }
    } else {
        y
    };
    if input.up {
        if a - PLAYER_SPEED > PLAYER_MIN_Y {
            a - PLAYER_SPEED
        } else {
            PLAYER_MIN_Y as int
        }
    } else {
        a
    }
}

pub open spec fn spec_player_after(g: Game, input: InputState) -> Sprite {
    Sprite {
        x: player_x_after(g.player.x as int, input) as i32,
        y: player_y_after(g.player.y as int, input) as i32,
    }
}

/// The missiles after the fire phase: a successful fire appends one missile
/// at the player's freshly moved position.
pub open spec fn missiles_fired(g: Game, now: u32, input: InputState) -> Seq<Sprite> {
    if spec_fired(g, now, input) {
        g.missiles@.push(spec_player_after(g, input))
    } else {
        g.missiles@
    }
}

pub open spec fn missiles_moved(g: Game, now: u32, input: InputState) -> Seq<Sprite> {
    shifted_y(missiles_fired(g, now, input), -(MISSILE_SPEED as int))
}

/// The missiles that survive the tick: moved, then resolved against the
/// monsters' pre-move positions, with the off-field cull folded in.
pub open spec fn spec_missiles_after(g: Game, now: u32, input: InputState, d: TickDraws) -> Seq<
    Sprite,
> {
    missiles_after(missiles_moved(g, now, input), monsters_spawned(g, now, d))
}

pub open spec fn monsters_resolved(g: Game, now: u32, input: InputState, d: TickDraws) -> Seq<
    Sprite,
> {
    monsters_after(missiles_moved(g, now, input), monsters_spawned(g, now, d))
}

pub open spec fn monsters_moved(g: Game, now: u32, input: InputState, d: TickDraws) -> Seq<
    Sprite,
> {
    shifted_y(monsters_resolved(g, now, input, d), MONSTER_SPEED as int)
}

/// Does any monster, after its move, overlap the player this tick?
pub open spec fn spec_player_dead(g: Game, now: u32, input: InputState, d: TickDraws) -> bool {
    player_overlaps_any(spec_player_after(g, input), monsters_moved(g, now, input, d))
}

pub open spec fn spec_monsters_after(g: Game, now: u32, input: InputState, d: TickDraws) -> Seq<
    Sprite,
> {
    kept_below(monsters_moved(g, now, input, d), (FIELD_HEIGHT + MONSTER_HEIGHT) as int)
}

pub open spec fn spec_big_stars_after(g: Game, now: u32, d: TickDraws) -> Seq<Sprite> {
    kept_below(
        shifted_y(big_stars_spawned(g, now, d), BIG_STAR_SPEED as int),
        (FIELD_HEIGHT + 3 * BLOCK_SIZE) as int,
    )
}

pub open spec fn spec_little_stars_after(g: Game, now: u32, d: TickDraws) -> Seq<Sprite> {
    kept_below(
        shifted_y(little_stars_spawned(g, now, d), LITTLE_STAR_SPEED as int),
        (FIELD_HEIGHT + BLOCK_SIZE) as int,
    )
}

/// The whole effect of one tick, given the draws it consumed: a terminated
/// driver does nothing; a quit request terminates and touches nothing else;
/// otherwise every component runs in order and the session ends exactly when
/// a moved monster overlaps the player.
pub open spec fn tick_outcome(
    before: Game,
    after: Game,
    now: u32,
    input: InputState,
    d: TickDraws,
) -> bool {
    &&& draws_ok(d)
    &&& (before.state != GameState::Running ==> games_match(after, before))
    &&& (before.state == GameState::Running && input.quit ==> after.state
        == GameState::Terminated && same_entities(after, before))
    &&& (before.state == GameState::Running && !input.quit ==> {
        &&& after.player == spec_player_after(before, input)
        &&& after.missiles@ == spec_missiles_after(before, now, input, d)
        &&& after.monsters@ == spec_monsters_after(before, now, input, d)
        &&& after.big_stars@ == spec_big_stars_after(before, now, d)
        &&& after.little_stars@ == spec_little_stars_after(before, now, d)
        &&& after.spawn_ticker == (if monster_due(before, now) {
            now
        } else {
            before.spawn_ticker
        })
        &&& after.star_ticker == (if star_due(before, now) {
            now
        } else {
            before.star_ticker
        })
        &&& after.last_fire == (if spec_fired(before, now, input) {
            now
        } else {
            before.last_fire
        })
        &&& after.state == (if spec_player_dead(before, now, input, d) {
            GameState::Terminated
        } else {
            GameState::Running
        })
    })
}

impl Game {
    /// A fresh session: the player at the fixed starting position, no
    /// monsters or missiles, the given pre-seeded star layers, and every
    /// ticker anchored at `now`.
    pub fn new(now: u32, big_stars: Vec<Sprite>, little_stars: Vec<Sprite>) -> (g: Game)
        requires
            stars_ok(big_stars@, 3 * BLOCK_SIZE as int),
            stars_ok(little_stars@, BLOCK_SIZE as int),
        ensures
            g.wf(),
            g.state == GameState::Running,
            g.player.x == FIELD_WIDTH / 2,
            g.player.y == FIELD_HEIGHT / 4 * 3,
            g.monsters@ == Seq::<Sprite>::empty(),
            g.missiles@ == Seq::<Sprite>::empty(),
            g.big_stars@ == big_stars@,
            g.little_stars@ == little_stars@,
            g.spawn_ticker == now,
            g.star_ticker == now,
            g.last_fire == now,
    {
        let g = Game {
            state: GameState::Running,
            player: Sprite::new(FIELD_WIDTH / 2, FIELD_HEIGHT / 4 * 3),
            monsters: Vec::new(),
            missiles: Vec::new(),
            big_stars,
            little_stars,
            spawn_ticker: now,
            star_ticker: now,
            last_fire: now,
        };
        proof {
            assert(g.monsters@ =~= Seq::<Sprite>::empty());
            assert(g.missiles@ =~= Seq::<Sprite>::empty());
        }
        g
    }

    /// One tick of the simulation from already-taken draws. The whole effect
    /// is pinned by `tick_outcome`, so it is a pure function of the old
    /// state, the clock, the input flags and the injected draws.
    #[verifier::rlimit(100)]
    pub fn tick_with_draws(&mut self, now: u32, input: &InputState, d: &TickDraws)
        requires
            old(self).wf(),
            old(self).spawn_ticker <= now,
            old(self).star_ticker <= now,
            old(self).last_fire <= now,
            draws_ok(*d),
        ensures
            final(self).wf(),
            final(self).spawn_ticker <= now,
            final(self).star_ticker <= now,
            final(self).last_fire <= now,
            tick_outcome(*old(self), *final(self), now, *input, *d),
    {
        let ghost g0 = *old(self);
        if !(self.state == GameState::Running) {
            return ;
        }
        if input.quit {
            self.state = GameState::Terminated;
            return ;
        }
        // Spawner: one monster trial per due period.
        if ticker_due(now, self.spawn_ticker, MONSTER_SPAWN_PERIOD_MS) {
            self.spawn_ticker = now;
            match spawn_from_draw(
                d.monster_trial,
                MONSTER_SPAWN_PERCENT,
                d.monster_x,
                MONSTER_START_Y,
            ) {
                Some(m) => self.monsters.push(m),
                None => {},
            }
        }
        proof {
            assert(self.monsters@ == monsters_spawned(g0, now, *d));
            assert(monsters_ok(self.monsters@)) by {
                assert forall|i: int| 0 <= i < self.monsters@.len() implies in_coord_box(
                    #[trigger] self.monsters@[i],
                ) && self.monsters@[i].y <= FIELD_HEIGHT + MONSTER_HEIGHT by {
                    if i < g0.monsters@.len() {
                        assert(in_coord_box(g0.monsters@[i]));
                    }
                }
            }
        }
        // Spawner: one trial per star class per due period.
        if ticker_due(now, self.star_ticker, STAR_SPAWN_PERIOD_MS) {
            self.star_ticker = now;
            match spawn_from_draw(d.big_star_trial, BIG_STAR_SPAWN_PERCENT, d.big_star_x, 0) {
                Some(s) => self.big_stars.push(s),
                None => {},
            }
            match spawn_from_draw(
                d.little_star_trial,
                LITTLE_STAR_SPAWN_PERCENT,
                d.little_star_x,
                0,
            ) {
                Some(s) => self.little_stars.push(s),
                None => {},
            }
        }
        proof {
            assert(self.big_stars@ == big_stars_spawned(g0, now, *d));
            assert(self.little_stars@ == little_stars_spawned(g0, now, *d));
            assert(stars_ok(self.big_stars@, 3 * BLOCK_SIZE as int)) by {
                assert forall|i: int| 0 <= i < self.big_stars@.len() implies in_coord_box(
                    #[trigger] self.big_stars@[i],
                ) && self.big_stars@[i].y <= FIELD_HEIGHT + 3 * BLOCK_SIZE by {
                    if i < g0.big_stars@.len() {
                        assert(in_coord_box(g0.big_stars@[i]));
                    }
                }
            }
            assert(stars_ok(self.little_stars@, BLOCK_SIZE as int)) by {
                assert forall|i: int| 0 <= i < self.little_stars@.len() implies in_coord_box(
                    #[trigger] self.little_stars@[i],
                ) && self.little_stars@[i].y <= FIELD_HEIGHT + BLOCK_SIZE by {
                    if i < g0.little_stars@.len() {
                        assert(in_coord_box(g0.little_stars@[i]));
                    }
                }
            }
        }
        // Move the player, clamped half a sprite in from each edge.
        let mut px = self.player.x;
        let mut py = self.player.y;
        if input.left {
            px = px - PLAYER_SPEED;
            if px < PLAYER_MIN_X {
                px = PLAYER_MIN_X;
            }
        }
        if input.right {
            px = px + PLAYER_SPEED;
            if px > PLAYER_MAX_X {
                px = PLAYER_MAX_X;
            }
        }
        if input.down {
            py = py + PLAYER_SPEED;
            if py > PLAYER_MAX_Y {
                py = PLAYER_MAX_Y;
            }
        }
        if input.up {
            py = py - PLAYER_SPEED;
            if py < PLAYER_MIN_Y {
                py = PLAYER_MIN_Y;
            }
        }
        self.player = Sprite::new(px, py);
        proof {
            assert(self.player == spec_player_after(g0, *input));
        }
        // Fire one missile at the player's position, subject to the cooldown.
        if input.fire && now - self.last_fire > FIRE_COOLDOWN_MS {
            self.last_fire = now;
            self.missiles.push(Sprite::new(px, py));
        }
        proof {
            assert(self.missiles@ == missiles_fired(g0, now, *input));
            assert(missiles_ok(self.missiles@)) by {
                assert forall|i: int| 0 <= i < self.missiles@.len() implies in_coord_box(
                    #[trigger] self.missiles@[i],
                ) && self.missiles@[i].y >= -MISSILE_HEIGHT by {
                    if i < g0.missiles@.len() {
                        assert(in_coord_box(g0.missiles@[i]));
                    }
                }
            }
        }
        // Move missiles up.
        translate_y(&mut self.missiles, -MISSILE_SPEED);
        proof {
            assert(self.missiles@ == missiles_moved(g0, now, *input));
            assert(all_in_coord_box(self.missiles@)) by {
                let fired = missiles_fired(g0, now, *input);
                assert forall|i: int| 0 <= i < self.missiles@.len() implies in_coord_box(
                    #[trigger] self.missiles@[i],
                ) by {
                    assert(in_coord_box(fired[i]) && fired[i].y >= -MISSILE_HEIGHT);
                }
            }
        }
        // Resolve missile hits against the monsters' pre-move positions; the
        // missiles' own off-field cull is folded into the same pass.
        resolve_missiles(&mut self.missiles, &mut self.monsters);
        proof {
            assert(self.missiles@ == spec_missiles_after(g0, now, *input, *d));
            assert(self.monsters@ == monsters_resolved(g0, now, *input, *d));
            crate::collide::lemma_monsters_after_membership(
                missiles_moved(g0, now, *input),
                monsters_spawned(g0, now, *d),
            );
            assert(monsters_ok(self.monsters@)) by {
                let spawned = monsters_spawned(g0, now, *d);
                assert forall|i: int| 0 <= i < self.monsters@.len() implies in_coord_box(
                    #[trigger] self.monsters@[i],
                ) && self.monsters@[i].y <= FIELD_HEIGHT + MONSTER_HEIGHT by {
                    assert(self.monsters@.contains(self.monsters@[i]));
                    assert(spawned.contains(self.monsters@[i]));
                    let j = choose|j: int|
                        0 <= j < spawned.len() && spawned[j] == self.monsters@[i];
                    assert(in_coord_box(spawned[j]) && spawned[j].y <= FIELD_HEIGHT
                        + MONSTER_HEIGHT);
                }
            }
        }
        // Move the monsters down, then test each against the player.
        translate_y(&mut self.monsters, MONSTER_SPEED);
        proof {
            assert(self.monsters@ == monsters_moved(g0, now, *input, *d));
            assert(all_in_coord_box(self.monsters@)) by {
                let resolved = monsters_resolved(g0, now, *input, *d);
                assert forall|i: int| 0 <= i < self.monsters@.len() implies in_coord_box(
                    #[trigger] self.monsters@[i],
                ) by {
                    assert(in_coord_box(resolved[i]) && resolved[i].y <= FIELD_HEIGHT
                        + MONSTER_HEIGHT);
                }
            }
        }
        if player_hit(self.player, &self.monsters) {
            self.state = GameState::Terminated;
        }
        proof {
            assert((self.state == GameState::Terminated) == spec_player_dead(
                g0,
                now,
                *input,
                *d,
            ));
        }
        // Cull monsters that moved past the bottom margin.
        cull_past(&mut self.monsters, FIELD_HEIGHT + MONSTER_HEIGHT);
        // Move and cull the star layers.
        translate_y(&mut self.little_stars, LITTLE_STAR_SPEED);
        cull_past(&mut self.little_stars, FIELD_HEIGHT + BLOCK_SIZE);
        translate_y(&mut self.big_stars, BIG_STAR_SPEED);
        cull_past(&mut self.big_stars, FIELD_HEIGHT + 3 * BLOCK_SIZE);
        proof {
            assert(self.monsters@ == spec_monsters_after(g0, now, *input, *d));
            assert(self.little_stars@ == spec_little_stars_after(g0, now, *d));
            assert(self.big_stars@ == spec_big_stars_after(g0, now, *d));
            assert(monsters_ok(self.monsters@)) by {
                let moved = monsters_moved(g0, now, *input, *d);
                lemma_kept_below_membership(moved, (FIELD_HEIGHT + MONSTER_HEIGHT) as int);
                assert forall|i: int| 0 <= i < self.monsters@.len() implies in_coord_box(
                    #[trigger] self.monsters@[i],
                ) && self.monsters@[i].y <= FIELD_HEIGHT + MONSTER_HEIGHT by {
                    assert(self.monsters@.contains(self.monsters@[i]));
                    let j = choose|j: int| 0 <= j < moved.len() && moved[j] == self.monsters@[i];
                    assert(in_coord_box(moved[j]));
                }
            }
            assert(missiles_ok(self.missiles@)) by {
                let moved = missiles_moved(g0, now, *input);
                let spawned = monsters_spawned(g0, now, *d);
                crate::collide::lemma_missiles_after_membership(moved, spawned);
                assert forall|i: int| 0 <= i < self.missiles@.len() implies in_coord_box(
                    #[trigger] self.missiles@[i],
                ) && self.missiles@[i].y >= -MISSILE_HEIGHT by {
                    assert(self.missiles@.contains(self.missiles@[i]));
                    let j = choose|j: int| 0 <= j < moved.len() && moved[j] == self.missiles@[i];
                    assert(in_coord_box(moved[j]));
                }
            }
            assert(stars_ok(self.little_stars@, BLOCK_SIZE as int)) by {
                let moved = shifted_y(
                    little_stars_spawned(g0, now, *d),
                    LITTLE_STAR_SPEED as int,
                );
                let spawned = little_stars_spawned(g0, now, *d);
                lemma_kept_below_membership(moved, (FIELD_HEIGHT + BLOCK_SIZE) as int);
                assert forall|i: int| 0 <= i < self.little_stars@.len() implies in_coord_box(
                    #[trigger] self.little_stars@[i],
                ) && self.little_stars@[i].y <= FIELD_HEIGHT + BLOCK_SIZE by {
                    assert(self.little_stars@.contains(self.little_stars@[i]));
                    let j = choose|j: int|
                        0 <= j < moved.len() && moved[j] == self.little_stars@[i];
                    assert(in_coord_box(spawned[j]));
                }
            }
            assert(stars_ok(self.big_stars@, 3 * BLOCK_SIZE as int)) by {
                let moved = shifted_y(big_stars_spawned(g0, now, *d), BIG_STAR_SPEED as int);
                let spawned = big_stars_spawned(g0, now, *d);
                lemma_kept_below_membership(moved, (FIELD_HEIGHT + 3 * BLOCK_SIZE) as int);
                assert forall|i: int| 0 <= i < self.big_stars@.len() implies in_coord_box(
                    #[trigger] self.big_stars@[i],
                ) && self.big_stars@[i].y <= FIELD_HEIGHT + 3 * BLOCK_SIZE by {
                    assert(self.big_stars@.contains(self.big_stars@[i]));
                    let j = choose|j: int| 0 <= j < moved.len() && moved[j] == self.big_stars@[i];
                    assert(in_coord_box(spawned[j]));
                }
            }
        }
    }

    /// One tick of the live simulation: takes this tick's random draws from
    /// the process-global generator and advances by them. Whatever the
    /// generator returned, the new state is the outcome of the old state
    /// under some valid set of draws.
    pub fn tick(&mut self, now: u32, input: &InputState)
        requires
            old(self).wf(),
            old(self).spawn_ticker <= now,
            old(self).star_ticker <= now,
            old(self).last_fire <= now,
        ensures
            final(self).wf(),
            final(self).spawn_ticker <= now,
            final(self).star_ticker <= now,
            final(self).last_fire <= now,
            exists|d: TickDraws| #[trigger] tick_outcome(*old(self), *final(self), now, *input, d),
    {
        let monster_trial = draw_in_range(0, TRIAL_SCALE);
        let monster_x = draw_in_range(15, FIELD_WIDTH - 15);
        let big_star_trial = draw_in_range(0, TRIAL_SCALE);
        let big_star_x = draw_in_range(0, FIELD_WIDTH);
        let little_star_trial = draw_in_range(0, TRIAL_SCALE);
        let little_star_x = draw_in_range(0, FIELD_WIDTH);
        let d = TickDraws {
            monster_trial,
            monster_x,
            big_star_trial,
            big_star_x,
            little_star_trial,
            little_star_x,
        };
        self.tick_with_draws(now, input, &d);
    }
}

/// With the same clock, input and injected draws, two equal states step to
/// equal states: the spawner and the whole tick are deterministic once the
/// random draws are fixed.
pub proof fn lemma_tick_deterministic(
    g1: Game,
    g2: Game,
    now: u32,
    input: InputState,
    d: TickDraws,
)
    requires
        same_entities(g1, g2),
        g1.state == g2.state,
    ensures
        spec_player_after(g1, input) == spec_player_after(g2, input),
        spec_missiles_after(g1, now, input, d) == spec_missiles_after(g2, now, input, d),
        spec_monsters_after(g1, now, input, d) == spec_monsters_after(g2, now, input, d),
        spec_big_stars_after(g1, now, d) == spec_big_stars_after(g2, now, d),
        spec_little_stars_after(g1, now, d) == spec_little_stars_after(g2, now, d),
        spec_player_dead(g1, now, input, d) == spec_player_dead(g2, now, input, d),
{
    assert(spec_player_after(g1, input) == spec_player_after(g2, input));
    assert(missiles_fired(g1, now, input) == missiles_fired(g2, now, input));
    assert(missiles_moved(g1, now, input) == missiles_moved(g2, now, input));
    assert(monsters_spawned(g1, now, d) == monsters_spawned(g2, now, d));
    assert(big_stars_spawned(g1, now, d) == big_stars_spawned(g2, now, d));
    assert(little_stars_spawned(g1, now, d) == little_stars_spawned(g2, now, d));
    assert(monsters_resolved(g1, now, input, d) == monsters_resolved(g2, now, input, d));
    assert(monsters_moved(g1, now, input, d) == monsters_moved(g2, now, input, d));
}

} // verus!
