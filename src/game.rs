use vstd::prelude::*;
use crate::timer::Time;
use crate::letter::{FallingLetter, UNITS_PER_PIXEL, SCREEN_HEIGHT};
use crate::spawn::{SpawnRoll, valid_burst, roll_burst};

verus! {

/// Water added to the bottle by one collected letter.
pub const WATER_BONUS: i64 = 20 * UNITS_PER_PIXEL;

/// Points scored by one collected letter.
pub const SCORE_BONUS: u64 = 100;

/// Drop speed at the start, in micro-pixels per microsecond (pixels per second).
pub const BASE_DROP_SPEED: u32 = 60;

/// Increase of the drop speed at each difficulty ramp.
pub const DROP_SPEED_STEP: u32 = 30;

/// The difficulty ramps only while the drop speed is below this.
pub const DROP_SPEED_CEILING: u32 = 360;

/// Drain rate at the start, in micro-pixels per microsecond.
pub const BASE_CONSUMPTION: u32 = 6;

/// Increase of the drain rate at each difficulty ramp.
pub const CONSUMPTION_STEP: u32 = 1;

/// Interval between letter bursts at the start, in microseconds.
pub const SPAWN_INTERVAL: u64 = 3_000_000;

/// Interval between difficulty ramps, in microseconds.
pub const RAMP_INTERVAL: u64 = 2_000_000;

/// While below the ceiling, the spawn interval shrinks each frame by the
/// frame's duration divided by this.
pub const SPAWN_DECAY_DIVISOR: u32 = 167;

/// Where the top of the first letter of a burst starts, above the screen.
pub const SPAWN_Y: i64 = -70 * UNITS_PER_PIXEL;

/// Vertical distance between successive letters of one burst.
pub const SPAWN_STAGGER: i64 = 70 * UNITS_PER_PIXEL;

/// Column of the letter that a new game starts with.
pub const START_X: i64 = 800 * UNITS_PER_PIXEL;

/// Lowest top edge a letter of a burst can start at.
pub const MIN_LETTER_Y: i64 = SPAWN_Y - 2 * SPAWN_STAGGER;

/// Largest bottle that a game can hold.
pub const MAX_CAPACITY: i64 = 4_294_967_295 * UNITS_PER_PIXEL;

/// Lowest water level that the last frame of a game can leave.
pub const MAX_DRAIN: i64 = 100_000_000_000;

/// Whether the game is running or lost.
#[derive(Clone, Copy, Debug, PartialEq, Eq, Structural)]
pub enum GameState {
    Playing,
    GameOver,
}

/// The whole state of a game.
///
/// `water_level` and `capacity` are in micro-pixels of the bottle's height;
/// `drop_speed_factor` and `consumption_rate` in micro-pixels per microsecond.
pub struct Game {
    pub water_level: i64,
    pub capacity: i64,
    pub score: u64,
    pub state: GameState,
    pub spawn_timer: Time,
    pub ramp_timer: Time,
    pub drop_speed_factor: u32,
    pub consumption_rate: u32,
    pub letters: Vec<FallingLetter>,
}

/// The mathematical value of a [`Game`].
pub struct GameView {
    pub water_level: int,
    pub capacity: int,
    pub score: int,
    pub state: GameState,
    pub spawn_timer: Time,
    pub ramp_timer: Time,
    pub drop_speed_factor: int,
    pub consumption_rate: int,
    pub letters: Seq<FallingLetter>,
}

impl View for Game {
    type V = GameView;

    open spec fn view(&self) -> GameView {
        GameView {
            water_level: self.water_level as int,
            capacity: self.capacity as int,
            score: self.score as int,
            state: self.state,
            spawn_timer: self.spawn_timer,
            ramp_timer: self.ramp_timer,
            drop_speed_factor: self.drop_speed_factor as int,
            consumption_rate: self.consumption_rate as int,
            letters: self.letters@,
        }
    }
}

/// The smaller of two integers.
pub open spec fn min(a: int, b: int) -> int {
    if a <= b { a } else { b }
}

/// A letter that is well formed and lies where a game can hold it: not above
/// the highest spawn point, and on the screen while alive.
pub open spec fn letter_in_bounds(l: FallingLetter) -> bool {
    &&& l.wf()
    &&& MIN_LETTER_Y <= l.y
    &&& (l.alive ==> l.y <= SCREEN_HEIGHT)
}

/// Whether a letter is still in play.
pub open spec fn is_live() -> spec_fn(FallingLetter) -> bool {
    |l: FallingLetter| l.alive
}

impl GameView {
    /// The numeric part of a game's invariant: the bottle is not over full,
    /// the level is bounded below, and the drain rate has ramped exactly as
    /// often as the drop speed, which stays below one step past its ceiling.
    pub open spec fn numbers_ok(self) -> bool {
        &&& 0 <= self.capacity <= MAX_CAPACITY
        &&& -MAX_DRAIN <= self.water_level <= self.capacity
        &&& BASE_DROP_SPEED <= self.drop_speed_factor < DROP_SPEED_CEILING + DROP_SPEED_STEP
        &&& (self.consumption_rate - BASE_CONSUMPTION) * DROP_SPEED_STEP
            == (self.drop_speed_factor - BASE_DROP_SPEED) * CONSUMPTION_STEP
    }

    /// Every letter of a game is well formed, on screen and alive.
    pub open spec fn letters_ok(self) -> bool {
        forall|i: int|
            0 <= i < self.letters.len() ==> letter_in_bounds(#[trigger] self.letters[i])
                && self.letters[i].alive
    }

    /// The invariant of a game: the numbers are in range, a running game has
    /// water left, and every letter is live.
    pub open spec fn wf(self) -> bool {
        &&& self.numbers_ok()
        &&& self.letters_ok()
        &&& (self.state == GameState::Playing ==> self.water_level > 0)
    }

    /// First step of a frame: the spawn timer is polled, and when it fires the
    /// burst's letters join the game.
    pub open spec fn after_spawn(self, now: u64, burst: Seq<SpawnRoll>) -> GameView {
        GameView {
            spawn_timer: self.spawn_timer.polled(now),
            letters: if self.spawn_timer.fires(now) {
                self.letters + burst_letters(burst)
            } else {
                self.letters
            },
            ..self
        }
    }

    /// Second step: every letter falls by `dt` times the drop speed and is
    /// collected if it is then in the hit zone and its key is pressed; each
    /// collection adds water, up to the bottle's capacity, and points, up to
    /// the largest score.
    pub open spec fn after_fall(self, dt: u32, pressed: Seq<char>) -> GameView {
        let delta = dt * self.drop_speed_factor;
        let n = hits(self.letters, delta, pressed);
        GameView {
            letters: self.letters.map_values(|l: FallingLetter| fall_letter(l, delta, pressed)),
            water_level: min(self.capacity, self.water_level + n * WATER_BONUS),
            score: min(u64::MAX as int, self.score + n * SCORE_BONUS),
            ..self
        }
    }

    /// Third step: letters that are gone leave the game; the others keep
    /// their order.
    pub open spec fn after_removal(self) -> GameView {
        GameView { letters: self.letters.filter(is_live()), ..self }
    }

    /// Whether a frame at `now` ramps the difficulty: the ramp timer fires and
    /// the drop speed is still below its ceiling.
    pub open spec fn ramps(self, now: u64) -> bool {
        self.ramp_timer.fires(now) && self.drop_speed_factor < DROP_SPEED_CEILING
    }

    /// Fourth step: the ramp timer is polled; on a ramp the drop speed and the
    /// drain rate each go up by a step. Then, while the drop speed is below
    /// its ceiling, the spawn interval shrinks by `dt / SPAWN_DECAY_DIVISOR`,
    /// down to zero at the least.
    pub open spec fn after_ramp(self, now: u64, dt: u32) -> GameView {
        let speed = if self.ramps(now) {
            self.drop_speed_factor + DROP_SPEED_STEP
        } else {
            self.drop_speed_factor
        };
        let rate = if self.ramps(now) {
            self.consumption_rate + CONSUMPTION_STEP
        } else {
            self.consumption_rate
        };
        let interval = self.spawn_timer.time_to_pass;
        let decay = dt / SPAWN_DECAY_DIVISOR;
        let new_interval = if speed < DROP_SPEED_CEILING {
            if interval > decay {
                interval - decay
            } else {
                0
            }
        } else {
            interval as int
        };
        GameView {
            ramp_timer: self.ramp_timer.polled(now),
            drop_speed_factor: speed,
            consumption_rate: rate,
            spawn_timer: Time { time_to_pass: new_interval as u64, ..self.spawn_timer },
            ..self
        }
    }

    /// Last step: the bottle drains by the drain rate times `dt`, and the game
    /// is lost once the level is zero or below.
    pub open spec fn after_drain(self, dt: u32) -> GameView {
        let w = self.water_level - self.consumption_rate * dt;
        GameView {
            water_level: w,
            state: if w <= 0 {
                GameState::GameOver
            } else {
                self.state
            },
            ..self
        }
    }

    /// One frame of the game at time `now`, `dt` microseconds after the last,
    /// with the keys `pressed` held down and `burst` placed if the spawn timer
    /// fires. A lost game does not change.
    pub open spec fn after_frame(
        self,
        now: u64,
        dt: u32,
        pressed: Seq<char>,
        burst: Seq<SpawnRoll>,
    ) -> GameView {
        if self.state == GameState::GameOver {
            self
        } else {
            self.after_spawn(now, burst).after_fall(dt, pressed).after_removal().after_ramp(
                now,
                dt,
            ).after_drain(dt)
        }
    }

    /// How many letters one frame collects.
    pub open spec fn frame_hits(
        self,
        now: u64,
        dt: u32,
        pressed: Seq<char>,
        burst: Seq<SpawnRoll>,
    ) -> nat {
        let g = self.after_spawn(now, burst);
        hits(g.letters, dt * g.drop_speed_factor, pressed)
    }
}

/// The letters that a burst places: the `i`-th at the roll's column, staggered
/// `i` letter heights above the spawn point.
pub open spec fn burst_letters(burst: Seq<SpawnRoll>) -> Seq<FallingLetter> {
    Seq::new(
        burst.len(),
        |i: int|
            FallingLetter::spawned(
                (burst[i].x * UNITS_PER_PIXEL) as i64,
                (SPAWN_Y - i * SPAWN_STAGGER) as i64,
                burst[i].character,
            ),
    )
}

/// Whether a letter, once fallen by `delta`, is collected by one of the keys
/// `pressed`.
pub open spec fn caught(l: FallingLetter, delta: int, pressed: Seq<char>) -> bool {
    let m = l.moved(delta);
    m.in_hit_zone && pressed.contains(m.character)
}

/// A letter after falling by `delta` and being tried against the keys `pressed`.
pub open spec fn fall_letter(l: FallingLetter, delta: int, pressed: Seq<char>) -> FallingLetter {
    let m = l.moved(delta);
    if caught(l, delta, pressed) {
        FallingLetter { alive: false, in_hit_zone: false, ..m }
    } else {
        m
    }
}

/// How many of the letters are collected in one fall.
pub open spec fn hits(s: Seq<FallingLetter>, delta: int, pressed: Seq<char>) -> nat
    decreases s.len(),
{
    if s.len() == 0 {
        0
    } else {
        hits(s.drop_last(), delta, pressed) + if caught(s.last(), delta, pressed) {
            1nat
        } else {
            0nat
        }
    }
}

impl Game {
    /// Adds the letters of `burst` when the spawn timer fires at `now`.
    pub fn spawn_burst(&mut self, now: u64, burst: &Vec<SpawnRoll>)
        requires
            old(self)@.numbers_ok(),
            old(self)@.letters_ok(),
            old(self).spawn_timer.fires(now) ==> valid_burst(burst@),
        ensures
            final(self)@ == old(self)@.after_spawn(now, burst@),
            final(self)@.letters_ok(),
    {
        if self.spawn_timer.update(now) {
            let ghost g0 = self@;
            assert(g0.letters_ok());
            let mut i: usize = 0;
            while i < burst.len()
                invariant
                    valid_burst(burst@),
                    i <= burst@.len(),
                    self@.numbers_ok(),
                    self@.letters_ok(),
                    self@ == (GameView { letters: self.letters@, ..g0 }),
                    self.letters@ == g0.letters + burst_letters(burst@).take(i as int),
                decreases burst@.len() - i,
            {
                let roll: SpawnRoll = burst[i];
                assert(burst@[i as int].valid());
                let x: i64 = (roll.x as i64) * UNITS_PER_PIXEL;
                let y: i64 = SPAWN_Y - (i as i64) * SPAWN_STAGGER;
                let l: FallingLetter = FallingLetter::new(x, y, roll.character);
                let ghost before = self.letters@;
                assert(self@.letters_ok());
                assert(self@.letters == before);
                self.letters.push(l);
                assert(letter_in_bounds(l));
                assert forall|k: int| 0 <= k < self.letters@.len() implies letter_in_bounds(
                    #[trigger] self.letters@[k],
                ) && self.letters@[k].alive by {
                    if k < before.len() {
                        assert(self.letters@[k] == before[k]);
                        assert(letter_in_bounds(before[k]) && before[k].alive);
                    } else {
                        assert(self.letters@[k] == l);
                    }
                }
                assert(burst_letters(burst@).take(i + 1) =~= burst_letters(burst@).take(
                    i as int,
                ).push(l));
                i = i + 1;
            }
            assert(burst_letters(burst@).take(burst@.len() as int) =~= burst_letters(burst@));
        }
    }

    /// Tries every pressed key on one letter that has just fallen; returns
    /// whether it was collected.
    fn collect_with(l: &mut FallingLetter, pressed: &Vec<char>) -> (hit: bool)
        requires
            old(l).wf(),
        ensures
            hit == (old(l).in_hit_zone && pressed@.contains(old(l).character)),
            *final(l) == if hit {
                FallingLetter { alive: false, in_hit_zone: false, ..*old(l) }
            } else {
                *old(l)
            },
    {
        let ghost m = *l;
        let mut hit: bool = false;
        let mut j: usize = 0;
        while j < pressed.len()
            invariant
                m.wf(),
                j <= pressed@.len(),
                hit == (m.in_hit_zone && pressed@.take(j as int).contains(m.character)),
                *l == if hit {
                    FallingLetter { alive: false, in_hit_zone: false, ..m }
                } else {
                    m
                },
            decreases pressed@.len() - j,
        {
            let got: bool = l.try_collect(pressed[j]);
            proof {
                let t = pressed@.take(j as int);
                assert(pressed@.take(j + 1) =~= t.push(pressed@[j as int]));
                if t.contains(m.character) {
                    let w = choose|w: int| 0 <= w < t.len() && t[w] == m.character;
                    assert(pressed@.take(j + 1)[w] == m.character);
                }
                if pressed@[j as int] == m.character {
                    assert(pressed@.take(j + 1)[j as int] == m.character);
                }
            }
            hit = hit || got;
            j = j + 1;
        }
        assert(pressed@.take(pressed@.len() as int) =~= pressed@);
        hit
    }

    /// Moves every letter down by `dt` times the drop speed and collects those
    /// in the hit zone whose key is among `pressed`, adding water and points
    /// for each.
    pub fn fall_and_collect(&mut self, dt: u32, pressed: &Vec<char>)
        requires
            old(self)@.numbers_ok(),
            old(self)@.letters_ok(),
        ensures
            final(self)@ == old(self)@.after_fall(dt, pressed@),
            final(self)@.numbers_ok(),
            forall|i: int|
                0 <= i < final(self)@.letters.len() ==> letter_in_bounds(
                    #[trigger] final(self)@.letters[i],
                ),
    {
        let ghost g0 = self@;
        let ghost delta: int = dt * self.drop_speed_factor;
        let n: usize = self.letters.len();
        let mut i: usize = 0;
        while i < n
            invariant
                g0.numbers_ok(),
                g0.letters_ok(),
                n == g0.letters.len(),
                i <= n,
                delta == dt * g0.drop_speed_factor,
                self.letters@.len() == n,
                self@ == (GameView {
                    letters: self.letters@,
                    water_level: self.water_level as int,
                    score: self.score as int,
                    ..g0
                }),
                forall|k: int|
                    0 <= k < i ==> #[trigger] self.letters@[k] == fall_letter(
                        g0.letters[k],
                        delta,
                        pressed@,
                    ),
                forall|k: int| i <= k < n ==> #[trigger] self.letters@[k] == g0.letters[k],
                forall|k: int| 0 <= k < i ==> letter_in_bounds(#[trigger] self.letters@[k]),
                self.water_level == min(
                    g0.capacity,
                    g0.water_level + hits(g0.letters.take(i as int), delta, pressed@)
                        * WATER_BONUS,
                ),
                self.score == min(
                    u64::MAX as int,
                    g0.score + hits(g0.letters.take(i as int), delta, pressed@) * SCORE_BONUS,
                ),
            decreases n - i,
        {
            let mut l: FallingLetter = self.letters[i];
            assert(letter_in_bounds(g0.letters[i as int]) && g0.letters[i as int].alive);
            assert(dt * self.drop_speed_factor <= u32::MAX * (DROP_SPEED_CEILING
                + DROP_SPEED_STEP)) by (nonlinear_arith)
                requires
                    self.drop_speed_factor < DROP_SPEED_CEILING + DROP_SPEED_STEP,
                    dt <= u32::MAX,
                    self.drop_speed_factor >= 0,
                    dt >= 0,
            ;
            l.advance(dt, self.drop_speed_factor);
            let hit: bool = Game::collect_with(&mut l, pressed);
            proof {
                let s = g0.letters.take(i + 1);
                assert(s.drop_last() =~= g0.letters.take(i as int));
                assert(s.last() == g0.letters[i as int]);
                assert(hit == caught(g0.letters[i as int], delta, pressed@));
                assert(hits(s, delta, pressed@) == hits(g0.letters.take(i as int), delta, pressed@)
                    + if hit { 1nat } else { 0nat });
                let k = hits(g0.letters.take(i as int), delta, pressed@);
                assert((k + 1) * WATER_BONUS == k * WATER_BONUS + WATER_BONUS) by (nonlinear_arith);
            }
            if hit {
                if self.water_level > self.capacity - WATER_BONUS {
                    self.water_level = self.capacity;
                } else {
                    self.water_level = self.water_level + WATER_BONUS;
                }
                if self.score > u64::MAX - SCORE_BONUS {
                    self.score = u64::MAX;
                } else {
                    self.score = self.score + SCORE_BONUS;
                }
            }
            self.letters.set(i, l);
            i = i + 1;
        }
        proof {
            assert(g0.letters.take(n as int) =~= g0.letters);
            assert(self.letters@ =~= g0.letters.map_values(
                |l: FallingLetter| fall_letter(l, delta, pressed@),
            ));
        }
    }

    /// Drops every letter that is gone, keeping the order of the others.
    pub fn remove_gone(&mut self)
        requires
            forall|i: int|
                0 <= i < old(self)@.letters.len() ==> letter_in_bounds(
                    #[trigger] old(self)@.letters[i],
                ),
        ensures
            final(self)@ == old(self)@.after_removal(),
            final(self)@.letters_ok(),
    {
        let ghost s = self.letters@;
        let mut kept: Vec<FallingLetter> = Vec::new();
        let mut i: usize = 0;
        while i < self.letters.len()
            invariant
                self.letters@ == s,
                i <= s.len(),
                kept@ == s.take(i as int).filter(is_live()),
                forall|k: int| 0 <= k < s.len() ==> letter_in_bounds(#[trigger] s[k]),
                forall|k: int|
                    0 <= k < kept@.len() ==> letter_in_bounds(#[trigger] kept@[k])
                        && kept@[k].alive,
            decreases s.len() - i,
        {
            let l: FallingLetter = self.letters[i];
            proof {
                let t = s.take(i + 1);
                assert(t.drop_last() =~= s.take(i as int));
                assert(t.last() == l);
                reveal(Seq::filter);
                assert(letter_in_bounds(s[i as int]));
            }
            if l.alive {
                kept.push(l);
            }
            i = i + 1;
        }
        assert(s.take(s.len() as int) =~= s);
        self.letters = kept;
    }

    /// Polls the ramp timer and, on a ramp, raises the drop speed and the drain
    /// rate; then shrinks the spawn interval while below the speed ceiling.
    pub fn ramp(&mut self, now: u64, dt: u32)
        requires
            old(self)@.numbers_ok(),
        ensures
            final(self)@ == old(self)@.after_ramp(now, dt),
            final(self)@.numbers_ok(),
    {
        if self.ramp_timer.update(now) && self.drop_speed_factor < DROP_SPEED_CEILING {
            self.drop_speed_factor = self.drop_speed_factor + DROP_SPEED_STEP;
            self.consumption_rate = self.consumption_rate + CONSUMPTION_STEP;
        }
        if self.drop_speed_factor < DROP_SPEED_CEILING {
            let decay: u64 = (dt / SPAWN_DECAY_DIVISOR) as u64;
            if self.spawn_timer.time_to_pass > decay {
                self.spawn_timer.time_to_pass = self.spawn_timer.time_to_pass - decay;
            } else {
                self.spawn_timer.time_to_pass = 0;
            }
        }
    }

    /// Drains the bottle for `dt` microseconds and ends the game once it is
    /// empty.
    pub fn drain(&mut self, dt: u32)
        requires
            old(self)@.numbers_ok(),
            old(self).water_level > 0,
        ensures
            final(self)@ == old(self)@.after_drain(dt),
            final(self)@.numbers_ok(),
            final(self).state == GameState::Playing ==> final(self).water_level > 0,
    {
        assert(self.consumption_rate * dt <= 17 * u32::MAX) by (nonlinear_arith)
            requires
                self.consumption_rate <= 17,
                dt <= u32::MAX,
                self.consumption_rate >= 0,
                dt >= 0,
        ;
        self.water_level = self.water_level - (self.consumption_rate as i64) * (dt as i64);
        if self.water_level <= 0 {
            self.state = GameState::GameOver;
        }
    }

    /// Runs one frame at time `now`, `dt` microseconds after the last one, with
    /// the keys `pressed` held down; `burst` is placed if the spawn timer fires.
    /// A lost game does not change.
    pub fn step(&mut self, now: u64, dt: u32, pressed: &Vec<char>, burst: &Vec<SpawnRoll>)
        requires
            old(self)@.wf(),
            old(self).state == GameState::Playing && old(self).spawn_timer.fires(now)
                ==> valid_burst(burst@),
        ensures
            final(self)@ == old(self)@.after_frame(now, dt, pressed@, burst@),
            final(self)@.wf(),
    {
        if self.state == GameState::GameOver {
            return;
        }
        self.spawn_burst(now, burst);
        let ghost w = self.water_level;
        self.fall_and_collect(dt, pressed);
        assert(self.water_level >= w);
        self.remove_gone();
        self.ramp(now, dt);
        self.drain(dt);
    }

    /// Runs one frame as [`Game::step`] does, drawing the burst at random when
    /// the spawn timer fires: one to three letters, each at a random column of
    /// the spawn band and a random letter.
    pub fn update(&mut self, now: u64, dt: u32, pressed: &Vec<char>)
        requires
            old(self)@.wf(),
        ensures
            final(self)@.wf(),
            exists|burst: Seq<SpawnRoll>|
                (old(self).state == GameState::Playing && old(self).spawn_timer.fires(now)
                    ==> valid_burst(burst)) && #[trigger] old(self)@.after_frame(
                    now,
                    dt,
                    pressed@,
                    burst,
                ) == final(self)@,
    {
        let burst: Vec<SpawnRoll> = if self.state == GameState::Playing
            && self.spawn_timer.is_due(now) {
            roll_burst()
        } else {
            Vec::new()
        };
        let ghost g0 = self@;
        self.step(now, dt, pressed, &burst);
        assert(g0.after_frame(now, dt, pressed@, burst@) == self@);
    }

    /// A new game at time `now` with a bottle `bottle_height` pixels tall,
    /// half full, with one letter `A` about to fall.
    pub fn new(now: u64, bottle_height: u32) -> (g: Game)
        ensures
            g@.wf(),
            g.capacity == bottle_height * UNITS_PER_PIXEL,
            g.water_level == (bottle_height / 2) * UNITS_PER_PIXEL,
            g.score == 0,
            g.state == (if g.water_level > 0 {
                GameState::Playing
            } else {
                GameState::GameOver
            }),
            g.spawn_timer == (Time { time_to_pass: SPAWN_INTERVAL, start: now }),
            g.ramp_timer == (Time { time_to_pass: RAMP_INTERVAL, start: now }),
            g.drop_speed_factor == BASE_DROP_SPEED,
            g.consumption_rate == BASE_CONSUMPTION,
            g@.letters == seq![FallingLetter::spawned(START_X, SPAWN_Y, 'A')],
    {
        let capacity: i64 = (bottle_height as i64) * UNITS_PER_PIXEL;
        let water_level: i64 = ((bottle_height / 2) as i64) * UNITS_PER_PIXEL;
        let first: FallingLetter = FallingLetter::new(START_X, SPAWN_Y, 'A');
        let mut letters: Vec<FallingLetter> = Vec::new();
        letters.push(first);
        let state: GameState = if water_level > 0 {
            GameState::Playing
        } else {
            GameState::GameOver
        };
        let g = Game {
            water_level,
            capacity,
            score: 0,
            state,
            spawn_timer: Time::new(SPAWN_INTERVAL, now),
            ramp_timer: Time::new(RAMP_INTERVAL, now),
            drop_speed_factor: BASE_DROP_SPEED,
            consumption_rate: BASE_CONSUMPTION,
            letters,
        };
        assert(g@.letters =~= seq![first]);
        g
    }
}

/// While a game runs, a frame that lasts at least a microsecond and collects
/// no letter leaves strictly less water than before.
pub proof fn lemma_drains_without_collection(
    g: GameView,
    now: u64,
    dt: u32,
    pressed: Seq<char>,
    burst: Seq<SpawnRoll>,
)
    requires
        g.wf(),
        g.state == GameState::Playing,
        dt > 0,
        g.frame_hits(now, dt, pressed, burst) == 0,
    ensures
        g.after_frame(now, dt, pressed, burst).water_level < g.water_level,
{
    let r = g.after_spawn(now, burst).after_fall(dt, pressed).after_removal().after_ramp(now, dt);
    assert(r.water_level == g.water_level);
    let rate = r.consumption_rate;
    assert(rate >= 1);
    assert(rate * dt > 0) by (nonlinear_arith)
        requires
            rate >= 1,
            dt > 0,
    ;
}

/// After a frame, every letter left in the game is alive.
pub proof fn lemma_frame_leaves_live_letters(
    g: GameView,
    now: u64,
    dt: u32,
    pressed: Seq<char>,
    burst: Seq<SpawnRoll>,
)
    requires
        g.wf(),
    ensures
        forall|i: int|
            0 <= i < g.after_frame(now, dt, pressed, burst).letters.len()
                ==> #[trigger] g.after_frame(now, dt, pressed, burst).letters[i].alive,
{
    if g.state == GameState::Playing {
        let s = g.after_spawn(now, burst).after_fall(dt, pressed).letters;
        assert(g.after_frame(now, dt, pressed, burst).letters == s.filter(is_live()));
        assert forall|i: int| 0 <= i < s.filter(is_live()).len() implies #[trigger] s.filter(
            is_live(),
        )[i].alive by {
            s.lemma_filter_pred(is_live(), i);
        }
    }
}

} // verus!
