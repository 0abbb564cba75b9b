use drink_up::game::{
    Game, GameState, BASE_CONSUMPTION, BASE_DROP_SPEED, CONSUMPTION_STEP, DROP_SPEED_CEILING,
    DROP_SPEED_STEP, RAMP_INTERVAL, SCORE_BONUS, SPAWN_INTERVAL, SPAWN_STAGGER, SPAWN_Y, START_X,
    WATER_BONUS,
};
use drink_up::letter::{tint_of, FallingLetter, HIT_ZONE_TOP, UNITS_PER_PIXEL};
use drink_up::spawn::{roll_burst, SpawnRoll, SPAWN_X_END, SPAWN_X_MIN};
use drink_up::timer::Time;

const FRAME: u32 = 16_667;
const NEVER: u64 = u64::MAX / 2;

fn quiet_game(letters: Vec<FallingLetter>) -> Game {
    Game {
        water_level: 150 * UNITS_PER_PIXEL,
        capacity: 300 * UNITS_PER_PIXEL,
        score: 0,
        state: GameState::Playing,
        spawn_timer: Time::new(NEVER, 0),
        ramp_timer: Time::new(NEVER, 0),
        drop_speed_factor: BASE_DROP_SPEED,
        consumption_rate: BASE_CONSUMPTION,
        letters,
    }
}

#[test]
fn new_game_starts_half_full() {
    let g = Game::new(7, 300);
    assert_eq!(g.capacity, 300 * UNITS_PER_PIXEL);
    assert_eq!(g.water_level, 150 * UNITS_PER_PIXEL);
    assert_eq!(g.score, 0);
    assert_eq!(g.state, GameState::Playing);
    assert_eq!(g.spawn_timer, Time { time_to_pass: SPAWN_INTERVAL, start: 7 });
    assert_eq!(g.ramp_timer, Time { time_to_pass: RAMP_INTERVAL, start: 7 });
    assert_eq!(g.drop_speed_factor, BASE_DROP_SPEED);
    assert_eq!(g.consumption_rate, BASE_CONSUMPTION);
    assert_eq!(g.letters.len(), 1);
    assert_eq!(g.letters[0], FallingLetter::new(START_X, SPAWN_Y, 'A'));
}

#[test]
fn new_game_with_tiny_bottle_is_lost() {
    let g = Game::new(0, 1);
    assert_eq!(g.water_level, 0);
    assert_eq!(g.state, GameState::GameOver);
}

#[test]
fn collect_falling_k_in_hit_zone() {
    let mut g = quiet_game(vec![FallingLetter::new(700 * UNITS_PER_PIXEL, -70 * UNITS_PER_PIXEL, 'K')]);
    let pressed = vec!['K'];
    let mut now: u64 = 0;
    let mut frames = 0;
    loop {
        let before_water = g.water_level;
        let before_y = g.letters[0].y;
        now += FRAME as u64;
        g.step(now, FRAME, &pressed, &Vec::new());
        frames += 1;
        let y = before_y + (FRAME as i64) * (BASE_DROP_SPEED as i64);
        let drained = (BASE_CONSUMPTION as i64) * (FRAME as i64);
        if g.letters.is_empty() {
            assert!(y < HIT_ZONE_TOP);
            assert_eq!(g.score, SCORE_BONUS);
            assert_eq!(g.water_level, before_water + WATER_BONUS - drained);
            break;
        }
        assert_eq!(g.letters[0].y, y);
        assert_eq!(g.score, 0);
        assert_eq!(g.water_level, before_water - drained);
        assert!(frames < 1_000);
    }
}

#[test]
fn try_collect_scenario_on_letter() {
    let mut l = FallingLetter::new(0, -70 * UNITS_PER_PIXEL, 'K');
    while !l.in_hit_zone {
        l.advance(FRAME, BASE_DROP_SPEED);
        assert!(l.alive);
    }
    assert!(l.try_collect('K'));
    assert!(!l.alive);
}

#[test]
fn nearly_empty_bottle_ends_game() {
    let mut g = quiet_game(Vec::new());
    g.water_level = 10_000;
    g.step(FRAME as u64, FRAME, &Vec::new(), &Vec::new());
    assert_eq!(g.water_level, 10_000 - (BASE_CONSUMPTION as i64) * (FRAME as i64));
    assert_eq!(g.state, GameState::GameOver);
    let lost_water = g.water_level;
    g.step(2 * FRAME as u64, FRAME, &vec!['A'], &Vec::new());
    assert_eq!(g.water_level, lost_water);
    assert_eq!(g.state, GameState::GameOver);
}

#[test]
fn water_at_exactly_zero_ends_game() {
    let mut g = quiet_game(Vec::new());
    g.water_level = (BASE_CONSUMPTION as i64) * (FRAME as i64);
    g.step(1, FRAME, &Vec::new(), &Vec::new());
    assert_eq!(g.water_level, 0);
    assert_eq!(g.state, GameState::GameOver);
}

#[test]
fn no_ramp_at_ceiling() {
    let mut g = quiet_game(Vec::new());
    g.drop_speed_factor = DROP_SPEED_CEILING;
    g.consumption_rate = BASE_CONSUMPTION + 10 * CONSUMPTION_STEP;
    g.ramp_timer = Time::new(10, 0);
    g.spawn_timer = Time::new(5_000, 0);
    g.ramp(100, 1_670);
    assert_eq!(g.ramp_timer.start, 100);
    assert_eq!(g.drop_speed_factor, DROP_SPEED_CEILING);
    assert_eq!(g.consumption_rate, BASE_CONSUMPTION + 10 * CONSUMPTION_STEP);
    assert_eq!(g.spawn_timer.time_to_pass, 5_000);
}

#[test]
fn ramp_below_ceiling_speeds_up_and_shortens_spawns() {
    let mut g = quiet_game(Vec::new());
    g.ramp_timer = Time::new(10, 0);
    g.spawn_timer = Time::new(5_000, 0);
    g.ramp(100, 1_670);
    assert_eq!(g.drop_speed_factor, BASE_DROP_SPEED + DROP_SPEED_STEP);
    assert_eq!(g.consumption_rate, BASE_CONSUMPTION + CONSUMPTION_STEP);
    assert_eq!(g.spawn_timer.time_to_pass, 4_990);
    g.ramp(101, 1_000_000);
    assert_eq!(g.drop_speed_factor, BASE_DROP_SPEED + DROP_SPEED_STEP);
    assert_eq!(g.spawn_timer.time_to_pass, 0);
}

#[test]
fn drain_without_collection_lowers_water() {
    let mut g = quiet_game(vec![FallingLetter::new(0, 0, 'Q')]);
    let before = g.water_level;
    g.step(1, 1, &vec!['Q'], &Vec::new());
    assert!(g.water_level < before);
    assert_eq!(g.water_level, before - BASE_CONSUMPTION as i64);
}

#[test]
fn water_is_capped_by_capacity() {
    let mut g = quiet_game(vec![FallingLetter::new(0, HIT_ZONE_TOP - 100, 'E')]);
    g.water_level = g.capacity - 1;
    g.fall_and_collect(1, &vec!['E']);
    assert_eq!(g.water_level, g.capacity);
    assert_eq!(g.score, SCORE_BONUS);
}

#[test]
fn score_saturates() {
    let mut g = quiet_game(vec![FallingLetter::new(0, HIT_ZONE_TOP - 100, 'E')]);
    g.score = u64::MAX - 1;
    g.fall_and_collect(1, &vec!['E']);
    assert_eq!(g.score, u64::MAX);
}

#[test]
fn removal_keeps_only_live_letters_in_order() {
    let mut dead = FallingLetter::new(0, HIT_ZONE_TOP - 10, 'B');
    dead.advance(1, 1);
    assert!(dead.try_collect('B'));
    let a = FallingLetter::new(1, 0, 'A');
    let c = FallingLetter::new(2, 0, 'C');
    let mut g = quiet_game(vec![a, dead, c]);
    g.remove_gone();
    assert_eq!(g.letters, vec![a, c]);
}

#[test]
fn frame_removes_collected_and_fallen_letters() {
    let low = FallingLetter::new(0, 600 * UNITS_PER_PIXEL - 5, 'L');
    let hit = FallingLetter::new(1, HIT_ZONE_TOP - 100, 'H');
    let high = FallingLetter::new(2, 0, 'H');
    let mut g = quiet_game(vec![low, hit, high]);
    g.step(1, 1, &vec!['H'], &Vec::new());
    assert_eq!(g.letters.len(), 1);
    assert_eq!(g.letters[0].x, 2);
    assert!(g.letters.iter().all(|l| l.alive));
    assert_eq!(g.score, SCORE_BONUS);
}

#[test]
fn burst_spawns_staggered_letters() {
    let mut g = quiet_game(Vec::new());
    g.spawn_timer = Time::new(10, 0);
    let burst = vec![SpawnRoll { x: 600, character: 'X' }, SpawnRoll { x: 1029, character: 'Z' }];
    g.spawn_burst(11, &burst);
    assert_eq!(g.spawn_timer.start, 11);
    assert_eq!(g.letters.len(), 2);
    assert_eq!(g.letters[0], FallingLetter::new(600 * UNITS_PER_PIXEL, SPAWN_Y, 'X'));
    assert_eq!(g.letters[1], FallingLetter::new(1029 * UNITS_PER_PIXEL, SPAWN_Y - SPAWN_STAGGER, 'Z'));
    assert_eq!(g.letters[1].tint, tint_of('Z'));
}

#[test]
fn burst_ignored_when_spawn_timer_not_due() {
    let mut g = quiet_game(Vec::new());
    g.spawn_timer = Time::new(10, 0);
    g.spawn_burst(10, &vec![SpawnRoll { x: 600, character: 'X' }]);
    assert!(g.letters.is_empty());
    assert_eq!(g.spawn_timer.start, 0);
}

#[test]
fn rolled_bursts_are_in_range_and_vary() {
    let mut xs = Vec::new();
    let mut chars = Vec::new();
    for _ in 0..200 {
        let b = roll_burst();
        assert!(!b.is_empty() && b.len() <= 3);
        for r in &b {
            assert!(SPAWN_X_MIN <= r.x && r.x < SPAWN_X_END);
            assert!(r.character.is_ascii_uppercase());
            xs.push(r.x);
            chars.push(r.character);
        }
    }
    assert!(xs.iter().any(|&x| x != xs[0]));
    assert!(chars.iter().any(|&ch| ch != chars[0]));
    assert!(chars.contains(&'Z'));
}

#[test]
fn update_spawns_random_burst_when_due() {
    let mut g = quiet_game(Vec::new());
    g.spawn_timer = Time::new(10, 0);
    g.update(11, 1, &Vec::new());
    assert!(!g.letters.is_empty() && g.letters.len() <= 3);
    for (i, l) in g.letters.iter().enumerate() {
        assert!(l.alive);
        assert_eq!(l.tint, tint_of(l.character));
        assert!(600 * UNITS_PER_PIXEL <= l.x && l.x < 1030 * UNITS_PER_PIXEL);
        assert_eq!(l.y, SPAWN_Y - (i as i64) * SPAWN_STAGGER + BASE_DROP_SPEED as i64);
    }
    assert_eq!(g.spawn_timer.start, 11);
}
