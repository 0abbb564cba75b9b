use drink_up::letter::{
    tint_of, Color, FallingLetter, HIT_ZONE_TOP, LETTER_HEIGHT, SCREEN_HEIGHT, UNITS_PER_PIXEL,
};

fn c(r: u8, g: u8, b: u8) -> Color {
    Color { r, g, b, a: 255 }
}

#[test]
fn tints_of_letters() {
    assert_eq!(tint_of('A'), c(255, 0, 0));
    assert_eq!(tint_of('B'), c(255, 128, 128));
    assert_eq!(tint_of('K'), c(255, 0, 255));
    assert_eq!(tint_of('Y'), c(155, 200, 255));
    assert_eq!(tint_of('Z'), c(39, 5, 255));
}

#[test]
fn tint_is_same_on_every_call() {
    for code in b'A'..=b'Z' {
        let ch = code as char;
        assert_eq!(tint_of(ch), tint_of(ch));
        assert_eq!(tint_of(ch).a, 255);
    }
}

#[test]
fn new_letter_is_live_and_tinted() {
    let l = FallingLetter::new(3, -70 * UNITS_PER_PIXEL, 'K');
    assert_eq!(l.x, 3);
    assert_eq!(l.y, -70 * UNITS_PER_PIXEL);
    assert_eq!(l.character, 'K');
    assert_eq!(l.tint, c(255, 0, 255));
    assert!(l.alive);
    assert!(!l.in_hit_zone);
}

#[test]
fn advance_moves_by_dt_times_speed() {
    let mut l = FallingLetter::new(0, 0, 'B');
    l.advance(1_000, 60);
    assert_eq!(l.y, 60_000);
    assert!(l.alive);
    assert!(!l.in_hit_zone);
}

#[test]
fn advance_into_hit_zone() {
    let mut l = FallingLetter::new(0, HIT_ZONE_TOP - LETTER_HEIGHT, 'C');
    l.advance(1, 1);
    assert!(l.in_hit_zone);
    let mut edge = FallingLetter::new(0, HIT_ZONE_TOP - LETTER_HEIGHT - 1, 'C');
    edge.advance(1, 1);
    assert!(!edge.in_hit_zone);
    let mut below = FallingLetter::new(0, HIT_ZONE_TOP - 1, 'C');
    below.advance(1, 1);
    assert!(!below.in_hit_zone);
}

#[test]
fn advance_past_screen_bottom_is_gone() {
    let mut l = FallingLetter::new(0, SCREEN_HEIGHT, 'D');
    l.advance(0, 5);
    assert!(l.alive);
    l.advance(1, 1);
    assert!(!l.alive);
    assert!(!l.in_hit_zone);
}

#[test]
fn collect_in_zone_with_matching_key() {
    let mut l = FallingLetter::new(0, HIT_ZONE_TOP - 10, 'K');
    l.advance(1, 1);
    assert!(l.in_hit_zone);
    assert!(!l.try_collect('J'));
    assert!(l.alive);
    assert!(l.try_collect('K'));
    assert!(!l.alive);
    assert!(!l.try_collect('K'));
}

#[test]
fn collect_outside_zone_fails() {
    let mut l = FallingLetter::new(0, 0, 'K');
    assert!(!l.try_collect('K'));
    assert!(l.alive);
}
